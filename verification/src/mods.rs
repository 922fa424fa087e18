//! Mods as a caller may specify them.
//!
//! A mods value is polymorphic: an integer of bit flags, a string of acronyms,
//! a mod object with an `acronym` and optional `settings`, or a sequence whose
//! elements are each one of those three. Decoding finds out which shape it is,
//! in that order, and keeps it as a tagged union; what the mods mean is for
//! the mod library to say.

use crate::deserializer::{decode_string, decode_unsigned, invalid_type, JsDeserializer};
use crate::error::{DecodeError, DecodeErrorView, Description, result_view};
use crate::number::{Number, number_of};
use crate::value::{
    clone_entries, entries_view, Entry, HostEntry, HostValue, items_view, lookup, lookup_entry,
    Value,
};
use vstd::arithmetic::power2::lemma2_to64;
use vstd::prelude::*;
use vstd::string::StringExecFns;

verus! {

/// The name under which mods are reported, and the key of the field that
/// holds them.
pub const MODS_FIELD: &'static str = "mods";

/// The key of a mod object's acronym.
pub const ACRONYM_FIELD: &'static str = "acronym";

/// The key of a mod object's settings.
pub const SETTINGS_FIELD: &'static str = "settings";

/// A mod object: an acronym, and the entries of its settings if it has some.
#[derive(Debug, PartialEq, Eq)]
pub struct ModObject {
    pub acronym: String,
    pub settings: Option<Vec<Entry>>,
}

/// One element of a mods value.
#[derive(Debug, PartialEq, Eq)]
pub enum GameMod {
    /// Bit flags.
    Bits(u32),
    /// Acronyms, as the caller wrote them.
    Acronym(String),
    Object(ModObject),
}

/// A mods value.
#[derive(Debug, PartialEq, Eq)]
pub enum JsGameMods {
    Single(GameMod),
    List(Vec<GameMod>),
}

/// The view of a [`ModObject`].
pub ghost struct ModObjectView {
    pub acronym: Seq<char>,
    pub settings: Option<Seq<HostEntry>>,
}

/// The view of a [`GameMod`].
pub ghost enum GameModView {
    Bits(u32),
    Acronym(Seq<char>),
    Object(ModObjectView),
}

/// The view of a [`JsGameMods`].
pub ghost enum JsGameModsView {
    Single(GameModView),
    List(Seq<GameModView>),
}

impl View for ModObject {
    type V = ModObjectView;

    open spec fn view(&self) -> ModObjectView {
        ModObjectView {
            acronym: self.acronym@,
            settings: match self.settings {
                Some(entries) => Some(entries_view(entries@)),
                None => None,
            },
        }
    }
}

impl View for GameMod {
    type V = GameModView;

    open spec fn view(&self) -> GameModView {
        match self {
            GameMod::Bits(bits) => GameModView::Bits(*bits),
            GameMod::Acronym(acronym) => GameModView::Acronym(acronym@),
            GameMod::Object(object) => GameModView::Object(object@),
        }
    }
}

/// The views of a sequence of mods, in the same order.
pub open spec fn mods_view(mods: Seq<GameMod>) -> Seq<GameModView> {
    Seq::new(mods.len(), |i: int| mods[i]@)
}

impl View for JsGameMods {
    type V = JsGameModsView;

    open spec fn view(&self) -> JsGameModsView {
        match self {
            JsGameMods::Single(single) => JsGameModsView::Single(single@),
            JsGameMods::List(list) => JsGameModsView::List(mods_view(list@)),
        }
    }
}

impl ModObjectView {
    /// The object that stands for the mod object: a plain object that holds
    /// the acronym and, where there are settings, a plain object with their
    /// entries.
    pub open spec fn encode(self) -> HostValue {
        HostValue::Object {
            class_name: "Object"@,
            entries: seq![HostEntry { key: ACRONYM_FIELD@, value: HostValue::Str(self.acronym) }]
                + match self.settings {
                Some(entries) => seq![
                    HostEntry {
                        key: SETTINGS_FIELD@,
                        value: HostValue::Object { class_name: "Object"@, entries },
                    },
                ],
                None => Seq::empty(),
            },
        }
    }
}

impl GameModView {
    /// The host value that stands for the mod: the number of the bit flags,
    /// the string of the acronyms, or the object of the mod object.
    pub open spec fn encode(self) -> HostValue {
        match self {
            GameModView::Bits(bits) => HostValue::Number(number_of(bits as nat)),
            GameModView::Acronym(acronym) => HostValue::Str(acronym),
            GameModView::Object(object) => object.encode(),
        }
    }
}

impl JsGameModsView {
    /// The host value that stands for the mods: the value of a single mod,
    /// or the array of the values of a list.
    pub open spec fn encode(self) -> HostValue {
        match self {
            JsGameModsView::Single(single) => single.encode(),
            JsGameModsView::List(list) => HostValue::Array(
                Seq::new(list.len(), |i: int| list[i].encode()),
            ),
        }
    }
}

/// No mods: the bit flags with no bit set.
pub open spec fn no_mods() -> JsGameModsView {
    JsGameModsView::Single(GameModView::Bits(0))
}

/// What the settings of a mod object decode to: nothing where the key is
/// absent or its value nullish, the entries of an object, and a type error
/// for anything else.
pub open spec fn decode_settings(entries: Seq<HostEntry>) -> Result<
    Option<Seq<HostEntry>>,
    DecodeErrorView,
> {
    match lookup(entries, SETTINGS_FIELD@) {
        None => Ok(None),
        Some(v) => match v {
            HostValue::Undefined => Ok(None),
            HostValue::Null => Ok(None),
            HostValue::Object { class_name, entries: inner } => Ok(Some(inner)),
            _ => Err(invalid_type(Description::Object, v)),
        },
    }
}

/// A mod object must have a string under `acronym` and may have an object
/// under `settings`. Other keys are ignored.
pub open spec fn decode_mod_object(entries: Seq<HostEntry>) -> Result<
    ModObjectView,
    DecodeErrorView,
> {
    match lookup(entries, ACRONYM_FIELD@) {
        None => Err(DecodeErrorView::MissingRequiredField { name: ACRONYM_FIELD@ }),
        Some(v) => match decode_string(v) {
            Err(e) => Err(e),
            Ok(acronym) => match decode_settings(entries) {
                Err(e) => Err(e),
                Ok(settings) => Ok(ModObjectView { acronym, settings }),
            },
        },
    }
}

/// One mod: a number must be an unsigned integer of thirty-two bits and gives
/// bit flags, a string gives acronyms, an object gives a mod object.
pub open spec fn decode_mod(v: HostValue) -> Result<GameModView, DecodeErrorView> {
    match v {
        HostValue::Number(_) => match decode_unsigned(v, 32, MODS_FIELD@) {
            Ok(n) => Ok(GameModView::Bits(n as u32)),
            Err(e) => Err(e),
        },
        HostValue::Str(s) => Ok(GameModView::Acronym(s)),
        HostValue::Object { class_name, entries } => match decode_mod_object(entries) {
            Ok(object) => Ok(GameModView::Object(object)),
            Err(e) => Err(e),
        },
        _ => Err(invalid_type(Description::Mods, v)),
    }
}

/// Every element as one mod, in order; the first element that is none gives
/// the error.
pub open spec fn decode_mod_list(items: Seq<HostValue>) -> Result<
    Seq<GameModView>,
    DecodeErrorView,
>
    decreases items.len(),
{
    if items.len() == 0 {
        Ok(Seq::empty())
    } else {
        match decode_mod_list(items.drop_last()) {
            Err(e) => Err(e),
            Ok(mods) => match decode_mod(items.last()) {
                Err(e) => Err(e),
                Ok(one) => Ok(mods.push(one)),
            },
        }
    }
}

/// A mods value: a sequence gives a list of mods, anything else one mod.
pub open spec fn decode_mods(v: HostValue) -> Result<JsGameModsView, DecodeErrorView> {
    match v {
        HostValue::Array(items) => match decode_mod_list(items) {
            Ok(list) => Ok(JsGameModsView::List(list)),
            Err(e) => Err(e),
        },
        HostValue::Iterable(items) => match decode_mod_list(items) {
            Ok(list) => Ok(JsGameModsView::List(list)),
            Err(e) => Err(e),
        },
        _ => match decode_mod(v) {
            Ok(single) => Ok(JsGameModsView::Single(single)),
            Err(e) => Err(e),
        },
    }
}

/// A prefix that fails makes the whole list fail with the same error.
pub proof fn lemma_mod_list_prefix_error(items: Seq<HostValue>, n: int)
    requires
        0 <= n <= items.len(),
        decode_mod_list(items.subrange(0, n)) is Err,
    ensures
        decode_mod_list(items) == decode_mod_list(items.subrange(0, n)),
    decreases items.len() - n,
{
    if n == items.len() {
        assert(items.subrange(0, n) =~= items);
    } else {
        let next = items.subrange(0, n + 1);
        assert(next.drop_last() =~= items.subrange(0, n));
        lemma_mod_list_prefix_error(items, n + 1);
    }
}

impl Clone for ModObject {
    fn clone(&self) -> (r: ModObject)
        ensures
            r@ == self@,
    {
        ModObject {
            acronym: self.acronym.clone(),
            settings: match &self.settings {
                Some(entries) => Some(clone_entries(entries)),
                None => None,
            },
        }
    }
}

impl Clone for GameMod {
    fn clone(&self) -> (r: GameMod)
        ensures
            r@ == self@,
    {
        match self {
            GameMod::Bits(bits) => GameMod::Bits(*bits),
            GameMod::Acronym(acronym) => GameMod::Acronym(acronym.clone()),
            GameMod::Object(object) => GameMod::Object(object.clone()),
        }
    }
}

impl Clone for JsGameMods {
    fn clone(&self) -> (r: JsGameMods)
        ensures
            r@ == self@,
    {
        match self {
            JsGameMods::Single(single) => JsGameMods::Single(single.clone()),
            JsGameMods::List(list) => {
                let mut out: Vec<GameMod> = Vec::new();
                let mut i: usize = 0;
                while i < list.len()
                    invariant
                        i <= list.len(),
                        out.len() == i,
                        forall|j: int| 0 <= j < i ==> out[j]@ == list[j]@,
                    decreases list.len() - i,
                {
                    out.push(list[i].clone());
                    i = i + 1;
                }
                assert(mods_view(out@) =~= mods_view(list@));
                JsGameMods::List(out)
            },
        }
    }
}

impl Default for JsGameMods {
    fn default() -> (r: JsGameMods)
        ensures
            r@ == no_mods(),
    {
        JsGameMods::Single(GameMod::Bits(0))
    }
}

impl ModObject {
    /// Decodes a mod object from the entries of an object.
    pub fn deserialize(entries: &Vec<Entry>) -> (r: Result<ModObject, DecodeError>)
        ensures
            result_view(r) == decode_mod_object(entries_view(entries@)),
    {
        let acronym = match lookup_entry(entries, ACRONYM_FIELD) {
            None => {
                return Err(DecodeError::MissingRequiredField { name: ACRONYM_FIELD });
            },
            Some(v) => JsDeserializer::from_ref(v).deserialize_string()?,
        };
        let settings = match lookup_entry(entries, SETTINGS_FIELD) {
            None => None,
            Some(v) => match v {
                Value::Undefined => None,
                Value::Null => None,
                Value::Object { class_name, entries: inner } => Some(clone_entries(inner)),
                _ => {
                    return Err(
                        DecodeError::InvalidType {
                            expected: Description::Object,
                            found: v.shape(),
                        },
                    );
                },
            },
        };
        Ok(ModObject { acronym, settings })
    }

    /// The object that stands for the mod object: its acronym, and its
    /// settings if it has some.
    pub fn to_value(&self) -> (r: Value)
        ensures
            r@ == self@.encode(),
            decode_mod_object(r@->entries) == Ok::<_, DecodeErrorView>(self@),
    {
        let mut entries: Vec<Entry> = Vec::new();
        entries.push(Entry { key: String::from_str(ACRONYM_FIELD), value: Value::Str(self.acronym.clone()) });
        proof {
            lemma_field_names_differ();
        }
        let ghost first = entries_view(entries@);
        proof {
            assert(first.len() == 1 && first.last() == entries[0]@);
            assert(first.drop_last().len() == 0);
            assert(lookup(first.drop_last(), SETTINGS_FIELD@) is None);
            assert(lookup(first, SETTINGS_FIELD@) is None);
            assert(lookup(first, ACRONYM_FIELD@) == Some(HostValue::Str(self.acronym@)));
            assert(first =~= seq![
                HostEntry { key: ACRONYM_FIELD@, value: HostValue::Str(self.acronym@) },
            ]);
        }
        match &self.settings {
            None => {},
            Some(settings) => {
                entries.push(
                    Entry {
                        key: String::from_str(SETTINGS_FIELD),
                        value: Value::Object {
                            class_name: String::from_str("Object"),
                            entries: clone_entries(settings),
                        },
                    },
                );
                proof {
                    let both = entries_view(entries@);
                    assert(both.last() == entries[1]@);
                    assert(both.drop_last() =~= first);
                    assert(lookup(both, ACRONYM_FIELD@) == lookup(first, ACRONYM_FIELD@));
                    assert(lookup(both, SETTINGS_FIELD@) == Some(both.last().value));
                    assert(both =~= first + seq![both.last()]);
                }
            },
        }
        Value::Object { class_name: String::from_str("Object"), entries }
    }
}

/// The keys of a mod object are two different names.
pub proof fn lemma_field_names_differ()
    ensures
        ACRONYM_FIELD@ != SETTINGS_FIELD@,
{
    reveal_strlit("acronym");
    reveal_strlit("settings");
    assert(ACRONYM_FIELD@.len() != SETTINGS_FIELD@.len());
}

impl GameMod {
    /// Decodes one mod.
    pub fn deserialize(d: &JsDeserializer) -> (r: Result<GameMod, DecodeError>)
        ensures
            result_view(r) == decode_mod(d@),
    {
        match d.value() {
            Value::Number(_) => {
                let bits = d.deserialize_u32(MODS_FIELD)?;
                Ok(GameMod::Bits(bits))
            },
            Value::Str(s) => Ok(GameMod::Acronym(s.clone())),
            Value::Object { class_name, entries } => Ok(
                GameMod::Object(ModObject::deserialize(entries)?),
            ),
            _ => d.invalid_type(Description::Mods),
        }
    }

    /// The host value that stands for the mod.
    pub fn to_value(&self) -> (r: Value)
        ensures
            r@ == self@.encode(),
            decode_mod(r@) == Ok::<_, DecodeErrorView>(self@),
            !(r@ is Array) && !(r@ is Iterable),
    {
        match self {
            GameMod::Bits(bits) => {
                proof {
                    lemma2_to64();
                }
                Value::Number(Number::from_u32(*bits))
            },
            GameMod::Acronym(acronym) => Value::Str(acronym.clone()),
            GameMod::Object(object) => object.to_value(),
        }
    }
}

impl JsGameMods {
    /// Decodes a mods value.
    pub fn deserialize(d: &JsDeserializer) -> (r: Result<JsGameMods, DecodeError>)
        ensures
            result_view(r) == decode_mods(d@),
    {
        match d.value() {
            Value::Array(items) => Ok(JsGameMods::List(deserialize_list(items)?)),
            Value::Iterable(items) => Ok(JsGameMods::List(deserialize_list(items)?)),
            _ => Ok(JsGameMods::Single(GameMod::deserialize(d)?)),
        }
    }

    /// The host value that stands for the mods: an array for a list, and the
    /// mod's own value for a single mod.
    pub fn to_value(&self) -> (r: Value)
        ensures
            r@ == self@.encode(),
            decode_mods(r@) == Ok::<_, DecodeErrorView>(self@),
    {
        match self {
            JsGameMods::Single(single) => single.to_value(),
            JsGameMods::List(list) => {
                let mut items: Vec<Value> = Vec::new();
                let mut i: usize = 0;
                assert(items_view(items@) =~= Seq::empty());
                assert(mods_view(list@).subrange(0, 0) =~= Seq::empty());
                while i < list.len()
                    invariant
                        i <= list.len(),
                        items.len() == i,
                        decode_mod_list(items_view(items@)) == Ok::<_, DecodeErrorView>(
                            mods_view(list@).subrange(0, i as int),
                        ),
                        forall|j: int| 0 <= j < i ==> items[j]@ == (#[trigger] list[j])@.encode(),
                    decreases list.len() - i,
                {
                    let ghost before = items_view(items@);
                    let item = list[i].to_value();
                    items.push(item);
                    proof {
                        let after = items_view(items@);
                        assert(after.drop_last() =~= before);
                        assert(after.last() == item@);
                        assert(mods_view(list@).subrange(0, i + 1) =~= mods_view(list@).subrange(
                            0,
                            i as int,
                        ).push(list[i as int]@));
                    }
                    i = i + 1;
                }
                assert(mods_view(list@).subrange(0, i as int) =~= mods_view(list@));
                assert(items_view(items@) =~= Seq::new(
                    mods_view(list@).len(),
                    |i: int| mods_view(list@)[i].encode(),
                ));
                Value::Array(items)
            },
        }
    }
}

/// Decodes every element of a sequence as one mod.
fn deserialize_list(items: &Vec<Value>) -> (r: Result<Vec<GameMod>, DecodeError>)
    ensures
        match r {
            Ok(list) => decode_mod_list(items_view(items@)) == Ok::<_, DecodeErrorView>(
                mods_view(list@),
            ),
            Err(e) => decode_mod_list(items_view(items@)) == Err::<Seq<GameModView>, _>(e@),
        },
{
    let ghost all = items_view(items@);
    let mut out: Vec<GameMod> = Vec::new();
    let mut i: usize = 0;
    assert(all.subrange(0, 0) =~= Seq::empty());
    assert(mods_view(out@) =~= Seq::empty());
    while i < items.len()
        invariant
            i <= items.len(),
            all == items_view(items@),
            decode_mod_list(all.subrange(0, i as int)) == Ok::<_, DecodeErrorView>(
                mods_view(out@),
            ),
        decreases items.len() - i,
    {
        proof {
            let upto = all.subrange(0, i + 1);
            assert(upto.drop_last() =~= all.subrange(0, i as int));
            assert(upto.last() == items[i as int]@);
        }
        let ghost before = mods_view(out@);
        let d = JsDeserializer::from_ref(&items[i]);
        match GameMod::deserialize(&d) {
            Ok(one) => {
                out.push(one);
                assert(mods_view(out@) =~= before.push(one@));
            },
            Err(e) => {
                proof {
                    lemma_mod_list_prefix_error(all, i + 1);
                }
                return Err(e);
            },
        }
        i = i + 1;
    }
    assert(all.subrange(0, i as int) =~= all);
    Ok(out)
}

} // verus!
