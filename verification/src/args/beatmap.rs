//! What a beatmap is made from, and the settings of its attributes.

use crate::args::common::{common_fields, common_schema, lemma_common_names, one_if, push_if};
use crate::args::difficulty::OBJECT_CLASS;
use crate::beatmap::BeatmapRef;
use crate::deserializer::{decode_bytes, decode_struct, invalid_type, JsDeserializer};
use crate::error::{DecodeError, DecodeErrorView, Description, result_view};
use crate::mode::{decode_mode, JsGameMode};
use crate::mods::{JsGameMods, JsGameModsView};
use crate::number::Number;
use crate::schema::{
    beatmap_slot, decode_object, decode_object_of, encode_object, encode_slots, Field, FieldKind,
    fields_view, FieldView, float_slot, lemma_decoded_slots_len, mode_slot, names_distinct, Slot,
    slots_conform, slots_view, SlotView,
};
use crate::value::{entries_view, Entry, HostEntry, HostValue, lookup, lookup_entry, Value};
use vstd::prelude::*;
use vstd::string::StringExecFns;
use vstd::utf8::encode_utf8;

verus! {

/// The content of a `.osu` file, as bytes.
#[derive(Debug, PartialEq, Eq)]
pub struct BeatmapContent {
    pub bytes: Vec<u8>,
}

impl View for BeatmapContent {
    type V = Seq<u8>;

    open spec fn view(&self) -> Seq<u8> {
        self.bytes@
    }
}

impl BeatmapContent {
    /// Decodes the content from a byte buffer or from a string. The bytes of
    /// a byte buffer are taken as they are; a string gives its UTF-8 encoding.
    pub fn deserialize(d: &JsDeserializer) -> (r: Result<BeatmapContent, DecodeError>)
        ensures
            result_view(r) == decode_bytes(d@),
    {
        let bytes = d.decode_bytes()?;
        Ok(BeatmapContent { bytes })
    }

    /// The byte buffer that stands for the content.
    pub fn to_value(&self) -> (r: Value)
        ensures
            r@ == HostValue::Bytes(self@),
            decode_bytes(r@) == Ok::<_, DecodeErrorView>(self@),
    {
        Value::Bytes(self.bytes.clone())
    }
}

/// The key under which construction arguments hold raw bytes.
pub const BYTES_FIELD: &'static str = "bytes";

/// The key under which construction arguments hold text.
pub const CONTENT_FIELD: &'static str = "content";

/// The key under which construction arguments hold the mode to convert to.
pub const TARGET_MODE_FIELD: &'static str = "mode";

/// What a beatmap is constructed from: the content of a `.osu` file, and the
/// game mode to convert the parsed beatmap to, if any.
#[derive(Debug, PartialEq, Eq)]
pub struct BeatmapArgs {
    pub content: BeatmapContent,
    pub mode: Option<JsGameMode>,
}

/// The view of [`BeatmapArgs`].
pub ghost struct BeatmapArgsView {
    pub content: Seq<u8>,
    pub mode: Option<JsGameMode>,
}

impl View for BeatmapArgs {
    type V = BeatmapArgsView;

    open spec fn view(&self) -> BeatmapArgsView {
        BeatmapArgsView { content: self.content@, mode: self.mode }
    }
}

/// What is under a key, unless the key is absent or holds null or undefined.
pub open spec fn present(entries: Seq<HostEntry>, name: Seq<char>) -> Option<HostValue> {
    match lookup(entries, name) {
        Some(v) => if v.is_nullish() {
            None
        } else {
            Some(v)
        },
        None => None,
    }
}

impl BeatmapArgsView {
    /// The content among the entries of construction arguments: the bytes
    /// come first, and the text is looked at only where there are no bytes.
    /// Either may be a byte buffer or a string. With neither of them, the
    /// bytes are missing.
    pub open spec fn decode_content(entries: Seq<HostEntry>) -> Result<Seq<u8>, DecodeErrorView> {
        match present(entries, BYTES_FIELD@) {
            Some(v) => decode_bytes(v),
            None => match present(entries, CONTENT_FIELD@) {
                Some(v) => decode_bytes(v),
                None => Err(DecodeErrorView::MissingRequiredField { name: BYTES_FIELD@ }),
            },
        }
    }

    /// The mode to convert to among the entries of construction arguments.
    pub open spec fn decode_target(entries: Seq<HostEntry>) -> Result<
        Option<JsGameMode>,
        DecodeErrorView,
    > {
        match present(entries, TARGET_MODE_FIELD@) {
            None => Ok(None),
            Some(v) => match decode_mode(v) {
                Ok(mode) => Ok(Some(mode)),
                Err(e) => Err(e),
            },
        }
    }

    /// The entry that stands for the mode to convert to, where there is one.
    pub open spec fn target_entry(self) -> Option<HostEntry> {
        match self.mode {
            Some(mode) => Some(HostEntry { key: TARGET_MODE_FIELD@, value: mode.encode() }),
            None => None,
        }
    }

    /// The plain object that stands for the arguments: the mode under `mode`
    /// if there is one, and the content as a byte buffer under `bytes`.
    pub open spec fn encode(self) -> HostValue {
        HostValue::Object {
            class_name: OBJECT_CLASS@,
            entries: one_if(self.target_entry()) + seq![
                HostEntry { key: BYTES_FIELD@, value: HostValue::Bytes(self.content) },
            ],
        }
    }

    /// What a host value decodes to as construction arguments. A byte buffer
    /// or a string is the content itself. A plain object holds the content
    /// under `bytes` or `content` and may hold a mode under `mode`; the
    /// content is decoded first. Anything else is of the wrong type.
    pub open spec fn decode(v: HostValue) -> Result<BeatmapArgsView, DecodeErrorView> {
        match v {
            HostValue::Bytes(_) | HostValue::Str(_) => match decode_bytes(v) {
                Ok(content) => Ok(BeatmapArgsView { content, mode: None }),
                Err(e) => Err(e),
            },
            HostValue::Object { class_name, entries } => match decode_struct(v, OBJECT_CLASS@) {
                Err(e) => Err(e),
                Ok(entries) => match Self::decode_content(entries) {
                    Err(e) => Err(e),
                    Ok(content) => match Self::decode_target(entries) {
                        Err(e) => Err(e),
                        Ok(mode) => Ok(BeatmapArgsView { content, mode }),
                    },
                },
            },
            _ => Err(invalid_type(Description::BytesOrString, v)),
        }
    }
}

/// Looks a key up and takes null and undefined for "not there".
pub fn lookup_present<'a>(entries: &'a Vec<Entry>, name: &str) -> (r: Option<&'a Value>)
    ensures
        match r {
            Some(v) => present(entries_view(entries@), name@) == Some(v@),
            None => present(entries_view(entries@), name@) is None,
        },
{
    match lookup_entry(entries, name) {
        Some(v) => if v.is_nullish() {
            None
        } else {
            Some(v)
        },
        None => None,
    }
}

impl BeatmapArgs {
    /// Decodes construction arguments.
    pub fn deserialize(d: &JsDeserializer) -> (r: Result<BeatmapArgs, DecodeError>)
        ensures
            result_view(r) == BeatmapArgsView::decode(d@),
    {
        match d.value() {
            Value::Bytes(_) => Ok(
                BeatmapArgs { content: BeatmapContent::deserialize(d)?, mode: None },
            ),
            Value::Str(_) => Ok(BeatmapArgs { content: BeatmapContent::deserialize(d)?, mode: None }),
            Value::Object { .. } => {
                let entries = d.deserialize_struct(OBJECT_CLASS)?;
                let holder = match lookup_present(entries, BYTES_FIELD) {
                    Some(v) => v,
                    None => match lookup_present(entries, CONTENT_FIELD) {
                        Some(v) => v,
                        None => {
                            return Err(DecodeError::MissingRequiredField { name: BYTES_FIELD });
                        },
                    },
                };
                let content = BeatmapContent::deserialize(&JsDeserializer::from_ref(holder))?;
                let mode = match lookup_present(entries, TARGET_MODE_FIELD) {
                    None => None,
                    Some(v) => Some(JsGameMode::deserialize(&JsDeserializer::from_ref(v))?),
                };
                Ok(BeatmapArgs { content, mode })
            },
            _ => d.invalid_type(Description::BytesOrString),
        }
    }

    /// The plain object that stands for the arguments: the content as a byte
    /// buffer under `bytes`, and the mode under `mode` if there is one.
    ///
    /// Decoding the object gives the arguments back.
    pub fn to_value(&self) -> (r: Value)
        ensures
            r@ == self@.encode(),
            BeatmapArgsView::decode(r@) == Ok::<_, DecodeErrorView>(self@),
    {
        let mut entries: Vec<Entry> = Vec::new();
        match self.mode {
            Some(mode) => {
                entries.push(Entry { key: String::from_str(TARGET_MODE_FIELD), value: mode.to_value() });
            },
            None => {},
        }
        let ghost first = entries_view(entries@);
        entries.push(
            Entry { key: String::from_str(BYTES_FIELD), value: Value::Bytes(self.content.bytes.clone()) },
        );
        proof {
            lemma_construction_keys();
            let all = entries_view(entries@);
            assert(all.last() == entries[entries.len() - 1]@);
            assert(all.drop_last() =~= first);
            assert(lookup(all, BYTES_FIELD@) == Some(all.last().value));
            assert(lookup(all, TARGET_MODE_FIELD@) == lookup(first, TARGET_MODE_FIELD@));
            if self.mode is Some {
                assert(first.len() == 1 && first.last() == entries[0]@);
                assert(lookup(first, TARGET_MODE_FIELD@) == Some(first.last().value));
            } else {
                assert(first.len() == 0);
            }
            assert(first =~= one_if(self@.target_entry()));
            assert(all =~= first + seq![all.last()]);
        }
        Value::Object { class_name: String::from_str(OBJECT_CLASS), entries }
    }
}

/// The key of the bytes and the key of the mode are different names.
pub proof fn lemma_construction_keys()
    ensures
        BYTES_FIELD@ != TARGET_MODE_FIELD@,
{
    reveal_strlit("bytes");
    reveal_strlit("mode");
    assert(BYTES_FIELD@.len() != TARGET_MODE_FIELD@.len());
}

/// A string and a byte buffer that holds the string's UTF-8 encoding decode
/// to the same bytes.
pub proof fn lemma_text_and_bytes_agree(text: Seq<char>)
    ensures
        decode_bytes(HostValue::Str(text)) == decode_bytes(HostValue::Bytes(encode_utf8(text))),
        decode_bytes(HostValue::Str(text)) == Ok::<_, DecodeErrorView>(encode_utf8(text)),
{
}

/// One call on the builder of the attributes of a beatmap.
#[derive(Clone, Copy, Debug, PartialEq, Eq)]
pub enum BuilderStep {
    /// Start from the beatmap with this handle.
    Beatmap(BeatmapRef),
    /// A game mode, and whether the map is a convert.
    Mode(JsGameMode, bool),
    ClockRate(Number),
    /// An approach rate, and whether it is meant with mods applied.
    Ar(Number, bool),
    /// A circle size, and whether it is meant with mods applied.
    Cs(Number, bool),
    /// A drain rate, and whether it is meant with mods applied.
    Hp(Number, bool),
    /// An overall difficulty, and whether it is meant with mods applied.
    Od(Number, bool),
    /// Hand over the mods of the settings.
    Mods,
}

/// The settings from which the attributes of a beatmap are built.
#[derive(Debug, PartialEq, Eq)]
pub struct BeatmapAttributesArgs {
    pub mods: JsGameMods,
    pub clock_rate: Option<Number>,
    pub ar: Option<Number>,
    pub ar_with_mods: bool,
    pub cs: Option<Number>,
    pub cs_with_mods: bool,
    pub hp: Option<Number>,
    pub hp_with_mods: bool,
    pub od: Option<Number>,
    pub od_with_mods: bool,
    pub mode: Option<JsGameMode>,
    pub is_convert: bool,
    pub map: Option<BeatmapRef>,
}

/// The view of [`BeatmapAttributesArgs`].
pub ghost struct BeatmapAttributesArgsView {
    pub mods: JsGameModsView,
    pub clock_rate: Option<Number>,
    pub ar: Option<Number>,
    pub ar_with_mods: bool,
    pub cs: Option<Number>,
    pub cs_with_mods: bool,
    pub hp: Option<Number>,
    pub hp_with_mods: bool,
    pub od: Option<Number>,
    pub od_with_mods: bool,
    pub mode: Option<JsGameMode>,
    pub is_convert: bool,
    pub map: Option<BeatmapRef>,
}

impl View for BeatmapAttributesArgs {
    type V = BeatmapAttributesArgsView;

    open spec fn view(&self) -> BeatmapAttributesArgsView {
        BeatmapAttributesArgsView {
            mods: self.mods@,
            clock_rate: self.clock_rate,
            ar: self.ar,
            ar_with_mods: self.ar_with_mods,
            cs: self.cs,
            cs_with_mods: self.cs_with_mods,
            hp: self.hp,
            hp_with_mods: self.hp_with_mods,
            od: self.od,
            od_with_mods: self.od_with_mods,
            mode: self.mode,
            is_convert: self.is_convert,
            map: self.map,
        }
    }
}

impl BeatmapAttributesArgsView {
    /// The schema: the common fields, then a game mode, whether the map is a
    /// convert, and a beatmap to start from. No field is required.
    pub open spec fn fields() -> Seq<FieldView> {
        common_fields() + seq![
            FieldView { name: "mode"@, kind: FieldKind::Mode, required: false },
            FieldView { name: "isConvert"@, kind: FieldKind::Bool, required: false },
            FieldView { name: "map"@, kind: FieldKind::Beatmap, required: false },
        ]
    }

    /// The settings that the slots of the schema stand for. A slot without a
    /// value leaves its field at the default.
    pub open spec fn from_slots(slots: Seq<SlotView>) -> BeatmapAttributesArgsView {
        BeatmapAttributesArgsView {
            mods: slots[0].mods(),
            clock_rate: slots[1].float(),
            ar: slots[2].float(),
            ar_with_mods: slots[3].flag(),
            cs: slots[4].float(),
            cs_with_mods: slots[5].flag(),
            hp: slots[6].float(),
            hp_with_mods: slots[7].flag(),
            od: slots[8].float(),
            od_with_mods: slots[9].flag(),
            mode: slots[10].mode(),
            is_convert: slots[11].flag(),
            map: slots[12].beatmap(),
        }
    }

    /// The calls that bring the settings to the builder of the attributes,
    /// in order: the beatmap to start from, then one call for each setting
    /// that has a value, then the mods. A mode goes with the convert flag,
    /// an override with its own flag.
    pub open spec fn steps(self) -> Seq<BuilderStep> {
        one_if(
            match self.map {
                Some(map) => Some(BuilderStep::Beatmap(map)),
                None => None,
            },
        ) + one_if(
            match self.mode {
                Some(mode) => Some(BuilderStep::Mode(mode, self.is_convert)),
                None => None,
            },
        ) + one_if(
            match self.clock_rate {
                Some(rate) => Some(BuilderStep::ClockRate(rate)),
                None => None,
            },
        ) + one_if(
            match self.ar {
                Some(ar) => Some(BuilderStep::Ar(ar, self.ar_with_mods)),
                None => None,
            },
        ) + one_if(
            match self.cs {
                Some(cs) => Some(BuilderStep::Cs(cs, self.cs_with_mods)),
                None => None,
            },
        ) + one_if(
            match self.hp {
                Some(hp) => Some(BuilderStep::Hp(hp, self.hp_with_mods)),
                None => None,
            },
        ) + one_if(
            match self.od {
                Some(od) => Some(BuilderStep::Od(od, self.od_with_mods)),
                None => None,
            },
        ) + seq![BuilderStep::Mods]
    }

    /// The slots that stand for the settings, one for each field of the
    /// schema.
    pub open spec fn slots(self) -> Seq<SlotView> {
        seq![
            SlotView::Mods(self.mods),
            float_slot(self.clock_rate),
            float_slot(self.ar),
            SlotView::Bool(self.ar_with_mods),
            float_slot(self.cs),
            SlotView::Bool(self.cs_with_mods),
            float_slot(self.hp),
            SlotView::Bool(self.hp_with_mods),
            float_slot(self.od),
            SlotView::Bool(self.od_with_mods),
            mode_slot(self.mode),
            SlotView::Bool(self.is_convert),
            beatmap_slot(self.map),
        ]
    }

    /// The object that stands for the settings: one entry for each field that
    /// has a value, under the field's key, in the order of the schema.
    pub open spec fn encode(self) -> HostValue {
        encode_slots(OBJECT_CLASS@, Self::fields(), self.slots())
    }

    /// What a host value decodes to: it must be a plain object, and its
    /// fields are decoded in the order of the schema.
    pub open spec fn decode(v: HostValue) -> Result<BeatmapAttributesArgsView, DecodeErrorView> {
        match decode_object(v, OBJECT_CLASS@, Self::fields()) {
            Ok(slots) => Ok(Self::from_slots(slots)),
            Err(e) => Err(e),
        }
    }
}

/// No two fields of the schema have the same name.
pub proof fn lemma_attributes_names_distinct()
    ensures
        names_distinct(BeatmapAttributesArgsView::fields()),
{
    lemma_common_names();
    reveal_strlit("mode");
    reveal_strlit("isConvert");
    reveal_strlit("map");
    assert("mode"@.len() == 4 && "mode"@[0] == 'm' && "mode"@[1] == 'o' && "mode"@[3] == 'e');
    assert("isConvert"@.len() == 9 && "isConvert"@[0] == 'i' && "isConvert"@[1] == 's' &&
        "isConvert"@[3] == 'o');
    assert("map"@.len() == 3 && "map"@[0] == 'm' && "map"@[1] == 'a');
    let fields = BeatmapAttributesArgsView::fields();
    assert(fields.len() == 13);
    assert forall|i: int, j: int|
        0 <= i < fields.len() && 0 <= j < fields.len() && i != j implies (#[trigger] fields[i]).name
        != (#[trigger] fields[j]).name by {
        assert(i == 0 || i == 1 || i == 2 || i == 3 || i == 4 || i == 5 || i == 6 || i == 7 ||
            i == 8 || i == 9 || i == 10 || i == 11 || i == 12);
        assert(j == 0 || j == 1 || j == 2 || j == 3 || j == 4 || j == 5 || j == 6 || j == 7 ||
            j == 8 || j == 9 || j == 10 || j == 11 || j == 12);
    }
}

impl Default for BeatmapAttributesArgs {
    fn default() -> (r: BeatmapAttributesArgs)
        ensures
            r@ == BeatmapAttributesArgsView::from_slots(Seq::new(13, |i: int| SlotView::Missing)),
    {
        BeatmapAttributesArgs {
            mods: JsGameMods::default(),
            clock_rate: None,
            ar: None,
            ar_with_mods: false,
            cs: None,
            cs_with_mods: false,
            hp: None,
            hp_with_mods: false,
            od: None,
            od_with_mods: false,
            mode: None,
            is_convert: false,
            map: None,
        }
    }
}

impl Clone for BeatmapAttributesArgs {
    fn clone(&self) -> (r: BeatmapAttributesArgs)
        ensures
            r@ == self@,
    {
        BeatmapAttributesArgs {
            mods: self.mods.clone(),
            clock_rate: self.clock_rate,
            ar: self.ar,
            ar_with_mods: self.ar_with_mods,
            cs: self.cs,
            cs_with_mods: self.cs_with_mods,
            hp: self.hp,
            hp_with_mods: self.hp_with_mods,
            od: self.od,
            od_with_mods: self.od_with_mods,
            mode: self.mode,
            is_convert: self.is_convert,
            map: self.map,
        }
    }
}

impl BeatmapAttributesArgs {
    /// The calls that bring the settings to the builder of the attributes,
    /// in the order in which they are to be made.
    pub fn as_builder(&self) -> (r: Vec<BuilderStep>)
        ensures
            r@ == self@.steps(),
    {
        let mut steps: Vec<BuilderStep> = Vec::new();
        push_if(
            &mut steps,
            match self.map {
                Some(v) => Some(BuilderStep::Beatmap(v)),
                None => None,
            },
        );
        assert(steps@ =~= one_if(
            match self.map {
                Some(v) => Some(BuilderStep::Beatmap(v)),
                None => None,
            },
        ));
        push_if(
            &mut steps,
            match self.mode {
                Some(v) => Some(BuilderStep::Mode(v, self.is_convert)),
                None => None,
            },
        );
        push_if(
            &mut steps,
            match self.clock_rate {
                Some(v) => Some(BuilderStep::ClockRate(v)),
                None => None,
            },
        );
        push_if(
            &mut steps,
            match self.ar {
                Some(v) => Some(BuilderStep::Ar(v, self.ar_with_mods)),
                None => None,
            },
        );
        push_if(
            &mut steps,
            match self.cs {
                Some(v) => Some(BuilderStep::Cs(v, self.cs_with_mods)),
                None => None,
            },
        );
        push_if(
            &mut steps,
            match self.hp {
                Some(v) => Some(BuilderStep::Hp(v, self.hp_with_mods)),
                None => None,
            },
        );
        push_if(
            &mut steps,
            match self.od {
                Some(v) => Some(BuilderStep::Od(v, self.od_with_mods)),
                None => None,
            },
        );
        let ghost before = steps@;
        steps.push(BuilderStep::Mods);
        assert(steps@ =~= before + seq![BuilderStep::Mods]);
        steps
    }

    /// The schema.
    pub fn schema() -> (r: Vec<Field>)
        ensures
            fields_view(r@) == BeatmapAttributesArgsView::fields(),
    {
        let mut r = common_schema();
        r.push(Field { name: "mode", kind: FieldKind::Mode, required: false });
        r.push(Field { name: "isConvert", kind: FieldKind::Bool, required: false });
        r.push(Field { name: "map", kind: FieldKind::Beatmap, required: false });
        assert(fields_view(r@) =~= BeatmapAttributesArgsView::fields());
        r
    }

    /// Decodes the settings from a plain object.
    pub fn deserialize(d: &JsDeserializer) -> (r: Result<BeatmapAttributesArgs, DecodeError>)
        ensures
            result_view(r) == BeatmapAttributesArgsView::decode(d@),
    {
        let schema = Self::schema();
        let slots = decode_object_of(d, OBJECT_CLASS, &schema)?;
        proof {
            lemma_decoded_slots_len(d@, OBJECT_CLASS@, fields_view(schema@));
        }
        Ok(
            BeatmapAttributesArgs {
                mods: slots[0].mods(),
                clock_rate: slots[1].float(),
                ar: slots[2].float(),
                ar_with_mods: slots[3].flag(),
                cs: slots[4].float(),
                cs_with_mods: slots[5].flag(),
                hp: slots[6].float(),
                hp_with_mods: slots[7].flag(),
                od: slots[8].float(),
                od_with_mods: slots[9].flag(),
                mode: slots[10].mode(),
                is_convert: slots[11].flag(),
                map: slots[12].beatmap(),
            },
        )
    }

    /// The slots that stand for the settings, one for each field of the
    /// schema. A field without a value leaves its slot missing.
    pub fn to_slots(&self) -> (slots: Vec<Slot>)
        ensures
            slots_view(slots@) == self@.slots(),
            slots_conform(slots_view(slots@), BeatmapAttributesArgsView::fields()),
            BeatmapAttributesArgsView::from_slots(slots_view(slots@)) == self@,
    {
        let slots = vec![
            Slot::Mods(self.mods.clone()),
            Slot::from_float(self.clock_rate),
            Slot::from_float(self.ar),
            Slot::Bool(self.ar_with_mods),
            Slot::from_float(self.cs),
            Slot::Bool(self.cs_with_mods),
            Slot::from_float(self.hp),
            Slot::Bool(self.hp_with_mods),
            Slot::from_float(self.od),
            Slot::Bool(self.od_with_mods),
            Slot::from_mode(self.mode),
            Slot::Bool(self.is_convert),
            Slot::from_beatmap(self.map),
        ];
        proof {
            let views = slots_view(slots@);
            let fields = BeatmapAttributesArgsView::fields();
            assert(views.len() == 13 && fields.len() == 13);
            let wanted = self@.slots();
            assert(views[0] == wanted[0]);
            assert(views[1] == wanted[1]);
            assert(views[2] == wanted[2]);
            assert(views[3] == wanted[3]);
            assert(views[4] == wanted[4]);
            assert(views[5] == wanted[5]);
            assert(views[6] == wanted[6]);
            assert(views[7] == wanted[7]);
            assert(views[8] == wanted[8]);
            assert(views[9] == wanted[9]);
            assert(views[10] == wanted[10]);
            assert(views[11] == wanted[11]);
            assert(views[12] == wanted[12]);
            assert(views =~= wanted);
            assert(views[0].mods() == self@.mods);
            assert(views[1].float() == self@.clock_rate);
            assert(views[2].float() == self@.ar);
            assert(views[3].flag() == self@.ar_with_mods);
            assert(views[4].float() == self@.cs);
            assert(views[5].flag() == self@.cs_with_mods);
            assert(views[6].float() == self@.hp);
            assert(views[7].flag() == self@.hp_with_mods);
            assert(views[8].float() == self@.od);
            assert(views[9].flag() == self@.od_with_mods);
            assert(views[10].mode() == self@.mode);
            assert(views[11].flag() == self@.is_convert);
            assert(views[12].beatmap() == self@.map);
            assert forall|i: int| 0 <= i < views.len() implies (#[trigger] views[i]).conforms(
                fields[i],
            ) by {
                assert(i == 0 || i == 1 || i == 2 || i == 3 || i == 4 || i == 5 || i == 6 ||
                    i == 7 || i == 8 || i == 9 || i == 10 || i == 11 || i == 12);
            }
        }
        slots
    }

    /// The plain object that stands for the settings. A field without a
    /// value has no entry; every other field has one.
    ///
    /// Decoding the object gives the settings back.
    pub fn to_value(&self) -> (r: Value)
        ensures
            r@ == self@.encode(),
            BeatmapAttributesArgsView::decode(r@) == Ok::<_, DecodeErrorView>(self@),
    {
        let schema = Self::schema();
        let slots = self.to_slots();
        proof {
            lemma_attributes_names_distinct();
        }
        encode_object(OBJECT_CLASS, &schema, &slots)
    }
}

} // verus!
