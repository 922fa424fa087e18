//! Schemas: the fixed, ordered field lists of the configuration structures,
//! and the one procedure that decodes and encodes all of them.
//!
//! A schema is data. Each [`Field`] of it gives a key, what kind of value the
//! key holds, and whether the key must be there. Decoding an object against a
//! schema goes through the fields in their order and yields one [`Slot`] for
//! each, or the error of the first field that fails:
//!
//! 1. The key is looked up. Presence is containment of the key, whatever the
//!    value under it.
//! 2. A key that is absent leaves an optional field [`Slot::Missing`] and
//!    fails a required field as missing.
//! 3. A key that is present hands its value to the decoder of the field's
//!    kind, with one exception: under an optional field, null and undefined
//!    are "no value" and leave the field [`Slot::Missing`]. Under a required
//!    field they are values of the wrong type.
//!
//! Keys that the schema does not name are never looked at.

use crate::args::performance::{decode_priority, JsHitResultPriority};
use crate::beatmap::{BeatmapRef, decode_beatmap, JsBeatmap};
use crate::deserializer::{
    decode_bool, decode_float, decode_struct, decode_unsigned, JsDeserializer,
};
use crate::error::{DecodeError, DecodeErrorView, Description};
use crate::mode::{decode_mode, JsGameMode};
use crate::mods::{decode_mods, JsGameMods, JsGameModsView, no_mods};
use crate::number::{Number, number_of};
use crate::value::{entries_view, Entry, HostEntry, HostValue, lookup, lookup_entry, Value};
use vstd::arithmetic::power2::lemma2_to64;
use vstd::prelude::*;
use vstd::string::StringExecFns;

verus! {

/// What kind of value a field holds.
#[derive(Copy, Clone, Debug, PartialEq, Eq, Hash, Structural)]
pub enum FieldKind {
    Bool,
    /// An unsigned integer of thirty-two bits.
    Unsigned,
    /// Any number.
    Float,
    /// A mods value, in any of its shapes.
    Mods,
    /// A game mode, written as an integer.
    Mode,
    /// A hitresult priority, written as an integer.
    Priority,
    /// A reference to a beatmap: an instance of that type, taken by its handle.
    Beatmap,
}

/// One field of a schema.
#[derive(Copy, Clone, Debug, PartialEq, Eq)]
pub struct Field {
    pub name: &'static str,
    pub kind: FieldKind,
    pub required: bool,
}

/// The view of a [`Field`].
pub ghost struct FieldView {
    pub name: Seq<char>,
    pub kind: FieldKind,
    pub required: bool,
}

impl View for Field {
    type V = FieldView;

    open spec fn view(&self) -> FieldView {
        FieldView { name: self.name@, kind: self.kind, required: self.required }
    }
}

/// The views of the fields of a schema, in order.
pub open spec fn fields_view(fields: Seq<Field>) -> Seq<FieldView> {
    Seq::new(fields.len(), |i: int| fields[i]@)
}

/// What decoding leaves for one field.
#[derive(Debug, PartialEq, Eq)]
pub enum Slot {
    /// No value: the key is absent, or the field is optional and the value
    /// under the key is null or undefined.
    Missing,
    Bool(bool),
    Unsigned(u32),
    Float(Number),
    Mods(JsGameMods),
    Mode(JsGameMode),
    Priority(JsHitResultPriority),
    Beatmap(BeatmapRef),
}

/// The view of a [`Slot`].
pub ghost enum SlotView {
    Missing,
    Bool(bool),
    Unsigned(u32),
    Float(Number),
    Mods(JsGameModsView),
    Mode(JsGameMode),
    Priority(JsHitResultPriority),
    Beatmap(BeatmapRef),
}

impl View for Slot {
    type V = SlotView;

    open spec fn view(&self) -> SlotView {
        match self {
            Slot::Missing => SlotView::Missing,
            Slot::Bool(b) => SlotView::Bool(*b),
            Slot::Unsigned(n) => SlotView::Unsigned(*n),
            Slot::Float(n) => SlotView::Float(*n),
            Slot::Mods(mods) => SlotView::Mods(mods@),
            Slot::Mode(mode) => SlotView::Mode(*mode),
            Slot::Priority(priority) => SlotView::Priority(*priority),
            Slot::Beatmap(map) => SlotView::Beatmap(*map),
        }
    }
}

/// The views of a sequence of slots, in order.
pub open spec fn slots_view(slots: Seq<Slot>) -> Seq<SlotView> {
    Seq::new(slots.len(), |i: int| slots[i]@)
}

impl SlotView {
    /// The flag of the slot: what a boolean slot holds, and `false` otherwise.
    pub open spec fn flag(self) -> bool {
        match self {
            SlotView::Bool(b) => b,
            _ => false,
        }
    }

    /// What a boolean slot holds.
    pub open spec fn boolean(self) -> Option<bool> {
        match self {
            SlotView::Bool(b) => Some(b),
            _ => None,
        }
    }

    /// What an unsigned slot holds.
    pub open spec fn unsigned(self) -> Option<u32> {
        match self {
            SlotView::Unsigned(n) => Some(n),
            _ => None,
        }
    }

    /// The count of the slot: what an unsigned slot holds, and zero otherwise.
    pub open spec fn count(self) -> u32 {
        match self {
            SlotView::Unsigned(n) => n,
            _ => 0,
        }
    }

    /// What a number slot holds.
    pub open spec fn float(self) -> Option<Number> {
        match self {
            SlotView::Float(n) => Some(n),
            _ => None,
        }
    }

    /// The number of the slot: what a number slot holds, and zero otherwise.
    pub open spec fn number(self) -> Number {
        match self {
            SlotView::Float(n) => n,
            _ => Number { bits: 0 },
        }
    }

    /// The mode of the slot: what a mode slot holds, and osu! otherwise.
    pub open spec fn mode_or_default(self) -> JsGameMode {
        match self {
            SlotView::Mode(mode) => mode,
            _ => JsGameMode::Osu,
        }
    }

    /// The mods of the slot: what a mods slot holds, and no mods otherwise.
    pub open spec fn mods(self) -> JsGameModsView {
        match self {
            SlotView::Mods(mods) => mods,
            _ => no_mods(),
        }
    }

    /// What a mode slot holds.
    pub open spec fn mode(self) -> Option<JsGameMode> {
        match self {
            SlotView::Mode(mode) => Some(mode),
            _ => None,
        }
    }

    /// The priority of the slot: what a priority slot holds, and the best
    /// case otherwise.
    pub open spec fn priority(self) -> JsHitResultPriority {
        match self {
            SlotView::Priority(priority) => priority,
            _ => JsHitResultPriority::BestCase,
        }
    }

    /// What a beatmap slot holds.
    pub open spec fn beatmap(self) -> Option<BeatmapRef> {
        match self {
            SlotView::Beatmap(map) => Some(map),
            _ => None,
        }
    }

    /// Whether the slot is one that a field of this description can decode to.
    pub open spec fn conforms(self, field: FieldView) -> bool {
        match self {
            SlotView::Missing => !field.required,
            SlotView::Bool(_) => field.kind is Bool,
            SlotView::Unsigned(_) => field.kind is Unsigned,
            SlotView::Float(_) => field.kind is Float,
            SlotView::Mods(_) => field.kind is Mods,
            SlotView::Mode(_) => field.kind is Mode,
            SlotView::Priority(_) => field.kind is Priority,
            SlotView::Beatmap(_) => field.kind is Beatmap,
        }
    }
}

/// The slot for a flag that may be there.
pub open spec fn boolean_slot(value: Option<bool>) -> SlotView {
    match value {
        Some(b) => SlotView::Bool(b),
        None => SlotView::Missing,
    }
}

/// The slot for a count that may be there.
pub open spec fn unsigned_slot(value: Option<u32>) -> SlotView {
    match value {
        Some(n) => SlotView::Unsigned(n),
        None => SlotView::Missing,
    }
}

/// The slot for a number that may be there.
pub open spec fn float_slot(value: Option<Number>) -> SlotView {
    match value {
        Some(n) => SlotView::Float(n),
        None => SlotView::Missing,
    }
}

/// The slot for a mode that may be there.
pub open spec fn mode_slot(value: Option<JsGameMode>) -> SlotView {
    match value {
        Some(mode) => SlotView::Mode(mode),
        None => SlotView::Missing,
    }
}

/// The slot for a reference to a beatmap that may be there.
pub open spec fn beatmap_slot(value: Option<BeatmapRef>) -> SlotView {
    match value {
        Some(map) => SlotView::Beatmap(map),
        None => SlotView::Missing,
    }
}

impl SlotView {
    /// The host value that stands for what the slot holds; undefined for a
    /// slot that holds nothing.
    pub open spec fn encode(self) -> HostValue {
        match self {
            SlotView::Missing => HostValue::Undefined,
            SlotView::Bool(b) => HostValue::Bool(b),
            SlotView::Unsigned(n) => HostValue::Number(number_of(n as nat)),
            SlotView::Float(n) => HostValue::Number(n),
            SlotView::Mods(mods) => mods.encode(),
            SlotView::Mode(mode) => mode.encode(),
            SlotView::Priority(priority) => priority.encode(),
            SlotView::Beatmap(map) => map.encode(),
        }
    }
}

/// The entries that stand for slots: one entry for each slot that holds
/// something, under the field's key and with the slot's value, in the order
/// of the schema.
pub open spec fn encode_entries(schema: Seq<FieldView>, slots: Seq<SlotView>) -> Seq<HostEntry>
    decreases schema.len(),
{
    if schema.len() == 0 || slots.len() != schema.len() {
        Seq::empty()
    } else if slots.last() is Missing {
        encode_entries(schema.drop_last(), slots.drop_last())
    } else {
        encode_entries(schema.drop_last(), slots.drop_last()).push(
            HostEntry { key: schema.last().name, value: slots.last().encode() },
        )
    }
}

/// The object of the named type that stands for slots.
pub open spec fn encode_slots(class_name: Seq<char>, schema: Seq<FieldView>, slots: Seq<SlotView>)
    -> HostValue {
    HostValue::Object { class_name, entries: encode_entries(schema, slots) }
}

/// The entry that stands for the slot at `i`: under the field's key, with
/// the slot's value.
pub open spec fn entry_of(schema: Seq<FieldView>, slots: Seq<SlotView>, i: int) -> HostEntry {
    HostEntry { key: schema[i].name, value: slots[i].encode() }
}

/// The slot at `i` holds something, and `entry` stands for it.
pub open spec fn stands_for(
    schema: Seq<FieldView>,
    slots: Seq<SlotView>,
    i: int,
    entry: HostEntry,
) -> bool {
    0 <= i < schema.len() && !(slots[i] is Missing) && entry == entry_of(schema, slots, i)
}

/// Where every slot holds something, the entries stand one for one for the
/// fields of the schema, in its order.
pub proof fn lemma_encode_all_filled(schema: Seq<FieldView>, slots: Seq<SlotView>)
    requires
        slots.len() == schema.len(),
        forall|i: int| 0 <= i < slots.len() ==> !(#[trigger] slots[i] is Missing),
    ensures
        encode_entries(schema, slots).len() == schema.len(),
        forall|i: int|
            0 <= i < schema.len() ==> #[trigger] encode_entries(schema, slots)[i] == entry_of(
                schema,
                slots,
                i,
            ),
    decreases schema.len(),
{
    if schema.len() > 0 {
        lemma_encode_all_filled(schema.drop_last(), slots.drop_last());
    }
}

/// Every entry of an encoding stands for a slot that holds something: an
/// encoding has no entry for a slot that holds nothing, and none under a key
/// that is not the schema's.
pub proof fn lemma_entry_of_filled_slot(schema: Seq<FieldView>, slots: Seq<SlotView>, k: int)
    requires
        0 <= k < encode_entries(schema, slots).len(),
    ensures
        slots.len() == schema.len(),
        exists|i: int| #[trigger] stands_for(schema, slots, i, encode_entries(schema, slots)[k]),
    decreases schema.len(),
{
    let last = schema.len() - 1;
    let rest = encode_entries(schema.drop_last(), slots.drop_last());
    if !(slots.last() is Missing) && k == rest.len() {
        assert(stands_for(schema, slots, last, encode_entries(schema, slots)[k]));
    } else {
        lemma_entry_of_filled_slot(schema.drop_last(), slots.drop_last(), k);
        let i = choose|i: int| #[trigger] stands_for(schema.drop_last(), slots.drop_last(), i, rest[k]);
        assert(stands_for(schema, slots, i, encode_entries(schema, slots)[k]));
    }
}

/// Every slot that holds something has its entry in the encoding.
pub proof fn lemma_filled_slot_has_entry(schema: Seq<FieldView>, slots: Seq<SlotView>, i: int)
    requires
        slots.len() == schema.len(),
        0 <= i < schema.len(),
        !(slots[i] is Missing),
    ensures
        encode_entries(schema, slots).contains(entry_of(schema, slots, i)),
    decreases schema.len(),
{
    let entries = encode_entries(schema, slots);
    let rest = encode_entries(schema.drop_last(), slots.drop_last());
    if i == schema.len() - 1 {
        assert(entries[rest.len() as int] == entry_of(schema, slots, i));
    } else {
        lemma_filled_slot_has_entry(schema.drop_last(), slots.drop_last(), i);
        let k = choose|k: int|
            0 <= k < rest.len() && rest[k] == entry_of(schema.drop_last(), slots.drop_last(), i);
        assert(entries[k] == entry_of(schema, slots, i));
    }
}

/// What a value decodes to as a value of the given kind. `name` is the name
/// under which an integer out of range is reported.
pub open spec fn decode_value(kind: FieldKind, v: HostValue, name: Seq<char>) -> Result<
    SlotView,
    DecodeErrorView,
> {
    match kind {
        FieldKind::Bool => match decode_bool(v) {
            Ok(b) => Ok(SlotView::Bool(b)),
            Err(e) => Err(e),
        },
        FieldKind::Unsigned => match decode_unsigned(v, 32, name) {
            Ok(n) => Ok(SlotView::Unsigned(n as u32)),
            Err(e) => Err(e),
        },
        FieldKind::Float => match decode_float(v) {
            Ok(n) => Ok(SlotView::Float(n)),
            Err(e) => Err(e),
        },
        FieldKind::Mods => match decode_mods(v) {
            Ok(mods) => Ok(SlotView::Mods(mods)),
            Err(e) => Err(e),
        },
        FieldKind::Mode => match decode_mode(v) {
            Ok(mode) => Ok(SlotView::Mode(mode)),
            Err(e) => Err(e),
        },
        FieldKind::Priority => match decode_priority(v) {
            Ok(priority) => Ok(SlotView::Priority(priority)),
            Err(e) => Err(e),
        },
        FieldKind::Beatmap => match decode_beatmap(v) {
            Ok(map) => Ok(SlotView::Beatmap(map)),
            Err(e) => Err(e),
        },
    }
}

/// What one field decodes to among the entries of an object: presence first,
/// then the value.
pub open spec fn decode_field(entries: Seq<HostEntry>, field: FieldView) -> Result<
    SlotView,
    DecodeErrorView,
> {
    match lookup(entries, field.name) {
        None => if field.required {
            Err(DecodeErrorView::MissingRequiredField { name: field.name })
        } else {
            Ok(SlotView::Missing)
        },
        Some(v) => if !field.required && v.is_nullish() {
            Ok(SlotView::Missing)
        } else {
            decode_value(field.kind, v, field.name)
        },
    }
}

/// What the fields of a schema decode to, in the order of the schema: one
/// slot for each field, or the error of the first field that fails.
pub open spec fn decode_fields(entries: Seq<HostEntry>, schema: Seq<FieldView>) -> Result<
    Seq<SlotView>,
    DecodeErrorView,
>
    decreases schema.len(),
{
    if schema.len() == 0 {
        Ok(Seq::empty())
    } else {
        match decode_fields(entries, schema.drop_last()) {
            Err(e) => Err(e),
            Ok(slots) => match decode_field(entries, schema.last()) {
                Err(e) => Err(e),
                Ok(slot) => Ok(slots.push(slot)),
            },
        }
    }
}

/// What a value decodes to against a schema: it must be an object of the
/// named type, and then its fields decide.
pub open spec fn decode_object(v: HostValue, class_name: Seq<char>, schema: Seq<FieldView>) -> Result<
    Seq<SlotView>,
    DecodeErrorView,
> {
    match decode_struct(v, class_name) {
        Err(e) => Err(e),
        Ok(entries) => decode_fields(entries, schema),
    }
}

/// Decoding leaves one slot for each field of the schema.
pub proof fn lemma_decoded_fields_len(entries: Seq<HostEntry>, schema: Seq<FieldView>)
    ensures
        decode_fields(entries, schema) matches Ok(slots) ==> slots.len() == schema.len(),
    decreases schema.len(),
{
    if schema.len() > 0 {
        lemma_decoded_fields_len(entries, schema.drop_last());
    }
}

/// Decoding leaves one slot for each field of the schema.
pub proof fn lemma_decoded_slots_len(v: HostValue, class_name: Seq<char>, schema: Seq<FieldView>)
    ensures
        decode_object(v, class_name, schema) matches Ok(slots) ==> slots.len() == schema.len(),
{
    if let Ok(entries) = decode_struct(v, class_name) {
        lemma_decoded_fields_len(entries, schema);
    }
}

/// No two fields of the schema have the same name.
pub open spec fn names_distinct(schema: Seq<FieldView>) -> bool {
    forall|i: int, j: int|
        0 <= i < schema.len() && 0 <= j < schema.len() && i != j ==> (#[trigger] schema[i]).name != (
        #[trigger] schema[j]).name
}

/// The slots are what the schema can decode to: one for each field, of the
/// field's kind, and missing only where the field is optional.
pub open spec fn slots_conform(slots: Seq<SlotView>, schema: Seq<FieldView>) -> bool {
    &&& slots.len() == schema.len()
    &&& forall|i: int| 0 <= i < slots.len() ==> (#[trigger] slots[i]).conforms(schema[i])
}

/// The name is none of the schema's.
pub open spec fn is_unknown_key(name: Seq<char>, schema: Seq<FieldView>) -> bool {
    forall|i: int| 0 <= i < schema.len() ==> (#[trigger] schema[i]).name != name
}

/// A prefix of the schema that fails makes the whole schema fail with the
/// same error.
pub proof fn lemma_fields_prefix_error(entries: Seq<HostEntry>, schema: Seq<FieldView>, n: int)
    requires
        0 <= n <= schema.len(),
        decode_fields(entries, schema.subrange(0, n)) is Err,
    ensures
        decode_fields(entries, schema) == decode_fields(entries, schema.subrange(0, n)),
    decreases schema.len() - n,
{
    if n == schema.len() {
        assert(schema.subrange(0, n) =~= schema);
    } else {
        let next = schema.subrange(0, n + 1);
        assert(next.drop_last() =~= schema.subrange(0, n));
        lemma_fields_prefix_error(entries, schema, n + 1);
    }
}

/// Where every field decodes to its slot, the schema decodes to the slots.
pub proof fn lemma_fields_all_ok(
    entries: Seq<HostEntry>,
    schema: Seq<FieldView>,
    slots: Seq<SlotView>,
)
    requires
        slots.len() == schema.len(),
        forall|i: int|
            0 <= i < schema.len() ==> decode_field(entries, #[trigger] schema[i]) == Ok::<
                _,
                DecodeErrorView,
            >(slots[i]),
    ensures
        decode_fields(entries, schema) == Ok::<_, DecodeErrorView>(slots),
    decreases schema.len(),
{
    if schema.len() == 0 {
        assert(slots =~= Seq::empty());
    } else {
        lemma_fields_all_ok(entries, schema.drop_last(), slots.drop_last());
        assert(decode_field(entries, schema[schema.len() - 1]) == Ok::<_, DecodeErrorView>(
            slots[schema.len() - 1],
        ));
        assert(slots.drop_last().push(slots.last()) =~= slots);
    }
}

/// Decoding reads the entries through the schema's keys alone: two lists of
/// entries that agree under every key of the schema decode alike.
pub proof fn lemma_fields_read_by_name(
    first: Seq<HostEntry>,
    second: Seq<HostEntry>,
    schema: Seq<FieldView>,
)
    requires
        forall|i: int|
            0 <= i < schema.len() ==> lookup(first, (#[trigger] schema[i]).name) == lookup(
                second,
                schema[i].name,
            ),
    ensures
        decode_fields(first, schema) == decode_fields(second, schema),
    decreases schema.len(),
{
    if schema.len() > 0 {
        lemma_fields_read_by_name(first, second, schema.drop_last());
        let last = schema[schema.len() - 1];
        assert(lookup(first, last.name) == lookup(second, last.name));
    }
}

/// An entry under another key does not change what a key holds, wherever the
/// entry is put.
pub proof fn lemma_lookup_skips_other_key(
    entries: Seq<HostEntry>,
    position: int,
    extra: HostEntry,
    name: Seq<char>,
)
    requires
        0 <= position <= entries.len(),
        extra.key != name,
    ensures
        lookup(entries.insert(position, extra), name) == lookup(entries, name),
    decreases entries.len(),
{
    let widened = entries.insert(position, extra);
    if position == entries.len() {
        assert(widened.last() == extra);
        assert(widened.drop_last() =~= entries);
    } else {
        assert(widened.last() == entries.last());
        assert(widened.drop_last() =~= entries.drop_last().insert(position, extra));
        lemma_lookup_skips_other_key(entries.drop_last(), position, extra, name);
    }
}

/// Unknown keys are tolerated: an object decodes to the same slots, or fails
/// with the same error, with and without an entry whose key the schema does
/// not name, wherever among the entries it stands and whatever it holds.
pub proof fn lemma_unknown_key_ignored(
    class_name: Seq<char>,
    entries: Seq<HostEntry>,
    position: int,
    extra: HostEntry,
    struct_name: Seq<char>,
    schema: Seq<FieldView>,
)
    requires
        0 <= position <= entries.len(),
        is_unknown_key(extra.key, schema),
    ensures
        decode_object(
            HostValue::Object { class_name, entries: entries.insert(position, extra) },
            struct_name,
            schema,
        ) == decode_object(HostValue::Object { class_name, entries }, struct_name, schema),
{
    assert forall|i: int| 0 <= i < schema.len() implies lookup(
        entries.insert(position, extra),
        (#[trigger] schema[i]).name,
    ) == lookup(entries, schema[i].name) by {
        lemma_lookup_skips_other_key(entries, position, extra, schema[i].name);
    }
    lemma_fields_read_by_name(entries.insert(position, extra), entries, schema);
}

/// Presence and value are told apart. Under an optional field an absent key
/// and a key that holds null or undefined both give "no value". Under a
/// required field an absent key fails as a missing field, and a key that
/// holds null or undefined fails as a value of the wrong type.
pub proof fn lemma_presence_and_nullish(entries: Seq<HostEntry>, field: FieldView)
    ensures
        lookup(entries, field.name) is None ==> decode_field(entries, field) == (if field.required {
            Err::<SlotView, _>(DecodeErrorView::MissingRequiredField { name: field.name })
        } else {
            Ok::<_, DecodeErrorView>(SlotView::Missing)
        }),
        lookup(entries, field.name) is Some && lookup(entries, field.name)->Some_0.is_nullish() ==> (
        if field.required {
            decode_field(entries, field) == Err::<SlotView, _>(
                DecodeErrorView::InvalidType {
                    expected: decode_field(entries, field)->Err_0->expected,
                    found: Description::Unit,
                },
            )
        } else {
            decode_field(entries, field) == Ok::<_, DecodeErrorView>(SlotView::Missing)
        }),
{
    if field.required {
        if let Some(v) = lookup(entries, field.name) {
            if v.is_nullish() {
                assert(v.safe_integer() is None);
            }
        }
    }
}

impl Slot {
    /// The flag of the slot: what a boolean slot holds, and `false` otherwise.
    pub fn flag(&self) -> (r: bool)
        ensures
            r == self@.flag(),
    {
        match self {
            Slot::Bool(b) => *b,
            _ => false,
        }
    }

    /// What a boolean slot holds.
    pub fn boolean(&self) -> (r: Option<bool>)
        ensures
            r == self@.boolean(),
    {
        match self {
            Slot::Bool(b) => Some(*b),
            _ => None,
        }
    }

    /// What an unsigned slot holds.
    pub fn unsigned(&self) -> (r: Option<u32>)
        ensures
            r == self@.unsigned(),
    {
        match self {
            Slot::Unsigned(n) => Some(*n),
            _ => None,
        }
    }

    /// The count of the slot: what an unsigned slot holds, and zero otherwise.
    pub fn count(&self) -> (r: u32)
        ensures
            r == self@.count(),
    {
        match self {
            Slot::Unsigned(n) => *n,
            _ => 0,
        }
    }

    /// What a number slot holds.
    pub fn float(&self) -> (r: Option<Number>)
        ensures
            r == self@.float(),
    {
        match self {
            Slot::Float(n) => Some(*n),
            _ => None,
        }
    }

    /// The number of the slot: what a number slot holds, and zero otherwise.
    pub fn number(&self) -> (r: Number)
        ensures
            r == self@.number(),
    {
        match self {
            Slot::Float(n) => *n,
            _ => Number { bits: 0 },
        }
    }

    /// The mode of the slot: what a mode slot holds, and osu! otherwise.
    pub fn mode_or_default(&self) -> (r: JsGameMode)
        ensures
            r == self@.mode_or_default(),
    {
        match self {
            Slot::Mode(mode) => *mode,
            _ => JsGameMode::Osu,
        }
    }

    /// The mods of the slot: what a mods slot holds, and no mods otherwise.
    pub fn mods(&self) -> (r: JsGameMods)
        ensures
            r@ == self@.mods(),
    {
        match self {
            Slot::Mods(mods) => mods.clone(),
            _ => JsGameMods::default(),
        }
    }

    /// What a mode slot holds.
    pub fn mode(&self) -> (r: Option<JsGameMode>)
        ensures
            r == self@.mode(),
    {
        match self {
            Slot::Mode(mode) => Some(*mode),
            _ => None,
        }
    }

    /// The priority of the slot: what a priority slot holds, and the best
    /// case otherwise.
    pub fn priority(&self) -> (r: JsHitResultPriority)
        ensures
            r == self@.priority(),
    {
        match self {
            Slot::Priority(priority) => *priority,
            _ => JsHitResultPriority::BestCase,
        }
    }

    /// What a beatmap slot holds.
    pub fn beatmap(&self) -> (r: Option<BeatmapRef>)
        ensures
            r == self@.beatmap(),
    {
        match self {
            Slot::Beatmap(map) => Some(*map),
            _ => None,
        }
    }

    /// The slot for an optional flag.
    pub fn from_boolean(value: Option<bool>) -> (r: Slot)
        ensures
            r@ == match value {
                Some(b) => SlotView::Bool(b),
                None => SlotView::Missing,
            },
    {
        match value {
            Some(b) => Slot::Bool(b),
            None => Slot::Missing,
        }
    }

    /// The slot for an optional count.
    pub fn from_unsigned(value: Option<u32>) -> (r: Slot)
        ensures
            r@ == match value {
                Some(n) => SlotView::Unsigned(n),
                None => SlotView::Missing,
            },
    {
        match value {
            Some(n) => Slot::Unsigned(n),
            None => Slot::Missing,
        }
    }

    /// The slot for an optional number.
    pub fn from_float(value: Option<Number>) -> (r: Slot)
        ensures
            r@ == match value {
                Some(n) => SlotView::Float(n),
                None => SlotView::Missing,
            },
    {
        match value {
            Some(n) => Slot::Float(n),
            None => Slot::Missing,
        }
    }

    /// The slot for an optional mode.
    pub fn from_mode(value: Option<JsGameMode>) -> (r: Slot)
        ensures
            r@ == match value {
                Some(mode) => SlotView::Mode(mode),
                None => SlotView::Missing,
            },
    {
        match value {
            Some(mode) => Slot::Mode(mode),
            None => Slot::Missing,
        }
    }

    /// The slot for an optional reference to a beatmap.
    pub fn from_beatmap(value: Option<BeatmapRef>) -> (r: Slot)
        ensures
            r@ == match value {
                Some(map) => SlotView::Beatmap(map),
                None => SlotView::Missing,
            },
    {
        match value {
            Some(map) => Slot::Beatmap(map),
            None => Slot::Missing,
        }
    }

    /// The host value that stands for a slot that holds something.
    pub fn to_value(&self, field: &Field) -> (r: Value)
        requires
            !(self@ is Missing),
            self@.conforms(field@),
        ensures
            r@ == self@.encode(),
            decode_value(field.kind, r@, field.name@) == Ok::<_, DecodeErrorView>(self@),
            !r@.is_nullish(),
    {
        proof {
            lemma2_to64();
        }
        match self {
            Slot::Missing => Value::Undefined,
            Slot::Bool(b) => Value::Bool(*b),
            Slot::Unsigned(n) => Value::Number(Number::from_u32(*n)),
            Slot::Float(n) => Value::Number(*n),
            Slot::Mods(mods) => {
                let r = mods.to_value();
                assert(!r@.is_nullish());
                r
            },
            Slot::Mode(mode) => mode.to_value(),
            Slot::Priority(priority) => priority.to_value(),
            Slot::Beatmap(map) => map.to_value(),
        }
    }
}

/// Decodes a value as a value of the given kind.
pub fn decode_value_of(kind: FieldKind, d: &JsDeserializer, name: &'static str) -> (r: Result<
    Slot,
    DecodeError,
>)
    ensures
        crate::error::result_view(r) == decode_value(kind, d@, name@),
{
    proof {
        lemma2_to64();
    }
    match kind {
        FieldKind::Bool => Ok(Slot::Bool(d.deserialize_bool()?)),
        FieldKind::Unsigned => Ok(Slot::Unsigned(d.deserialize_u32(name)?)),
        FieldKind::Float => Ok(Slot::Float(d.deserialize_f64()?)),
        FieldKind::Mods => Ok(Slot::Mods(JsGameMods::deserialize(d)?)),
        FieldKind::Mode => Ok(Slot::Mode(JsGameMode::deserialize(d)?)),
        FieldKind::Priority => Ok(Slot::Priority(JsHitResultPriority::deserialize(d)?)),
        FieldKind::Beatmap => Ok(Slot::Beatmap(JsBeatmap::deserialize(d)?)),
    }
}

/// Decodes one field among the entries of an object.
pub fn decode_field_of(entries: &Vec<Entry>, field: &Field) -> (r: Result<Slot, DecodeError>)
    ensures
        crate::error::result_view(r) == decode_field(entries_view(entries@), field@),
{
    match lookup_entry(entries, field.name) {
        None => if field.required {
            Err(DecodeError::MissingRequiredField { name: field.name })
        } else {
            Ok(Slot::Missing)
        },
        Some(v) => if !field.required && v.is_nullish() {
            Ok(Slot::Missing)
        } else {
            decode_value_of(field.kind, &JsDeserializer::from_ref(v), field.name)
        },
    }
}

/// Decodes the fields of a schema among the entries of an object.
pub fn decode_fields_of(entries: &Vec<Entry>, schema: &Vec<Field>) -> (r: Result<
    Vec<Slot>,
    DecodeError,
>)
    ensures
        match r {
            Ok(slots) => decode_fields(entries_view(entries@), fields_view(schema@)) == Ok::<
                _,
                DecodeErrorView,
            >(slots_view(slots@)),
            Err(e) => decode_fields(entries_view(entries@), fields_view(schema@)) == Err::<
                Seq<SlotView>,
                _,
            >(e@),
        },
{
    let ghost all = fields_view(schema@);
    let ghost entry_views = entries_view(entries@);
    let mut out: Vec<Slot> = Vec::new();
    let mut i: usize = 0;
    assert(all.subrange(0, 0) =~= Seq::empty());
    assert(slots_view(out@) =~= Seq::empty());
    while i < schema.len()
        invariant
            i <= schema.len(),
            all == fields_view(schema@),
            entry_views == entries_view(entries@),
            decode_fields(entry_views, all.subrange(0, i as int)) == Ok::<_, DecodeErrorView>(
                slots_view(out@),
            ),
        decreases schema.len() - i,
    {
        proof {
            let upto = all.subrange(0, i + 1);
            assert(upto.drop_last() =~= all.subrange(0, i as int));
            assert(upto.last() == schema[i as int]@);
        }
        let ghost before = slots_view(out@);
        match decode_field_of(entries, &schema[i]) {
            Ok(slot) => {
                out.push(slot);
                assert(slots_view(out@) =~= before.push(slot@));
            },
            Err(e) => {
                proof {
                    lemma_fields_prefix_error(entry_views, all, i + 1);
                }
                return Err(e);
            },
        }
        i = i + 1;
    }
    assert(all.subrange(0, i as int) =~= all);
    Ok(out)
}

/// Decodes an object of the named type against a schema.
pub fn decode_object_of(d: &JsDeserializer, class_name: &'static str, schema: &Vec<Field>) -> (r:
    Result<Vec<Slot>, DecodeError>)
    ensures
        match r {
            Ok(slots) => decode_object(d@, class_name@, fields_view(schema@)) == Ok::<
                _,
                DecodeErrorView,
            >(slots_view(slots@)),
            Err(e) => decode_object(d@, class_name@, fields_view(schema@)) == Err::<
                Seq<SlotView>,
                _,
            >(e@),
        },
{
    let entries = d.deserialize_struct(class_name)?;
    decode_fields_of(entries, schema)
}

/// Encodes slots as an object of the named type: one entry for each slot that
/// holds something, under the field's key, in the order of the schema, and no
/// other entry.
///
/// Decoding the object against the same schema gives the slots back.
pub fn encode_object(class_name: &'static str, schema: &Vec<Field>, slots: &Vec<Slot>) -> (r: Value)
    requires
        names_distinct(fields_view(schema@)),
        slots_conform(slots_view(slots@), fields_view(schema@)),
    ensures
        r@ is Object,
        r@->class_name == class_name@,
        r@ == encode_slots(class_name@, fields_view(schema@), slots_view(slots@)),
        decode_object(r@, class_name@, fields_view(schema@)) == Ok::<_, DecodeErrorView>(
            slots_view(slots@),
        ),
{
    let ghost fields = fields_view(schema@);
    let ghost wanted = slots_view(slots@);
    let mut entries: Vec<Entry> = Vec::new();
    let mut i: usize = 0;
    assert(entries_view(entries@).len() == 0);
    assert(entries_view(entries@) =~= encode_entries(
        fields.subrange(0, 0),
        wanted.subrange(0, 0),
    ));
    while i < schema.len()
        invariant
            i <= schema.len(),
            fields == fields_view(schema@),
            wanted == slots_view(slots@),
            names_distinct(fields),
            slots_conform(wanted, fields),
            entries_view(entries@) == encode_entries(
                fields.subrange(0, i as int),
                wanted.subrange(0, i as int),
            ),
            forall|j: int|
                0 <= j < i ==> decode_field(entries_view(entries@), #[trigger] fields[j]) == Ok::<
                    _,
                    DecodeErrorView,
                >(wanted[j]),
            forall|j: int|
                i <= j < fields.len() ==> lookup(
                    entries_view(entries@),
                    (#[trigger] fields[j]).name,
                ) is None,
        decreases schema.len() - i,
    {
        let field = &schema[i];
        let slot = &slots[i];
        let ghost before = entries_view(entries@);
        assert(fields[i as int] == field@);
        assert(wanted[i as int] == slot@);
        assert(wanted[i as int].conforms(fields[i as int]));
        proof {
            let upto = fields.subrange(0, i + 1);
            let slots_upto = wanted.subrange(0, i + 1);
            assert(upto.drop_last() =~= fields.subrange(0, i as int));
            assert(slots_upto.drop_last() =~= wanted.subrange(0, i as int));
            assert(upto.last() == fields[i as int]);
            assert(slots_upto.last() == wanted[i as int]);
        }
        match slot {
            Slot::Missing => {},
            _ => {
                let value = slot.to_value(field);
                entries.push(Entry { key: String::from_str(field.name), value });
                proof {
                    let after = entries_view(entries@);
                    assert(after.drop_last() =~= before);
                    assert(after.last() == (HostEntry { key: field.name@, value: value@ }));
                    assert forall|j: int| 0 <= j < fields.len() && j != i implies lookup(
                        after,
                        (#[trigger] fields[j]).name,
                    ) == lookup(before, fields[j].name) by {
                        assert(fields[j].name != fields[i as int].name);
                    }
                    assert(lookup(after, field.name@) == Some(value@));
                    assert(after =~= before.push(after.last()));
                }
            },
        }
        i = i + 1;
    }
    proof {
        lemma_fields_all_ok(entries_view(entries@), fields, wanted);
        assert(fields.subrange(0, i as int) =~= fields);
        assert(wanted.subrange(0, i as int) =~= wanted);
    }
    Value::Object { class_name: String::from_str(class_name), entries }
}

} // verus!
