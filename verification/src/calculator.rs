//! The calculator: one object for the settings of all calculations.
//!
//! It takes a game mode, mods, what is known of a score, the count of passed
//! objects and a clock rate, all at once or one by one. Its settings are
//! decoded by the same rules as those of the builders, a mode also by its
//! name, and its results are the flat attributes.

use crate::args::common::{one_if, push_if};
use crate::attributes::difficulty::{DifficultyAttributes, JsDifficultyAttributes};
use crate::attributes::performance::{JsPerformanceAttributes, PerformanceAttributes};
use crate::deserializer::{decode_float, decode_unsigned, invalid_type, JsDeserializer, outcome};
use crate::error::{DecodeError, DecodeErrorView, Description};
use crate::mode::{decode_mode, JsGameMode, MODE_FIELD};
use crate::number::Number;
use crate::strains::{JsStrains, Strains};
use crate::schema::{
    decode_fields, decode_fields_of, Field, FieldKind, fields_view, FieldView,
    lemma_decoded_fields_len, SlotView,
};
use crate::value::{entries_view, HostEntry, HostValue, lookup, lookup_entry, Value};
use vstd::prelude::*;
use vstd::string::StringSliceAdditionalSpecFns;
use vstd::utf8::encode_utf8;

verus! {

/// The key under which the settings hold the game mode.
pub const MODE_KEY: &'static str = "mode";

/// What a name that is no mode's name is told to be.
pub const MODE_NAMES: &'static str = "`osu`, `taiko`, `catch`, or `mania`";

/// The lower-case form of an ASCII letter, and any other byte as it is.
pub open spec fn lower(byte: u8) -> u8 {
    if 65 <= byte <= 90 {
        (byte + 32) as u8
    } else {
        byte
    }
}

/// The bytes with every ASCII upper-case letter made lower-case.
pub open spec fn ascii_lowercase(bytes: Seq<u8>) -> Seq<u8> {
    Seq::new(bytes.len(), |i: int| lower(bytes[i]))
}

/// The bytes with every ASCII upper-case letter made lower-case.
pub fn to_ascii_lowercase(bytes: &[u8]) -> (r: Vec<u8>)
    ensures
        r@ == ascii_lowercase(bytes@),
{
    let mut out: Vec<u8> = Vec::new();
    let mut i: usize = 0;
    while i < bytes.len()
        invariant
            i <= bytes.len(),
            out.len() == i,
            forall|j: int| 0 <= j < i ==> out[j] == lower(bytes[j]),
        decreases bytes.len() - i,
    {
        let byte = bytes[i];
        if 65 <= byte && byte <= 90 {
            out.push(byte + 32);
        } else {
            out.push(byte);
        }
        i = i + 1;
    }
    assert(out@ =~= ascii_lowercase(bytes@));
    out
}

/// Whether two runs of bytes are the same.
pub fn bytes_eq(a: &[u8], b: &[u8]) -> (r: bool)
    ensures
        r == (a@ == b@),
{
    if a.len() != b.len() {
        return false;
    }
    let mut i: usize = 0;
    while i < a.len()
        invariant
            i <= a.len(),
            a.len() == b.len(),
            forall|j: int| 0 <= j < i ==> a@[j] == b@[j],
        decreases a.len() - i,
    {
        if a[i] != b[i] {
            return false;
        }
        i = i + 1;
    }
    assert(a@ =~= b@);
    true
}

/// The mode that a name stands for. Each mode has a few names; they are
/// compared as they are written here, in lower case.
pub open spec fn mode_of_name(name: Seq<u8>) -> Option<JsGameMode> {
    if name == "osu".spec_bytes() || name == "o".spec_bytes() || name == "std".spec_bytes() || name == "standard".spec_bytes() {
        Some(JsGameMode::Osu)
    } else if name == "taiko".spec_bytes() || name == "t".spec_bytes() || name == "tko".spec_bytes() {
        Some(JsGameMode::Taiko)
    } else if name == "catch".spec_bytes() || name == "c".spec_bytes() || name == "ctb".spec_bytes() || name == "catch the beat".spec_bytes() {
        Some(JsGameMode::Catch)
    } else if name == "mania".spec_bytes() || name == "m".spec_bytes() || name == "mna".spec_bytes() {
        Some(JsGameMode::Mania)
    } else {
        None
    }
}

/// What a name gives as a mode: its mode, or "out of range" for a name that
/// is none of a mode.
pub open spec fn decode_mode_name(name: Seq<u8>) -> Result<JsGameMode, DecodeErrorView> {
    match mode_of_name(name) {
        Some(mode) => Ok(mode),
        None => Err(DecodeErrorView::OutOfRange { field: MODE_FIELD@, constraint: MODE_NAMES@ }),
    }
}

/// What a value gives as a mode: a number is read as the mode's integer, a
/// string as the mode's name without regard to ASCII case. Anything else is
/// of the wrong type.
pub open spec fn decode_mode_or_name(v: HostValue) -> Result<JsGameMode, DecodeErrorView> {
    match v {
        HostValue::Number(_) => decode_mode(v),
        HostValue::Str(s) => decode_mode_name(ascii_lowercase(encode_utf8(s))),
        _ => Err(invalid_type(Description::NumberOrString, v)),
    }
}

/// What the entries of the settings give as a mode: none where the key is
/// absent or holds null or undefined.
pub open spec fn decode_mode_entry(entries: Seq<HostEntry>) -> Result<
    Option<JsGameMode>,
    DecodeErrorView,
> {
    match lookup(entries, MODE_KEY@) {
        None => Ok(None),
        Some(v) => if v.is_nullish() {
            Ok(None)
        } else {
            match decode_mode_or_name(v) {
                Ok(mode) => Ok(Some(mode)),
                Err(e) => Err(e),
            }
        },
    }
}

/// One call on a calculation that the calculator asks for.
#[derive(Clone, Copy, Debug, PartialEq, Eq)]
pub enum CalculatorStep {
    Mode(JsGameMode),
    Mods(u32),
    Accuracy(Number),
    NGeki(u32),
    NKatu(u32),
    N300(u32),
    N100(u32),
    N50(u32),
    NMisses(u32),
    Combo(u32),
    PassedObjects(u32),
    ClockRate(Number),
}

/// The settings of the calculator. Each of them is there or not.
#[derive(Clone, Copy, Debug, PartialEq, Eq)]
pub struct CalculatorInner {
    pub mode: Option<JsGameMode>,
    pub mods: Option<u32>,
    pub accuracy: Option<Number>,
    pub n_geki: Option<u32>,
    pub n_katu: Option<u32>,
    pub n300: Option<u32>,
    pub n100: Option<u32>,
    pub n50: Option<u32>,
    pub n_misses: Option<u32>,
    pub combo: Option<u32>,
    pub passed_objects: Option<u32>,
    pub clock_rate: Option<Number>,
}

/// The calculator: the settings of all calculations in one object.
#[derive(Clone, Copy, Debug, PartialEq, Eq)]
pub struct Calculator {
    pub inner: CalculatorInner,
}

impl Default for CalculatorInner {
    fn default() -> (r: CalculatorInner)
        ensures
            r == CalculatorInner::empty(),
    {
        CalculatorInner {
            mode: None,
            mods: None,
            accuracy: None,
            n_geki: None,
            n_katu: None,
            n300: None,
            n100: None,
            n50: None,
            n_misses: None,
            combo: None,
            passed_objects: None,
            clock_rate: None,
        }
    }
}

impl CalculatorInner {
    /// No setting at all.
    pub open spec fn empty() -> CalculatorInner {
        CalculatorInner {
            mode: None,
            mods: None,
            accuracy: None,
            n_geki: None,
            n_katu: None,
            n300: None,
            n100: None,
            n50: None,
            n_misses: None,
            combo: None,
            passed_objects: None,
            clock_rate: None,
        }
    }

    /// The schema of the settings but the mode: counts and numbers, none of
    /// them required.
    pub open spec fn fields() -> Seq<FieldView> {
        seq![
            FieldView { name: "mods"@, kind: FieldKind::Unsigned, required: false },
            FieldView { name: "acc"@, kind: FieldKind::Float, required: false },
            FieldView { name: "nGeki"@, kind: FieldKind::Unsigned, required: false },
            FieldView { name: "nKatu"@, kind: FieldKind::Unsigned, required: false },
            FieldView { name: "n300"@, kind: FieldKind::Unsigned, required: false },
            FieldView { name: "n100"@, kind: FieldKind::Unsigned, required: false },
            FieldView { name: "n50"@, kind: FieldKind::Unsigned, required: false },
            FieldView { name: "nMisses"@, kind: FieldKind::Unsigned, required: false },
            FieldView { name: "combo"@, kind: FieldKind::Unsigned, required: false },
            FieldView { name: "passedObjects"@, kind: FieldKind::Unsigned, required: false },
            FieldView { name: "clockRate"@, kind: FieldKind::Float, required: false },
        ]
    }

    /// The settings that a mode and the slots of the schema stand for.
    pub open spec fn from_slots(mode: Option<JsGameMode>, slots: Seq<SlotView>) -> CalculatorInner {
        CalculatorInner {
            mode,
            mods: slots[0].unsigned(),
            accuracy: slots[1].float(),
            n_geki: slots[2].unsigned(),
            n_katu: slots[3].unsigned(),
            n300: slots[4].unsigned(),
            n100: slots[5].unsigned(),
            n50: slots[6].unsigned(),
            n_misses: slots[7].unsigned(),
            combo: slots[8].unsigned(),
            passed_objects: slots[9].unsigned(),
            clock_rate: slots[10].float(),
        }
    }

    /// What the entries of an object decode to: the mode first, then the
    /// fields of the schema in order.
    pub open spec fn decode_entries(entries: Seq<HostEntry>) -> Result<
        CalculatorInner,
        DecodeErrorView,
    > {
        match decode_mode_entry(entries) {
            Err(e) => Err(e),
            Ok(mode) => match decode_fields(entries, Self::fields()) {
                Err(e) => Err(e),
                Ok(slots) => Ok(Self::from_slots(mode, slots)),
            },
        }
    }

    /// What the optional first argument decodes to: no argument and
    /// undefined give no setting at all, an object gives what its entries
    /// hold, and anything else is of the wrong type.
    pub open spec fn decode(arg: Option<HostValue>) -> Result<CalculatorInner, DecodeErrorView> {
        match arg {
            None => Ok(Self::empty()),
            Some(v) => match v {
                HostValue::Undefined => Ok(Self::empty()),
                HostValue::Object { class_name, entries } => Self::decode_entries(entries),
                _ => Err(invalid_type(Description::Object, v)),
            },
        }
    }

    /// The calls that bring the settings to a difficulty calculation, in
    /// order: one call for each setting that has a value.
    pub open spec fn difficulty_steps(self) -> Seq<CalculatorStep> {
        one_if(
            match self.mode {
                Some(v) => Some(CalculatorStep::Mode(v)),
                None => None,
            },
        ) + one_if(
            match self.mods {
                Some(v) => Some(CalculatorStep::Mods(v)),
                None => None,
            },
        ) + one_if(
            match self.passed_objects {
                Some(v) => Some(CalculatorStep::PassedObjects(v)),
                None => None,
            },
        ) + one_if(
            match self.clock_rate {
                Some(v) => Some(CalculatorStep::ClockRate(v)),
                None => None,
            },
        )
    }

    /// The calls that bring what is known of the score to a performance
    /// calculation.
    pub open spec fn score_steps(self) -> Seq<CalculatorStep> {
        one_if(
            match self.accuracy {
                Some(v) => Some(CalculatorStep::Accuracy(v)),
                None => None,
            },
        ) + one_if(
            match self.n_geki {
                Some(v) => Some(CalculatorStep::NGeki(v)),
                None => None,
            },
        ) + one_if(
            match self.n_katu {
                Some(v) => Some(CalculatorStep::NKatu(v)),
                None => None,
            },
        ) + one_if(
            match self.n300 {
                Some(v) => Some(CalculatorStep::N300(v)),
                None => None,
            },
        ) + one_if(
            match self.n100 {
                Some(v) => Some(CalculatorStep::N100(v)),
                None => None,
            },
        ) + one_if(
            match self.n50 {
                Some(v) => Some(CalculatorStep::N50(v)),
                None => None,
            },
        ) + one_if(
            match self.n_misses {
                Some(v) => Some(CalculatorStep::NMisses(v)),
                None => None,
            },
        ) + one_if(
            match self.combo {
                Some(v) => Some(CalculatorStep::Combo(v)),
                None => None,
            },
        )
    }

    /// The calls that bring the settings to a performance calculation, in
    /// order: mode and mods, what is known of the score, passed objects and
    /// clock rate.
    pub open spec fn performance_steps(self) -> Seq<CalculatorStep> {
        one_if(
            match self.mode {
                Some(v) => Some(CalculatorStep::Mode(v)),
                None => None,
            },
        ) + one_if(
            match self.mods {
                Some(v) => Some(CalculatorStep::Mods(v)),
                None => None,
            },
        ) + self.score_steps() + one_if(
            match self.passed_objects {
                Some(v) => Some(CalculatorStep::PassedObjects(v)),
                None => None,
            },
        ) + one_if(
            match self.clock_rate {
                Some(v) => Some(CalculatorStep::ClockRate(v)),
                None => None,
            },
        )
    }

    /// The calls that bring the settings to the attributes of a map, in
    /// order: mode, mods and clock rate.
    pub open spec fn map_steps(self) -> Seq<CalculatorStep> {
        one_if(
            match self.mode {
                Some(v) => Some(CalculatorStep::Mode(v)),
                None => None,
            },
        ) + one_if(
            match self.mods {
                Some(v) => Some(CalculatorStep::Mods(v)),
                None => None,
            },
        ) + one_if(
            match self.clock_rate {
                Some(v) => Some(CalculatorStep::ClockRate(v)),
                None => None,
            },
        )
    }

    /// The schema of the settings but the mode.
    pub fn schema() -> (r: Vec<Field>)
        ensures
            fields_view(r@) == Self::fields(),
    {
        let r = vec![
            Field { name: "mods", kind: FieldKind::Unsigned, required: false },
            Field { name: "acc", kind: FieldKind::Float, required: false },
            Field { name: "nGeki", kind: FieldKind::Unsigned, required: false },
            Field { name: "nKatu", kind: FieldKind::Unsigned, required: false },
            Field { name: "n300", kind: FieldKind::Unsigned, required: false },
            Field { name: "n100", kind: FieldKind::Unsigned, required: false },
            Field { name: "n50", kind: FieldKind::Unsigned, required: false },
            Field { name: "nMisses", kind: FieldKind::Unsigned, required: false },
            Field { name: "combo", kind: FieldKind::Unsigned, required: false },
            Field { name: "passedObjects", kind: FieldKind::Unsigned, required: false },
            Field { name: "clockRate", kind: FieldKind::Float, required: false },
        ];
        assert(fields_view(r@) =~= Self::fields());
        r
    }
}

/// Adds the calls for what is known of the score.
fn push_score_steps(inner: &CalculatorInner, steps: &mut Vec<CalculatorStep>)
    ensures
        final(steps)@ == old(steps)@ + inner.score_steps(),
{
    let mut score: Vec<CalculatorStep> = Vec::new();
    push_if(
        &mut score,
        match inner.accuracy {
            Some(v) => Some(CalculatorStep::Accuracy(v)),
            None => None,
        },
    );
    assert(score@ =~= one_if(
        match inner.accuracy {
            Some(v) => Some(CalculatorStep::Accuracy(v)),
            None => None,
        },
    ));
    push_if(
        &mut score,
        match inner.n_geki {
            Some(v) => Some(CalculatorStep::NGeki(v)),
            None => None,
        },
    );
    push_if(
        &mut score,
        match inner.n_katu {
            Some(v) => Some(CalculatorStep::NKatu(v)),
            None => None,
        },
    );
    push_if(
        &mut score,
        match inner.n300 {
            Some(v) => Some(CalculatorStep::N300(v)),
            None => None,
        },
    );
    push_late_score_steps(inner, &mut score);
    let ghost before = steps@;
    steps.append(&mut score);
    assert(steps@ =~= before + inner.score_steps());
}

/// Adds the calls for the later counters of the score.
fn push_late_score_steps(inner: &CalculatorInner, steps: &mut Vec<CalculatorStep>)
    ensures
        final(steps)@ == old(steps)@ + one_if(
            match inner.n100 {
                Some(v) => Some(CalculatorStep::N100(v)),
                None => None,
            },
        ) + one_if(
            match inner.n50 {
                Some(v) => Some(CalculatorStep::N50(v)),
                None => None,
            },
        ) + one_if(
            match inner.n_misses {
                Some(v) => Some(CalculatorStep::NMisses(v)),
                None => None,
            },
        ) + one_if(
            match inner.combo {
                Some(v) => Some(CalculatorStep::Combo(v)),
                None => None,
            },
        ),
{
    push_if(
        steps,
        match inner.n100 {
            Some(v) => Some(CalculatorStep::N100(v)),
            None => None,
        },
    );
    push_if(
        steps,
        match inner.n50 {
            Some(v) => Some(CalculatorStep::N50(v)),
            None => None,
        },
    );
    push_if(
        steps,
        match inner.n_misses {
            Some(v) => Some(CalculatorStep::NMisses(v)),
            None => None,
        },
    );
    push_if(
        steps,
        match inner.combo {
            Some(v) => Some(CalculatorStep::Combo(v)),
            None => None,
        },
    );
}

impl Calculator {
    /// Creates a calculator from the optional first argument.
    pub fn js_new(arg: Option<&Value>) -> (r: Result<Calculator, DecodeError>)
        ensures
            match r {
                Ok(calculator) => CalculatorInner::decode(
                    match arg {
                        Some(v) => Some(v@),
                        None => None,
                    },
                ) == Ok::<_, DecodeErrorView>(calculator.inner),
                Err(e) => CalculatorInner::decode(
                    match arg {
                        Some(v) => Some(v@),
                        None => None,
                    },
                ) == Err::<CalculatorInner, _>(e@),
            },
    {
        let entries = match arg {
            None => {
                return Ok(Calculator { inner: CalculatorInner::default() });
            },
            Some(v) => match v {
                Value::Undefined => {
                    return Ok(Calculator { inner: CalculatorInner::default() });
                },
                Value::Object { class_name, entries } => entries,
                _ => {
                    return Err(
                        DecodeError::InvalidType {
                            expected: Description::Object,
                            found: v.shape(),
                        },
                    );
                },
            },
        };
        let mode = match lookup_entry(entries, MODE_KEY) {
            None => None,
            Some(v) => if v.is_nullish() {
                None
            } else {
                Some(Self::decode_mode(v)?)
            },
        };
        let schema = CalculatorInner::schema();
        let slots = decode_fields_of(entries, &schema)?;
        proof {
            lemma_decoded_fields_len(entries_view(entries@), fields_view(schema@));
        }
        Ok(
            Calculator {
                inner: CalculatorInner {
                    mode,
                    mods: slots[0].unsigned(),
                    accuracy: slots[1].float(),
                    n_geki: slots[2].unsigned(),
                    n_katu: slots[3].unsigned(),
                    n300: slots[4].unsigned(),
                    n100: slots[5].unsigned(),
                    n50: slots[6].unsigned(),
                    n_misses: slots[7].unsigned(),
                    combo: slots[8].unsigned(),
                    passed_objects: slots[9].unsigned(),
                    clock_rate: slots[10].float(),
                },
            },
        )
    }

    /// Decodes a mode from its integer or from one of its names.
    pub fn decode_mode(value: &Value) -> (r: Result<JsGameMode, DecodeError>)
        ensures
            outcome(r) == decode_mode_or_name(value@),
    {
        match value {
            Value::Number(_) => JsGameMode::deserialize(&JsDeserializer::from_ref(value)),
            Value::Str(name) => {
                let lowered = to_ascii_lowercase(name.as_str().as_bytes());
                Self::mode_from_bytes(lowered.as_slice())
            },
            _ => Err(
                DecodeError::InvalidType {
                    expected: Description::NumberOrString,
                    found: value.shape(),
                },
            ),
        }
    }

    /// The mode that a name stands for, the name as bytes.
    pub fn mode_from_bytes(name: &[u8]) -> (r: Result<JsGameMode, DecodeError>)
        ensures
            outcome(r) == decode_mode_name(name@),
    {
        if bytes_eq(name, "osu".as_bytes()) || bytes_eq(name, "o".as_bytes()) || bytes_eq(name, "std".as_bytes()) || bytes_eq(name, "standard".as_bytes()) {
            Ok(JsGameMode::Osu)
        } else if bytes_eq(name, "taiko".as_bytes()) || bytes_eq(name, "t".as_bytes()) || bytes_eq(name, "tko".as_bytes()) {
            Ok(JsGameMode::Taiko)
        } else if bytes_eq(name, "catch".as_bytes()) || bytes_eq(name, "c".as_bytes()) || bytes_eq(name, "ctb".as_bytes()) || bytes_eq(name, "catch the beat".as_bytes()) {
            Ok(JsGameMode::Catch)
        } else if bytes_eq(name, "mania".as_bytes()) || bytes_eq(name, "m".as_bytes()) || bytes_eq(name, "mna".as_bytes()) {
            Ok(JsGameMode::Mania)
        } else {
            Err(DecodeError::OutOfRange { field: MODE_FIELD, constraint: MODE_NAMES })
        }
    }

    /// The mode that a name stands for. The name is compared as it is, so a
    /// caller that wants to accept upper case makes it lower case first.
    pub fn mode_from_str(mode: &str) -> (r: Result<JsGameMode, DecodeError>)
        ensures
            outcome(r) == decode_mode_name(mode.spec_bytes()),
    {
        Self::mode_from_bytes(mode.as_bytes())
    }

    /// Sets the mode from the first argument: the mode's integer or one of
    /// its names. Without an argument, or with one that is no mode, the call
    /// fails and the settings stay as they were.
    pub fn js_mode(&mut self, arg: Option<&Value>) -> (r: Result<(), DecodeError>)
        ensures
            match arg {
                None => r matches Err(e) && e@ == invalid_type(
                    Description::NumberOrString,
                    HostValue::Undefined,
                ) && *final(self) == *old(self),
                Some(v) => match decode_mode_or_name(v@) {
                    Ok(mode) => r is Ok && *final(self) == (Calculator {
                        inner: CalculatorInner { mode: Some(mode), ..old(self).inner },
                    }),
                    Err(e) => r matches Err(found) && found@ == e && *final(self) == *old(self),
                },
            },
    {
        let mode = match arg {
            None => {
                return Err(
                    DecodeError::InvalidType {
                        expected: Description::NumberOrString,
                        found: Description::Unit,
                    },
                );
            },
            Some(v) => match Self::decode_mode(v) {
                Ok(mode) => mode,
                Err(e) => {
                    return Err(e);
                },
            },
        };
        self.inner.mode = Some(mode);
        Ok(())
    }

    /// Sets `mods` from the first argument, which must be an unsigned integer.
    /// Otherwise the call fails and the settings stay as they were.
    pub fn js_mods(&mut self, arg: Option<&Value>) -> (r: Result<(), DecodeError>)
        ensures
            match arg {
                None => r matches Err(e) && e@ == invalid_type(Description::SafeInteger, HostValue::Undefined)
                    && *final(self) == *old(self),
                Some(v) => match decode_unsigned(v@, 32, "mods"@) {
                    Ok(value) => r is Ok && *final(self) == (Calculator {
                        inner: CalculatorInner { mods: Some(value as u32), ..old(self).inner },
                    }),
                    Err(e) => r matches Err(found) && found@ == e && *final(self) == *old(self),
                },
            },
    {
        let value = match arg {
            None => {
                return Err(
                    DecodeError::InvalidType { expected: Description::SafeInteger, found: Description::Unit },
                );
            },
            Some(v) => match JsDeserializer::from_ref(v).deserialize_u32("mods") {
                Ok(value) => value,
                Err(e) => {
                    return Err(e);
                },
            },
        };
        self.inner.mods = Some(value);
        Ok(())
    }

    /// Sets `acc` from the first argument, which must be a number.
    /// Otherwise the call fails and the settings stay as they were.
    pub fn js_acc(&mut self, arg: Option<&Value>) -> (r: Result<(), DecodeError>)
        ensures
            match arg {
                None => r matches Err(e) && e@ == invalid_type(Description::Float, HostValue::Undefined)
                    && *final(self) == *old(self),
                Some(v) => match decode_float(v@) {
                    Ok(value) => r is Ok && *final(self) == (Calculator {
                        inner: CalculatorInner { accuracy: Some(value), ..old(self).inner },
                    }),
                    Err(e) => r matches Err(found) && found@ == e && *final(self) == *old(self),
                },
            },
    {
        let value = match arg {
            None => {
                return Err(
                    DecodeError::InvalidType { expected: Description::Float, found: Description::Unit },
                );
            },
            Some(v) => match JsDeserializer::from_ref(v).deserialize_f64() {
                Ok(value) => value,
                Err(e) => {
                    return Err(e);
                },
            },
        };
        self.inner.accuracy = Some(value);
        Ok(())
    }

    /// Sets `nGeki` from the first argument, which must be an unsigned integer.
    /// Otherwise the call fails and the settings stay as they were.
    pub fn js_geki(&mut self, arg: Option<&Value>) -> (r: Result<(), DecodeError>)
        ensures
            match arg {
                None => r matches Err(e) && e@ == invalid_type(Description::SafeInteger, HostValue::Undefined)
                    && *final(self) == *old(self),
                Some(v) => match decode_unsigned(v@, 32, "nGeki"@) {
                    Ok(value) => r is Ok && *final(self) == (Calculator {
                        inner: CalculatorInner { n_geki: Some(value as u32), ..old(self).inner },
                    }),
                    Err(e) => r matches Err(found) && found@ == e && *final(self) == *old(self),
                },
            },
    {
        let value = match arg {
            None => {
                return Err(
                    DecodeError::InvalidType { expected: Description::SafeInteger, found: Description::Unit },
                );
            },
            Some(v) => match JsDeserializer::from_ref(v).deserialize_u32("nGeki") {
                Ok(value) => value,
                Err(e) => {
                    return Err(e);
                },
            },
        };
        self.inner.n_geki = Some(value);
        Ok(())
    }

    /// Sets `nKatu` from the first argument, which must be an unsigned integer.
    /// Otherwise the call fails and the settings stay as they were.
    pub fn js_katu(&mut self, arg: Option<&Value>) -> (r: Result<(), DecodeError>)
        ensures
            match arg {
                None => r matches Err(e) && e@ == invalid_type(Description::SafeInteger, HostValue::Undefined)
                    && *final(self) == *old(self),
                Some(v) => match decode_unsigned(v@, 32, "nKatu"@) {
                    Ok(value) => r is Ok && *final(self) == (Calculator {
                        inner: CalculatorInner { n_katu: Some(value as u32), ..old(self).inner },
                    }),
                    Err(e) => r matches Err(found) && found@ == e && *final(self) == *old(self),
                },
            },
    {
        let value = match arg {
            None => {
                return Err(
                    DecodeError::InvalidType { expected: Description::SafeInteger, found: Description::Unit },
                );
            },
            Some(v) => match JsDeserializer::from_ref(v).deserialize_u32("nKatu") {
                Ok(value) => value,
                Err(e) => {
                    return Err(e);
                },
            },
        };
        self.inner.n_katu = Some(value);
        Ok(())
    }

    /// Sets `n300` from the first argument, which must be an unsigned integer.
    /// Otherwise the call fails and the settings stay as they were.
    pub fn js_n300(&mut self, arg: Option<&Value>) -> (r: Result<(), DecodeError>)
        ensures
            match arg {
                None => r matches Err(e) && e@ == invalid_type(Description::SafeInteger, HostValue::Undefined)
                    && *final(self) == *old(self),
                Some(v) => match decode_unsigned(v@, 32, "n300"@) {
                    Ok(value) => r is Ok && *final(self) == (Calculator {
                        inner: CalculatorInner { n300: Some(value as u32), ..old(self).inner },
                    }),
                    Err(e) => r matches Err(found) && found@ == e && *final(self) == *old(self),
                },
            },
    {
        let value = match arg {
            None => {
                return Err(
                    DecodeError::InvalidType { expected: Description::SafeInteger, found: Description::Unit },
                );
            },
            Some(v) => match JsDeserializer::from_ref(v).deserialize_u32("n300") {
                Ok(value) => value,
                Err(e) => {
                    return Err(e);
                },
            },
        };
        self.inner.n300 = Some(value);
        Ok(())
    }

    /// Sets `n100` from the first argument, which must be an unsigned integer.
    /// Otherwise the call fails and the settings stay as they were.
    pub fn js_n100(&mut self, arg: Option<&Value>) -> (r: Result<(), DecodeError>)
        ensures
            match arg {
                None => r matches Err(e) && e@ == invalid_type(Description::SafeInteger, HostValue::Undefined)
                    && *final(self) == *old(self),
                Some(v) => match decode_unsigned(v@, 32, "n100"@) {
                    Ok(value) => r is Ok && *final(self) == (Calculator {
                        inner: CalculatorInner { n100: Some(value as u32), ..old(self).inner },
                    }),
                    Err(e) => r matches Err(found) && found@ == e && *final(self) == *old(self),
                },
            },
    {
        let value = match arg {
            None => {
                return Err(
                    DecodeError::InvalidType { expected: Description::SafeInteger, found: Description::Unit },
                );
            },
            Some(v) => match JsDeserializer::from_ref(v).deserialize_u32("n100") {
                Ok(value) => value,
                Err(e) => {
                    return Err(e);
                },
            },
        };
        self.inner.n100 = Some(value);
        Ok(())
    }

    /// Sets `n50` from the first argument, which must be an unsigned integer.
    /// Otherwise the call fails and the settings stay as they were.
    pub fn js_n50(&mut self, arg: Option<&Value>) -> (r: Result<(), DecodeError>)
        ensures
            match arg {
                None => r matches Err(e) && e@ == invalid_type(Description::SafeInteger, HostValue::Undefined)
                    && *final(self) == *old(self),
                Some(v) => match decode_unsigned(v@, 32, "n50"@) {
                    Ok(value) => r is Ok && *final(self) == (Calculator {
                        inner: CalculatorInner { n50: Some(value as u32), ..old(self).inner },
                    }),
                    Err(e) => r matches Err(found) && found@ == e && *final(self) == *old(self),
                },
            },
    {
        let value = match arg {
            None => {
                return Err(
                    DecodeError::InvalidType { expected: Description::SafeInteger, found: Description::Unit },
                );
            },
            Some(v) => match JsDeserializer::from_ref(v).deserialize_u32("n50") {
                Ok(value) => value,
                Err(e) => {
                    return Err(e);
                },
            },
        };
        self.inner.n50 = Some(value);
        Ok(())
    }

    /// Sets `nMisses` from the first argument, which must be an unsigned integer.
    /// Otherwise the call fails and the settings stay as they were.
    pub fn js_misses(&mut self, arg: Option<&Value>) -> (r: Result<(), DecodeError>)
        ensures
            match arg {
                None => r matches Err(e) && e@ == invalid_type(Description::SafeInteger, HostValue::Undefined)
                    && *final(self) == *old(self),
                Some(v) => match decode_unsigned(v@, 32, "nMisses"@) {
                    Ok(value) => r is Ok && *final(self) == (Calculator {
                        inner: CalculatorInner { n_misses: Some(value as u32), ..old(self).inner },
                    }),
                    Err(e) => r matches Err(found) && found@ == e && *final(self) == *old(self),
                },
            },
    {
        let value = match arg {
            None => {
                return Err(
                    DecodeError::InvalidType { expected: Description::SafeInteger, found: Description::Unit },
                );
            },
            Some(v) => match JsDeserializer::from_ref(v).deserialize_u32("nMisses") {
                Ok(value) => value,
                Err(e) => {
                    return Err(e);
                },
            },
        };
        self.inner.n_misses = Some(value);
        Ok(())
    }

    /// Sets `combo` from the first argument, which must be an unsigned integer.
    /// Otherwise the call fails and the settings stay as they were.
    pub fn js_combo(&mut self, arg: Option<&Value>) -> (r: Result<(), DecodeError>)
        ensures
            match arg {
                None => r matches Err(e) && e@ == invalid_type(Description::SafeInteger, HostValue::Undefined)
                    && *final(self) == *old(self),
                Some(v) => match decode_unsigned(v@, 32, "combo"@) {
                    Ok(value) => r is Ok && *final(self) == (Calculator {
                        inner: CalculatorInner { combo: Some(value as u32), ..old(self).inner },
                    }),
                    Err(e) => r matches Err(found) && found@ == e && *final(self) == *old(self),
                },
            },
    {
        let value = match arg {
            None => {
                return Err(
                    DecodeError::InvalidType { expected: Description::SafeInteger, found: Description::Unit },
                );
            },
            Some(v) => match JsDeserializer::from_ref(v).deserialize_u32("combo") {
                Ok(value) => value,
                Err(e) => {
                    return Err(e);
                },
            },
        };
        self.inner.combo = Some(value);
        Ok(())
    }

    /// Sets `passedObjects` from the first argument, which must be an unsigned integer.
    /// Otherwise the call fails and the settings stay as they were.
    pub fn js_passed_objects(&mut self, arg: Option<&Value>) -> (r: Result<(), DecodeError>)
        ensures
            match arg {
                None => r matches Err(e) && e@ == invalid_type(Description::SafeInteger, HostValue::Undefined)
                    && *final(self) == *old(self),
                Some(v) => match decode_unsigned(v@, 32, "passedObjects"@) {
                    Ok(value) => r is Ok && *final(self) == (Calculator {
                        inner: CalculatorInner { passed_objects: Some(value as u32), ..old(self).inner },
                    }),
                    Err(e) => r matches Err(found) && found@ == e && *final(self) == *old(self),
                },
            },
    {
        let value = match arg {
            None => {
                return Err(
                    DecodeError::InvalidType { expected: Description::SafeInteger, found: Description::Unit },
                );
            },
            Some(v) => match JsDeserializer::from_ref(v).deserialize_u32("passedObjects") {
                Ok(value) => value,
                Err(e) => {
                    return Err(e);
                },
            },
        };
        self.inner.passed_objects = Some(value);
        Ok(())
    }

    /// Sets `clockRate` from the first argument, which must be a number.
    /// Otherwise the call fails and the settings stay as they were.
    pub fn js_clock_rate(&mut self, arg: Option<&Value>) -> (r: Result<(), DecodeError>)
        ensures
            match arg {
                None => r matches Err(e) && e@ == invalid_type(Description::Float, HostValue::Undefined)
                    && *final(self) == *old(self),
                Some(v) => match decode_float(v@) {
                    Ok(value) => r is Ok && *final(self) == (Calculator {
                        inner: CalculatorInner { clock_rate: Some(value), ..old(self).inner },
                    }),
                    Err(e) => r matches Err(found) && found@ == e && *final(self) == *old(self),
                },
            },
    {
        let value = match arg {
            None => {
                return Err(
                    DecodeError::InvalidType { expected: Description::Float, found: Description::Unit },
                );
            },
            Some(v) => match JsDeserializer::from_ref(v).deserialize_f64() {
                Ok(value) => value,
                Err(e) => {
                    return Err(e);
                },
            },
        };
        self.inner.clock_rate = Some(value);
        Ok(())
    }

    /// The calls that bring the settings to the attributes of a map.
    pub fn js_map_attrs(&self) -> (r: Vec<CalculatorStep>)
        ensures
            r@ == self.inner.map_steps(),
    {
        let mut steps: Vec<CalculatorStep> = Vec::new();
        push_if(
            &mut steps,
            match self.inner.mode {
                Some(v) => Some(CalculatorStep::Mode(v)),
                None => None,
            },
        );
        assert(steps@ =~= one_if(
            match self.inner.mode {
                Some(v) => Some(CalculatorStep::Mode(v)),
                None => None,
            },
        ));
        push_if(
            &mut steps,
            match self.inner.mods {
                Some(v) => Some(CalculatorStep::Mods(v)),
                None => None,
            },
        );
        push_if(
            &mut steps,
            match self.inner.clock_rate {
                Some(v) => Some(CalculatorStep::ClockRate(v)),
                None => None,
            },
        );
        steps
    }

    /// The calls that bring the settings to a difficulty calculation.
    pub fn js_difficulty(&self) -> (r: Vec<CalculatorStep>)
        ensures
            r@ == self.inner.difficulty_steps(),
    {
        let mut steps: Vec<CalculatorStep> = Vec::new();
        push_if(
            &mut steps,
            match self.inner.mode {
                Some(v) => Some(CalculatorStep::Mode(v)),
                None => None,
            },
        );
        assert(steps@ =~= one_if(
            match self.inner.mode {
                Some(v) => Some(CalculatorStep::Mode(v)),
                None => None,
            },
        ));
        push_if(
            &mut steps,
            match self.inner.mods {
                Some(v) => Some(CalculatorStep::Mods(v)),
                None => None,
            },
        );
        push_if(
            &mut steps,
            match self.inner.passed_objects {
                Some(v) => Some(CalculatorStep::PassedObjects(v)),
                None => None,
            },
        );
        push_if(
            &mut steps,
            match self.inner.clock_rate {
                Some(v) => Some(CalculatorStep::ClockRate(v)),
                None => None,
            },
        );
        steps
    }

    /// The calls that bring the settings to a calculation of strains: those of
    /// a difficulty calculation.
    pub fn js_strains(&self) -> (r: Vec<CalculatorStep>)
        ensures
            r@ == self.inner.difficulty_steps(),
    {
        let mut steps: Vec<CalculatorStep> = Vec::new();
        push_if(
            &mut steps,
            match self.inner.mode {
                Some(v) => Some(CalculatorStep::Mode(v)),
                None => None,
            },
        );
        assert(steps@ =~= one_if(
            match self.inner.mode {
                Some(v) => Some(CalculatorStep::Mode(v)),
                None => None,
            },
        ));
        push_if(
            &mut steps,
            match self.inner.mods {
                Some(v) => Some(CalculatorStep::Mods(v)),
                None => None,
            },
        );
        push_if(
            &mut steps,
            match self.inner.passed_objects {
                Some(v) => Some(CalculatorStep::PassedObjects(v)),
                None => None,
            },
        );
        push_if(
            &mut steps,
            match self.inner.clock_rate {
                Some(v) => Some(CalculatorStep::ClockRate(v)),
                None => None,
            },
        );
        steps
    }

    /// The calls that bring the settings to a performance calculation.
    pub fn js_performance(&self) -> (r: Vec<CalculatorStep>)
        ensures
            r@ == self.inner.performance_steps(),
    {
        let mut steps: Vec<CalculatorStep> = Vec::new();
        push_if(
            &mut steps,
            match self.inner.mode {
                Some(v) => Some(CalculatorStep::Mode(v)),
                None => None,
            },
        );
        assert(steps@ =~= one_if(
            match self.inner.mode {
                Some(v) => Some(CalculatorStep::Mode(v)),
                None => None,
            },
        ));
        push_if(
            &mut steps,
            match self.inner.mods {
                Some(v) => Some(CalculatorStep::Mods(v)),
                None => None,
            },
        );
        push_score_steps(&self.inner, &mut steps);
        push_if(
            &mut steps,
            match self.inner.passed_objects {
                Some(v) => Some(CalculatorStep::PassedObjects(v)),
                None => None,
            },
        );
        push_if(
            &mut steps,
            match self.inner.clock_rate {
                Some(v) => Some(CalculatorStep::ClockRate(v)),
                None => None,
            },
        );
        steps
    }

    /// The object that stands for the result of a difficulty calculation:
    /// the flat attributes of the result's mode, encoded. It holds the mode,
    /// the star rating, the convert flag, the attributes that the mode has
    /// and the maximum combo, and no entry for an attribute of another mode.
    pub fn convert_difficulty(attrs: DifficultyAttributes) -> (r: Value)
        ensures
            r@ == JsDifficultyAttributes::of(attrs).encode(),
            JsDifficultyAttributes::decode(r@) == Ok::<_, DecodeErrorView>(
                JsDifficultyAttributes::of(attrs),
            ),
    {
        JsDifficultyAttributes::from(attrs).to_value()
    }

    /// The object that stands for calculated strains: the flat strains of the
    /// result's mode, encoded.
    pub fn convert_strains(strains: Strains) -> (r: Value)
        ensures
            r@ == JsStrains::of(strains).encode(),
    {
        JsStrains::from(strains).to_value()
    }

    /// The object that stands for the result of a performance calculation:
    /// the flat attributes of the result's mode, encoded, with the flat
    /// difficulty attributes under `difficulty`.
    pub fn convert_performance(attrs: PerformanceAttributes) -> (r: Value)
        ensures
            r@ == JsPerformanceAttributes::of(attrs).encode(),
            JsPerformanceAttributes::decode_difficulty(r@) == Ok::<_, DecodeErrorView>(
                JsPerformanceAttributes::of(attrs).difficulty,
            ),
    {
        JsPerformanceAttributes::from(attrs).to_value()
    }
}

} // verus!
