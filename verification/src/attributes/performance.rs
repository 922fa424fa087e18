//! The result of a performance calculation.

use crate::attributes::difficulty::{
    CatchDifficultyAttributes, JsDifficultyAttributes, ManiaDifficultyAttributes,
    OsuDifficultyAttributes, TaikoDifficultyAttributes,
};
use crate::deserializer::{decode_struct, JsDeserializer, outcome};
use crate::error::{DecodeError, DecodeErrorView};
use crate::number::Number;
use crate::score_state::{JsScoreState, ScoreState};
use crate::args::common::one_if;
use crate::value::{entries_view, Entry, HostEntry, HostValue, lookup, lookup_entry, Value};
use vstd::prelude::*;
use vstd::string::StringExecFns;

verus! {

/// The name that the type of performance attributes reports.
pub const PERFORMANCE_CLASS: &'static str = "PerformanceAttributes";

/// The key under which performance attributes hold their difficulty attributes.
pub const DIFFICULTY_FIELD: &'static str = "difficulty";

/// The performance attributes of osu!.
#[derive(Clone, Copy, Debug, PartialEq, Eq)]
pub struct OsuPerformanceAttributes {
    pub difficulty: OsuDifficultyAttributes,
    pub pp: Number,
    pub pp_acc: Number,
    pub pp_aim: Number,
    pub pp_flashlight: Number,
    pub pp_speed: Number,
    pub effective_miss_count: Number,
}

/// The performance attributes of osu!taiko.
#[derive(Clone, Copy, Debug, PartialEq, Eq)]
pub struct TaikoPerformanceAttributes {
    pub difficulty: TaikoDifficultyAttributes,
    pub pp: Number,
    pub pp_acc: Number,
    pub pp_difficulty: Number,
    pub effective_miss_count: Number,
}

/// The performance attributes of osu!catch.
#[derive(Clone, Copy, Debug, PartialEq, Eq)]
pub struct CatchPerformanceAttributes {
    pub difficulty: CatchDifficultyAttributes,
    pub pp: Number,
}

/// The performance attributes of osu!mania.
#[derive(Clone, Copy, Debug, PartialEq, Eq)]
pub struct ManiaPerformanceAttributes {
    pub difficulty: ManiaDifficultyAttributes,
    pub pp: Number,
    pub pp_difficulty: Number,
}

/// The performance attributes of a score, by game mode.
#[derive(Clone, Copy, Debug, PartialEq, Eq)]
pub enum PerformanceAttributes {
    Osu(OsuPerformanceAttributes),
    Taiko(TaikoPerformanceAttributes),
    Catch(CatchPerformanceAttributes),
    Mania(ManiaPerformanceAttributes),
}

/// The result of a performance calculation.
#[derive(Clone, Copy, Debug, PartialEq, Eq)]
pub struct JsPerformanceAttributes {
    /// The difficulty attributes.
    pub difficulty: JsDifficultyAttributes,
    /// The hitresult score state that was used for performance calculation.
    ///
    /// Only available if *not* created through gradual calculation.
    pub state: Option<ScoreState>,
    /// The final performance points.
    pub pp: Number,
    /// The aim portion of the final pp.
    ///
    /// Only available for osu!.
    pub pp_aim: Option<Number>,
    /// The flashlight portion of the final pp.
    ///
    /// Only available for osu!.
    pub pp_flashlight: Option<Number>,
    /// The speed portion of the final pp.
    ///
    /// Only available for osu!.
    pub pp_speed: Option<Number>,
    /// The accuracy portion of the final pp.
    ///
    /// Only available for osu! and osu!taiko.
    pub pp_acc: Option<Number>,
    /// Scaled miss count based on total hits.
    ///
    /// Only available for osu! and osu!taiko.
    pub effective_miss_count: Option<Number>,
    /// The strain portion of the final pp.
    ///
    /// Only available for osu!taiko and osu!mania.
    pub pp_difficulty: Option<Number>,
}

impl Default for JsPerformanceAttributes {
    fn default() -> (r: JsPerformanceAttributes)
        ensures
            r == JsPerformanceAttributes::empty(),
    {
        JsPerformanceAttributes {
            difficulty: JsDifficultyAttributes::default(),
            state: None,
            pp: Number { bits: 0 },
            pp_aim: None,
            pp_flashlight: None,
            pp_speed: None,
            pp_acc: None,
            effective_miss_count: None,
            pp_difficulty: None,
        }
    }
}

impl JsPerformanceAttributes {
    /// Attributes with empty difficulty attributes, no state, and no points.
    pub open spec fn empty() -> JsPerformanceAttributes {
        JsPerformanceAttributes {
            difficulty: JsDifficultyAttributes::empty(),
            state: None,
            pp: Number { bits: 0 },
            pp_aim: None,
            pp_flashlight: None,
            pp_speed: None,
            pp_acc: None,
            effective_miss_count: None,
            pp_difficulty: None,
        }
    }

    /// The flat attributes that stand for the attributes of a mode: the
    /// difficulty attributes made flat, the portions that the mode has, and
    /// no state.
    pub open spec fn of(attrs: PerformanceAttributes) -> JsPerformanceAttributes {
        match attrs {
            PerformanceAttributes::Osu(attrs) => JsPerformanceAttributes {
                difficulty: JsDifficultyAttributes::of_osu(attrs.difficulty),
                pp: attrs.pp,
                pp_acc: Some(attrs.pp_acc),
                pp_aim: Some(attrs.pp_aim),
                pp_flashlight: Some(attrs.pp_flashlight),
                pp_speed: Some(attrs.pp_speed),
                effective_miss_count: Some(attrs.effective_miss_count),
                ..Self::empty()
            },
            PerformanceAttributes::Taiko(attrs) => JsPerformanceAttributes {
                difficulty: JsDifficultyAttributes::of_taiko(attrs.difficulty),
                pp: attrs.pp,
                pp_acc: Some(attrs.pp_acc),
                pp_difficulty: Some(attrs.pp_difficulty),
                effective_miss_count: Some(attrs.effective_miss_count),
                ..Self::empty()
            },
            PerformanceAttributes::Catch(attrs) => JsPerformanceAttributes {
                difficulty: JsDifficultyAttributes::of_catch(attrs.difficulty),
                pp: attrs.pp,
                ..Self::empty()
            },
            PerformanceAttributes::Mania(attrs) => JsPerformanceAttributes {
                difficulty: JsDifficultyAttributes::of_mania(attrs.difficulty),
                pp: attrs.pp,
                pp_difficulty: Some(attrs.pp_difficulty),
                ..Self::empty()
            },
        }
    }

    /// What a host value gives as the difficulty attributes of performance
    /// attributes: it must be an object of the type named
    /// `PerformanceAttributes`, it must have the key `difficulty`, and what
    /// the key holds must decode as difficulty attributes.
    pub open spec fn decode_difficulty(v: HostValue) -> Result<
        JsDifficultyAttributes,
        DecodeErrorView,
    > {
        match decode_struct(v, PERFORMANCE_CLASS@) {
            Err(e) => Err(e),
            Ok(entries) => match lookup(entries, DIFFICULTY_FIELD@) {
                None => Err(DecodeErrorView::MissingRequiredField { name: DIFFICULTY_FIELD@ }),
                Some(inner) => JsDifficultyAttributes::decode(inner),
            },
        }
    }

    /// The flat attributes of a calculation's result, with the state that
    /// was used for it.
    pub fn new(attrs: PerformanceAttributes, state: ScoreState) -> (r: Self)
        ensures
            r == (JsPerformanceAttributes { state: Some(state), ..Self::of(attrs) }),
    {
        let mut this = Self::from(attrs);
        this.state = Some(state);
        this
    }

    /// Decodes the difficulty attributes that performance attributes hold.
    pub fn deserialize_difficulty(d: &JsDeserializer) -> (r: Result<
        JsDifficultyAttributes,
        DecodeError,
    >)
        ensures
            outcome(r) == Self::decode_difficulty(d@),
    {
        let entries = d.deserialize_struct(PERFORMANCE_CLASS)?;
        match lookup_entry(entries, DIFFICULTY_FIELD) {
            None => Err(DecodeError::MissingRequiredField { name: DIFFICULTY_FIELD }),
            Some(inner) => JsDifficultyAttributes::deserialize(&JsDeserializer::from_ref(inner)),
        }
    }

    /// The entries for the portions that are there, in the order of the
    /// fields.
    pub open spec fn portion_entries(self) -> Seq<HostEntry> {
        one_if(number_entry("ppAim"@, self.pp_aim)) + one_if(
            number_entry("ppFlashlight"@, self.pp_flashlight),
        ) + one_if(number_entry("ppSpeed"@, self.pp_speed)) + one_if(
            number_entry("ppAccuracy"@, self.pp_acc),
        ) + one_if(number_entry("effectiveMissCount"@, self.effective_miss_count)) + one_if(
            number_entry("ppDifficulty"@, self.pp_difficulty),
        )
    }

    /// The entry that stands for the state, where there is one.
    pub open spec fn state_entry(self) -> Option<HostEntry> {
        match self.state {
            Some(state) => Some(HostEntry { key: "state"@, value: state.encode() }),
            None => None,
        }
    }

    /// The object that stands for the attributes: an instance of their type
    /// that holds the points under `pp`, then the portions that are there,
    /// then the state if there is one, then the difficulty attributes under
    /// `difficulty`.
    pub open spec fn encode(self) -> HostValue {
        HostValue::Object {
            class_name: PERFORMANCE_CLASS@,
            entries: seq![HostEntry { key: "pp"@, value: HostValue::Number(self.pp) }]
                + self.portion_entries() + one_if(self.state_entry()) + seq![
                HostEntry { key: DIFFICULTY_FIELD@, value: self.difficulty.encode() },
            ],
        }
    }

    /// The object that stands for the attributes.
    ///
    /// Decoding the difficulty attributes of the object gives them back.
    pub fn to_value(&self) -> (r: Value)
        ensures
            r@ == self.encode(),
            Self::decode_difficulty(r@) == Ok::<_, DecodeErrorView>(self.difficulty),
    {
        let mut entries: Vec<Entry> = Vec::new();
        entries.push(Entry { key: String::from_str("pp"), value: Value::Number(self.pp) });
        let ghost head = entries_view(entries@);
        assert(head.len() == 1 && head[0] == entries[0]@);
        let mut portions: Vec<Entry> = Vec::new();
        assert(entries_view(portions@) =~= Seq::empty());
        push_number(&mut portions, "ppAim", self.pp_aim);
        assert(entries_view(portions@) =~= one_if(number_entry("ppAim"@, self.pp_aim)));
        push_number(&mut portions, "ppFlashlight", self.pp_flashlight);
        push_number(&mut portions, "ppSpeed", self.pp_speed);
        push_number(&mut portions, "ppAccuracy", self.pp_acc);
        push_number(&mut portions, "effectiveMissCount", self.effective_miss_count);
        push_number(&mut portions, "ppDifficulty", self.pp_difficulty);
        let ghost middle = entries_view(portions@);
        let mut tail: Vec<Entry> = Vec::new();
        match self.state {
            Some(state) => {
                tail.push(
                    Entry { key: String::from_str("state"), value: JsScoreState::from(state).value },
                );
                assert(entries_view(tail@) =~= seq![tail[0]@]);
            },
            None => {
                assert(entries_view(tail@) =~= Seq::empty());
            },
        }
        let ghost state_entries = entries_view(tail@);
        assert(state_entries == one_if(self.state_entry()));
        let last = Entry { key: String::from_str(DIFFICULTY_FIELD), value: self.difficulty.to_value() };
        let ghost last_view = last@;
        tail.push(last);
        entries.append(&mut portions);
        entries.append(&mut tail);
        proof {
            let all = entries_view(entries@);
            assert(all =~= head + middle + state_entries + seq![last_view]);
            assert(all.last() == last_view);
            assert(head =~= seq![HostEntry { key: "pp"@, value: HostValue::Number(self.pp) }]);
        }
        Value::Object { class_name: String::from_str(PERFORMANCE_CLASS), entries }
    }
}

/// The entry that stands for a number under a key, where the number is there.
pub open spec fn number_entry(key: Seq<char>, value: Option<Number>) -> Option<HostEntry> {
    match value {
        Some(n) => Some(HostEntry { key, value: HostValue::Number(n) }),
        None => None,
    }
}

/// Adds an entry for a number that is there.
fn push_number(entries: &mut Vec<Entry>, key: &'static str, value: Option<Number>)
    ensures
        entries_view(final(entries)@) == entries_view(old(entries)@) + one_if(
            number_entry(key@, value),
        ),
{
    match value {
        Some(n) => {
            let entry = Entry { key: String::from_str(key), value: Value::Number(n) };
            entries.push(entry);
            assert(entries_view(final(entries)@) =~= entries_view(old(entries)@) + seq![entry@]);
        },
        None => {
            assert(entries_view(entries@) =~= entries_view(old(entries)@) + Seq::empty());
        },
    }
}

impl From<PerformanceAttributes> for JsPerformanceAttributes {
    fn from(attrs: PerformanceAttributes) -> (r: Self)
        ensures
            r == JsPerformanceAttributes::of(attrs),
    {
        let mut r = JsPerformanceAttributes::default();
        match attrs {
            PerformanceAttributes::Osu(attrs) => {
                r.difficulty = JsDifficultyAttributes::from(attrs.difficulty);
                r.pp = attrs.pp;
                r.pp_acc = Some(attrs.pp_acc);
                r.pp_aim = Some(attrs.pp_aim);
                r.pp_flashlight = Some(attrs.pp_flashlight);
                r.pp_speed = Some(attrs.pp_speed);
                r.effective_miss_count = Some(attrs.effective_miss_count);
            },
            PerformanceAttributes::Taiko(attrs) => {
                r.difficulty = JsDifficultyAttributes::from(attrs.difficulty);
                r.pp = attrs.pp;
                r.pp_acc = Some(attrs.pp_acc);
                r.pp_difficulty = Some(attrs.pp_difficulty);
                r.effective_miss_count = Some(attrs.effective_miss_count);
            },
            PerformanceAttributes::Catch(attrs) => {
                r.difficulty = JsDifficultyAttributes::from(attrs.difficulty);
                r.pp = attrs.pp;
            },
            PerformanceAttributes::Mania(attrs) => {
                r.difficulty = JsDifficultyAttributes::from(attrs.difficulty);
                r.pp = attrs.pp;
                r.pp_difficulty = Some(attrs.pp_difficulty);
            },
        }
        r
    }
}

impl vstd::std_specs::convert::FromSpecImpl<PerformanceAttributes> for JsPerformanceAttributes {
    open spec fn obeys_from_spec() -> bool {
        true
    }

    open spec fn from_spec(attrs: PerformanceAttributes) -> Self {
        JsPerformanceAttributes::of(attrs)
    }
}

} // verus!
