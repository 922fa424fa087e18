//! Settings of a performance calculation.

use crate::args::common::{common_fields, common_schema, lemma_common_names, one_if, push_if};
use crate::args::difficulty::{DifficultyArgs, DifficultyArgsView, OBJECT_CLASS};
use crate::attributes::difficulty::{DifficultyAttributes, JsDifficultyAttributes};
use crate::attributes::performance::JsPerformanceAttributes;
use crate::beatmap::{BeatmapRef, decode_beatmap, JsBeatmap};
use crate::deserializer::{decode_unsigned_integer, invalid_type, JsDeserializer, outcome};
use crate::error::{DecodeError, DecodeErrorView, Description, result_view};
use crate::mods::{JsGameMods, JsGameModsView};
use crate::number::{Number, number_of};
use crate::schema::{
    boolean_slot, decode_object, decode_object_of, encode_object, encode_slots, Field, FieldKind,
    fields_view, FieldView, float_slot, lemma_decoded_slots_len, names_distinct, Slot,
    slots_conform, slots_view, SlotView, unsigned_slot,
};
use crate::value::{HostValue, Value};
use vstd::prelude::*;

verus! {

/// The name under which a priority out of range is reported.
pub const PRIORITY_FIELD: &'static str = "HitResultPriority";

/// What a priority out of range is told to be.
pub const PRIORITY_CONSTRAINT: &'static str = "0, 1 or 2";

/// While generating remaining hitresults, decide how they should be
/// distributed. The host writes the three of them as the integers 0 to 2.
#[derive(Copy, Clone, Debug, PartialEq, Eq, Hash, Structural)]
pub enum JsHitResultPriority {
    /// Prioritize good hitresults over bad ones
    BestCase,
    /// Prioritize bad hitresults over good ones
    WorstCase,
    /// Prioritize fast hitresults generation
    Fastest,
}

/// The calculation's priority, with its three variants.
#[verifier::external_type_specification]
pub struct ExHitResultPriority(rosu_pp::any::HitResultPriority);

impl From<JsHitResultPriority> for rosu_pp::any::HitResultPriority {
    fn from(priority: JsHitResultPriority) -> (r: Self)
        ensures
            r == priority.to_priority(),
    {
        match priority {
            JsHitResultPriority::BestCase => Self::BestCase,
            JsHitResultPriority::WorstCase => Self::WorstCase,
            JsHitResultPriority::Fastest => Self::Fastest,
        }
    }
}

impl vstd::std_specs::convert::FromSpecImpl<JsHitResultPriority> for rosu_pp::any::HitResultPriority {
    open spec fn obeys_from_spec() -> bool {
        true
    }

    open spec fn from_spec(priority: JsHitResultPriority) -> Self {
        priority.to_priority()
    }
}

impl Default for JsHitResultPriority {
    fn default() -> (r: Self)
        ensures
            r == JsHitResultPriority::BestCase,
    {
        JsHitResultPriority::BestCase
    }
}

/// The priority that the integer `n` stands for.
pub open spec fn priority_of(n: int) -> Option<JsHitResultPriority> {
    if n == 0 {
        Some(JsHitResultPriority::BestCase)
    } else if n == 1 {
        Some(JsHitResultPriority::WorstCase)
    } else if n == 2 {
        Some(JsHitResultPriority::Fastest)
    } else {
        None
    }
}

/// A priority decodes from a safe integer from 0 to 2. What is no such
/// integer is of the wrong type; an integer above 2 is out of range.
pub open spec fn decode_priority(v: HostValue) -> Result<JsHitResultPriority, DecodeErrorView> {
    match decode_unsigned_integer(v) {
        Err(e) => Err(e),
        Ok(n) => match priority_of(n) {
            Some(priority) => Ok(priority),
            None => Err(
                DecodeErrorView::OutOfRange {
                    field: PRIORITY_FIELD@,
                    constraint: PRIORITY_CONSTRAINT@,
                },
            ),
        },
    }
}

impl JsHitResultPriority {
    /// The calculation's priority of the same name.
    pub open spec fn to_priority(self) -> rosu_pp::any::HitResultPriority {
        match self {
            JsHitResultPriority::BestCase => rosu_pp::any::HitResultPriority::BestCase,
            JsHitResultPriority::WorstCase => rosu_pp::any::HitResultPriority::WorstCase,
            JsHitResultPriority::Fastest => rosu_pp::any::HitResultPriority::Fastest,
        }
    }

    /// The integer that the host writes for the priority.
    pub open spec fn index(self) -> int {
        match self {
            JsHitResultPriority::BestCase => 0,
            JsHitResultPriority::WorstCase => 1,
            JsHitResultPriority::Fastest => 2,
        }
    }

    /// The host value that stands for the priority: the number of its integer.
    pub open spec fn encode(self) -> HostValue {
        HostValue::Number(number_of(self.index() as nat))
    }

    /// The integer that the host writes for the priority.
    pub fn as_u8(self) -> (r: u8)
        ensures
            r == self.index(),
            priority_of(r as int) == Some(self),
    {
        match self {
            JsHitResultPriority::BestCase => 0,
            JsHitResultPriority::WorstCase => 1,
            JsHitResultPriority::Fastest => 2,
        }
    }

    /// Decodes a priority.
    pub fn deserialize(d: &JsDeserializer) -> (r: Result<JsHitResultPriority, DecodeError>)
        ensures
            outcome(r) == decode_priority(d@),
    {
        let n = d.deserialize_from_js_number_unsigned()?;
        if n == 0 {
            Ok(JsHitResultPriority::BestCase)
        } else if n == 1 {
            Ok(JsHitResultPriority::WorstCase)
        } else if n == 2 {
            Ok(JsHitResultPriority::Fastest)
        } else {
            Err(DecodeError::OutOfRange { field: PRIORITY_FIELD, constraint: PRIORITY_CONSTRAINT })
        }
    }

    /// The host value that stands for the priority.
    pub fn to_value(self) -> (r: Value)
        ensures
            r@ == self.encode(),
            decode_priority(r@) == Ok::<_, DecodeErrorView>(self),
    {
        Value::Number(Number::from_u32(self.as_u8() as u32))
    }
}

/// One call on the builder of a performance calculation.
#[derive(Clone, Copy, Debug, PartialEq, Eq)]
pub enum PerformanceStep {
    Accuracy(Number),
    Combo(u32),
    LargeTickHits(u32),
    SmallTickHits(u32),
    SliderEndHits(u32),
    NGeki(u32),
    NKatu(u32),
    N300(u32),
    N100(u32),
    N50(u32),
    Misses(u32),
    Lazer(bool),
    HitresultPriority(JsHitResultPriority),
    /// Hand over the difficulty settings.
    Difficulty,
}

/// The settings of a performance calculation.
#[derive(Debug, PartialEq, Eq)]
pub struct PerformanceArgs {
    pub mods: JsGameMods,
    pub clock_rate: Option<Number>,
    pub ar: Option<Number>,
    pub ar_with_mods: bool,
    pub cs: Option<Number>,
    pub cs_with_mods: bool,
    pub hp: Option<Number>,
    pub hp_with_mods: bool,
    pub od: Option<Number>,
    pub od_with_mods: bool,
    pub passed_objects: Option<u32>,
    pub hardrock_offsets: Option<bool>,
    pub lazer: Option<bool>,
    pub accuracy: Option<Number>,
    pub combo: Option<u32>,
    pub large_tick_hits: Option<u32>,
    pub small_tick_hits: Option<u32>,
    pub slider_end_hits: Option<u32>,
    pub n_geki: Option<u32>,
    pub n_katu: Option<u32>,
    pub n300: Option<u32>,
    pub n100: Option<u32>,
    pub n50: Option<u32>,
    pub misses: Option<u32>,
    pub hitresult_priority: JsHitResultPriority,
}

/// The view of [`PerformanceArgs`].
pub ghost struct PerformanceArgsView {
    pub mods: JsGameModsView,
    pub clock_rate: Option<Number>,
    pub ar: Option<Number>,
    pub ar_with_mods: bool,
    pub cs: Option<Number>,
    pub cs_with_mods: bool,
    pub hp: Option<Number>,
    pub hp_with_mods: bool,
    pub od: Option<Number>,
    pub od_with_mods: bool,
    pub passed_objects: Option<u32>,
    pub hardrock_offsets: Option<bool>,
    pub lazer: Option<bool>,
    pub accuracy: Option<Number>,
    pub combo: Option<u32>,
    pub large_tick_hits: Option<u32>,
    pub small_tick_hits: Option<u32>,
    pub slider_end_hits: Option<u32>,
    pub n_geki: Option<u32>,
    pub n_katu: Option<u32>,
    pub n300: Option<u32>,
    pub n100: Option<u32>,
    pub n50: Option<u32>,
    pub misses: Option<u32>,
    pub hitresult_priority: JsHitResultPriority,
}

impl View for PerformanceArgs {
    type V = PerformanceArgsView;

    open spec fn view(&self) -> PerformanceArgsView {
        PerformanceArgsView {
            mods: self.mods@,
            clock_rate: self.clock_rate,
            ar: self.ar,
            ar_with_mods: self.ar_with_mods,
            cs: self.cs,
            cs_with_mods: self.cs_with_mods,
            hp: self.hp,
            hp_with_mods: self.hp_with_mods,
            od: self.od,
            od_with_mods: self.od_with_mods,
            passed_objects: self.passed_objects,
            hardrock_offsets: self.hardrock_offsets,
            lazer: self.lazer,
            accuracy: self.accuracy,
            combo: self.combo,
            large_tick_hits: self.large_tick_hits,
            small_tick_hits: self.small_tick_hits,
            slider_end_hits: self.slider_end_hits,
            n_geki: self.n_geki,
            n_katu: self.n_katu,
            n300: self.n300,
            n100: self.n100,
            n50: self.n50,
            misses: self.misses,
            hitresult_priority: self.hitresult_priority,
        }
    }
}

impl PerformanceArgsView {
    /// The schema: the fields of the difficulty settings, then what is known
    /// of the score, then how missing hitresults are to be generated. No
    /// field is required.
    pub open spec fn fields() -> Seq<FieldView> {
        common_fields() + seq![
            FieldView { name: "passedObjects"@, kind: FieldKind::Unsigned, required: false },
            FieldView { name: "hardrockOffsets"@, kind: FieldKind::Bool, required: false },
            FieldView { name: "lazer"@, kind: FieldKind::Bool, required: false },
            FieldView { name: "accuracy"@, kind: FieldKind::Float, required: false },
            FieldView { name: "combo"@, kind: FieldKind::Unsigned, required: false },
            FieldView { name: "largeTickHits"@, kind: FieldKind::Unsigned, required: false },
            FieldView { name: "smallTickHits"@, kind: FieldKind::Unsigned, required: false },
            FieldView { name: "sliderEndHits"@, kind: FieldKind::Unsigned, required: false },
            FieldView { name: "nGeki"@, kind: FieldKind::Unsigned, required: false },
            FieldView { name: "nKatu"@, kind: FieldKind::Unsigned, required: false },
            FieldView { name: "n300"@, kind: FieldKind::Unsigned, required: false },
            FieldView { name: "n100"@, kind: FieldKind::Unsigned, required: false },
            FieldView { name: "n50"@, kind: FieldKind::Unsigned, required: false },
            FieldView { name: "misses"@, kind: FieldKind::Unsigned, required: false },
            FieldView { name: "hitresultPriority"@, kind: FieldKind::Priority, required: false },
        ]
    }

    /// The settings that the slots of the schema stand for. A slot without a
    /// value leaves its field at the default.
    pub open spec fn from_slots(slots: Seq<SlotView>) -> PerformanceArgsView {
        PerformanceArgsView {
            mods: slots[0].mods(),
            clock_rate: slots[1].float(),
            ar: slots[2].float(),
            ar_with_mods: slots[3].flag(),
            cs: slots[4].float(),
            cs_with_mods: slots[5].flag(),
            hp: slots[6].float(),
            hp_with_mods: slots[7].flag(),
            od: slots[8].float(),
            od_with_mods: slots[9].flag(),
            passed_objects: slots[10].unsigned(),
            hardrock_offsets: slots[11].boolean(),
            lazer: slots[12].boolean(),
            accuracy: slots[13].float(),
            combo: slots[14].unsigned(),
            large_tick_hits: slots[15].unsigned(),
            small_tick_hits: slots[16].unsigned(),
            slider_end_hits: slots[17].unsigned(),
            n_geki: slots[18].unsigned(),
            n_katu: slots[19].unsigned(),
            n300: slots[20].unsigned(),
            n100: slots[21].unsigned(),
            n50: slots[22].unsigned(),
            misses: slots[23].unsigned(),
            hitresult_priority: slots[24].priority(),
        }
    }

    /// The difficulty settings among the settings.
    pub open spec fn difficulty(self) -> DifficultyArgsView {
        DifficultyArgsView {
            mods: self.mods,
            clock_rate: self.clock_rate,
            ar: self.ar,
            ar_with_mods: self.ar_with_mods,
            cs: self.cs,
            cs_with_mods: self.cs_with_mods,
            hp: self.hp,
            hp_with_mods: self.hp_with_mods,
            od: self.od,
            od_with_mods: self.od_with_mods,
            passed_objects: self.passed_objects,
            hardrock_offsets: self.hardrock_offsets,
        }
    }

    /// The calls that bring the settings to the builder of a performance
    /// calculation, in order: one call for each setting of the score that
    /// has a value, then the priority, then the difficulty settings, and
    /// last the lazer flag if it has a value. The flag comes after the
    /// difficulty settings because the builder keeps it among them: set
    /// before, it would be replaced together with them.
    pub open spec fn steps(self) -> Seq<PerformanceStep> {
        one_if(
            match self.accuracy {
                Some(v) => Some(PerformanceStep::Accuracy(v)),
                None => None,
            },
        ) + one_if(
            match self.combo {
                Some(v) => Some(PerformanceStep::Combo(v)),
                None => None,
            },
        ) + one_if(
            match self.large_tick_hits {
                Some(v) => Some(PerformanceStep::LargeTickHits(v)),
                None => None,
            },
        ) + one_if(
            match self.small_tick_hits {
                Some(v) => Some(PerformanceStep::SmallTickHits(v)),
                None => None,
            },
        ) + one_if(
            match self.slider_end_hits {
                Some(v) => Some(PerformanceStep::SliderEndHits(v)),
                None => None,
            },
        ) + one_if(
            match self.n_geki {
                Some(v) => Some(PerformanceStep::NGeki(v)),
                None => None,
            },
        ) + one_if(
            match self.n_katu {
                Some(v) => Some(PerformanceStep::NKatu(v)),
                None => None,
            },
        ) + one_if(
            match self.n300 {
                Some(v) => Some(PerformanceStep::N300(v)),
                None => None,
            },
        ) + one_if(
            match self.n100 {
                Some(v) => Some(PerformanceStep::N100(v)),
                None => None,
            },
        ) + one_if(
            match self.n50 {
                Some(v) => Some(PerformanceStep::N50(v)),
                None => None,
            },
        ) + one_if(
            match self.misses {
                Some(v) => Some(PerformanceStep::Misses(v)),
                None => None,
            },
        ) + seq![
            PerformanceStep::HitresultPriority(self.hitresult_priority),
            PerformanceStep::Difficulty,
        ] + one_if(
            match self.lazer {
                Some(v) => Some(PerformanceStep::Lazer(v)),
                None => None,
            },
        )
    }

    /// The slots that stand for the settings, one for each field of the
    /// schema.
    pub open spec fn slots(self) -> Seq<SlotView> {
        seq![
            SlotView::Mods(self.mods),
            float_slot(self.clock_rate),
            float_slot(self.ar),
            SlotView::Bool(self.ar_with_mods),
            float_slot(self.cs),
            SlotView::Bool(self.cs_with_mods),
            float_slot(self.hp),
            SlotView::Bool(self.hp_with_mods),
            float_slot(self.od),
            SlotView::Bool(self.od_with_mods),
            unsigned_slot(self.passed_objects),
            boolean_slot(self.hardrock_offsets),
            boolean_slot(self.lazer),
            float_slot(self.accuracy),
            unsigned_slot(self.combo),
            unsigned_slot(self.large_tick_hits),
            unsigned_slot(self.small_tick_hits),
            unsigned_slot(self.slider_end_hits),
            unsigned_slot(self.n_geki),
            unsigned_slot(self.n_katu),
            unsigned_slot(self.n300),
            unsigned_slot(self.n100),
            unsigned_slot(self.n50),
            unsigned_slot(self.misses),
            SlotView::Priority(self.hitresult_priority),
        ]
    }

    /// The object that stands for the settings: one entry for each field that
    /// has a value, under the field's key, in the order of the schema.
    pub open spec fn encode(self) -> HostValue {
        encode_slots(OBJECT_CLASS@, Self::fields(), self.slots())
    }

    /// What a host value decodes to: it must be a plain object, and its
    /// fields are decoded in the order of the schema.
    pub open spec fn decode(v: HostValue) -> Result<PerformanceArgsView, DecodeErrorView> {
        match decode_object(v, OBJECT_CLASS@, Self::fields()) {
            Ok(slots) => Ok(Self::from_slots(slots)),
            Err(e) => Err(e),
        }
    }
}

/// No two fields of the schema have the same name.
pub proof fn lemma_performance_names_distinct()
    ensures
        names_distinct(PerformanceArgsView::fields()),
{
    lemma_common_names();
    reveal_strlit("passedObjects");
    reveal_strlit("hardrockOffsets");
    reveal_strlit("lazer");
    reveal_strlit("accuracy");
    reveal_strlit("combo");
    reveal_strlit("largeTickHits");
    reveal_strlit("smallTickHits");
    reveal_strlit("sliderEndHits");
    reveal_strlit("nGeki");
    reveal_strlit("nKatu");
    reveal_strlit("n300");
    reveal_strlit("n100");
    reveal_strlit("n50");
    reveal_strlit("misses");
    reveal_strlit("hitresultPriority");
    assert("passedObjects"@.len() == 13 && "passedObjects"@[0] == 'p' &&
        "passedObjects"@[1] == 'a' && "passedObjects"@[3] == 's');
    assert("hardrockOffsets"@.len() == 15 && "hardrockOffsets"@[0] == 'h' &&
        "hardrockOffsets"@[1] == 'a' && "hardrockOffsets"@[3] == 'd' &&
        "hardrockOffsets"@[13] == 't');
    assert("lazer"@.len() == 5 && "lazer"@[0] == 'l' && "lazer"@[1] == 'a' && "lazer"@[3] == 'e');
    assert("accuracy"@.len() == 8 && "accuracy"@[0] == 'a' && "accuracy"@[1] == 'c' &&
        "accuracy"@[3] == 'u');
    assert("combo"@.len() == 5 && "combo"@[0] == 'c' && "combo"@[1] == 'o' && "combo"@[3] == 'b');
    assert("largeTickHits"@.len() == 13 && "largeTickHits"@[0] == 'l' &&
        "largeTickHits"@[1] == 'a' && "largeTickHits"@[3] == 'g');
    assert("smallTickHits"@.len() == 13 && "smallTickHits"@[0] == 's' &&
        "smallTickHits"@[1] == 'm' && "smallTickHits"@[3] == 'l');
    assert("sliderEndHits"@.len() == 13 && "sliderEndHits"@[0] == 's' &&
        "sliderEndHits"@[1] == 'l' && "sliderEndHits"@[3] == 'd');
    assert("nGeki"@.len() == 5 && "nGeki"@[0] == 'n' && "nGeki"@[1] == 'G' && "nGeki"@[3] == 'k');
    assert("nKatu"@.len() == 5 && "nKatu"@[0] == 'n' && "nKatu"@[1] == 'K' && "nKatu"@[3] == 't');
    assert("n300"@.len() == 4 && "n300"@[0] == 'n' && "n300"@[1] == '3' && "n300"@[3] == '0');
    assert("n100"@.len() == 4 && "n100"@[0] == 'n' && "n100"@[1] == '1' && "n100"@[3] == '0');
    assert("n50"@.len() == 3 && "n50"@[0] == 'n' && "n50"@[1] == '5');
    assert("misses"@.len() == 6 && "misses"@[0] == 'm' && "misses"@[1] == 'i' &&
        "misses"@[3] == 's');
    assert("hitresultPriority"@.len() == 17 && "hitresultPriority"@[0] == 'h' &&
        "hitresultPriority"@[1] == 'i' && "hitresultPriority"@[3] == 'r' &&
        "hitresultPriority"@[13] == 'r');
    let fields = PerformanceArgsView::fields();
    assert(fields.len() == 25);
    assert forall|i: int, j: int|
        0 <= i < fields.len() && 0 <= j < fields.len() && i != j implies (#[trigger] fields[i]).name
        != (#[trigger] fields[j]).name by {
        assert(i == 0 || i == 1 || i == 2 || i == 3 || i == 4 || i == 5 || i == 6 || i == 7 ||
            i == 8 || i == 9 || i == 10 || i == 11 || i == 12 || i == 13 || i == 14 ||
            i == 15 || i == 16 || i == 17 || i == 18 || i == 19 || i == 20 || i == 21 ||
            i == 22 || i == 23 || i == 24);
        assert(j == 0 || j == 1 || j == 2 || j == 3 || j == 4 || j == 5 || j == 6 || j == 7 ||
            j == 8 || j == 9 || j == 10 || j == 11 || j == 12 || j == 13 || j == 14 ||
            j == 15 || j == 16 || j == 17 || j == 18 || j == 19 || j == 20 || j == 21 ||
            j == 22 || j == 23 || j == 24);
    }
}

impl Default for PerformanceArgs {
    fn default() -> (r: PerformanceArgs)
        ensures
            r@ == PerformanceArgsView::from_slots(Seq::new(25, |i: int| SlotView::Missing)),
    {
        PerformanceArgs {
            mods: JsGameMods::default(),
            clock_rate: None,
            ar: None,
            ar_with_mods: false,
            cs: None,
            cs_with_mods: false,
            hp: None,
            hp_with_mods: false,
            od: None,
            od_with_mods: false,
            passed_objects: None,
            hardrock_offsets: None,
            lazer: None,
            accuracy: None,
            combo: None,
            large_tick_hits: None,
            small_tick_hits: None,
            slider_end_hits: None,
            n_geki: None,
            n_katu: None,
            n300: None,
            n100: None,
            n50: None,
            misses: None,
            hitresult_priority: JsHitResultPriority::BestCase,
        }
    }
}

impl Clone for PerformanceArgs {
    fn clone(&self) -> (r: PerformanceArgs)
        ensures
            r@ == self@,
    {
        PerformanceArgs {
            mods: self.mods.clone(),
            clock_rate: self.clock_rate,
            ar: self.ar,
            ar_with_mods: self.ar_with_mods,
            cs: self.cs,
            cs_with_mods: self.cs_with_mods,
            hp: self.hp,
            hp_with_mods: self.hp_with_mods,
            od: self.od,
            od_with_mods: self.od_with_mods,
            passed_objects: self.passed_objects,
            hardrock_offsets: self.hardrock_offsets,
            lazer: self.lazer,
            accuracy: self.accuracy,
            combo: self.combo,
            large_tick_hits: self.large_tick_hits,
            small_tick_hits: self.small_tick_hits,
            slider_end_hits: self.slider_end_hits,
            n_geki: self.n_geki,
            n_katu: self.n_katu,
            n300: self.n300,
            n100: self.n100,
            n50: self.n50,
            misses: self.misses,
            hitresult_priority: self.hitresult_priority,
        }
    }
}

impl PerformanceArgs {
    /// The difficulty settings among the settings.
    pub fn difficulty(&self) -> (r: DifficultyArgs)
        ensures
            r@ == self@.difficulty(),
    {
        DifficultyArgs {
            mods: self.mods.clone(),
            clock_rate: self.clock_rate,
            ar: self.ar,
            ar_with_mods: self.ar_with_mods,
            cs: self.cs,
            cs_with_mods: self.cs_with_mods,
            hp: self.hp,
            hp_with_mods: self.hp_with_mods,
            od: self.od,
            od_with_mods: self.od_with_mods,
            passed_objects: self.passed_objects,
            hardrock_offsets: self.hardrock_offsets,
        }
    }

    /// The calls for the accuracy, the combo and the tick hits that are there.
    fn push_score_steps(&self, steps: &mut Vec<PerformanceStep>)
        ensures
            final(steps)@ == old(steps)@ + one_if(
                match self@.accuracy {
                    Some(v) => Some(PerformanceStep::Accuracy(v)),
                    None => None,
                },
            ) + one_if(
                match self@.combo {
                    Some(v) => Some(PerformanceStep::Combo(v)),
                    None => None,
                },
            ) + one_if(
                match self@.large_tick_hits {
                    Some(v) => Some(PerformanceStep::LargeTickHits(v)),
                    None => None,
                },
            ) + one_if(
                match self@.small_tick_hits {
                    Some(v) => Some(PerformanceStep::SmallTickHits(v)),
                    None => None,
                },
            ),
    {
        push_if(
            steps,
            match self.accuracy {
                Some(v) => Some(PerformanceStep::Accuracy(v)),
                None => None,
            },
        );
        push_if(
            steps,
            match self.combo {
                Some(v) => Some(PerformanceStep::Combo(v)),
                None => None,
            },
        );
        push_if(
            steps,
            match self.large_tick_hits {
                Some(v) => Some(PerformanceStep::LargeTickHits(v)),
                None => None,
            },
        );
        push_if(
            steps,
            match self.small_tick_hits {
                Some(v) => Some(PerformanceStep::SmallTickHits(v)),
                None => None,
            },
        );
    }

    /// The calls for the slider ends, gekis, katus and 300s that are there.
    fn push_judgement_steps(&self, steps: &mut Vec<PerformanceStep>)
        ensures
            final(steps)@ == old(steps)@ + one_if(
                match self@.slider_end_hits {
                    Some(v) => Some(PerformanceStep::SliderEndHits(v)),
                    None => None,
                },
            ) + one_if(
                match self@.n_geki {
                    Some(v) => Some(PerformanceStep::NGeki(v)),
                    None => None,
                },
            ) + one_if(
                match self@.n_katu {
                    Some(v) => Some(PerformanceStep::NKatu(v)),
                    None => None,
                },
            ) + one_if(
                match self@.n300 {
                    Some(v) => Some(PerformanceStep::N300(v)),
                    None => None,
                },
            ),
    {
        push_if(
            steps,
            match self.slider_end_hits {
                Some(v) => Some(PerformanceStep::SliderEndHits(v)),
                None => None,
            },
        );
        push_if(
            steps,
            match self.n_geki {
                Some(v) => Some(PerformanceStep::NGeki(v)),
                None => None,
            },
        );
        push_if(
            steps,
            match self.n_katu {
                Some(v) => Some(PerformanceStep::NKatu(v)),
                None => None,
            },
        );
        push_if(
            steps,
            match self.n300 {
                Some(v) => Some(PerformanceStep::N300(v)),
                None => None,
            },
        );
    }

    /// The calls for the 100s, 50s and misses that are there.
    fn push_remaining_steps(&self, steps: &mut Vec<PerformanceStep>)
        ensures
            final(steps)@ == old(steps)@ + one_if(
                match self@.n100 {
                    Some(v) => Some(PerformanceStep::N100(v)),
                    None => None,
                },
            ) + one_if(
                match self@.n50 {
                    Some(v) => Some(PerformanceStep::N50(v)),
                    None => None,
                },
            ) + one_if(
                match self@.misses {
                    Some(v) => Some(PerformanceStep::Misses(v)),
                    None => None,
                },
            ),
    {
        push_if(
            steps,
            match self.n100 {
                Some(v) => Some(PerformanceStep::N100(v)),
                None => None,
            },
        );
        push_if(
            steps,
            match self.n50 {
                Some(v) => Some(PerformanceStep::N50(v)),
                None => None,
            },
        );
        push_if(
            steps,
            match self.misses {
                Some(v) => Some(PerformanceStep::Misses(v)),
                None => None,
            },
        );
    }

    /// The calls that bring the settings to the builder of a performance
    /// calculation, in the order in which they are to be made.
    pub fn apply(&self) -> (r: Vec<PerformanceStep>)
        ensures
            r@ == self@.steps(),
    {
        let mut steps: Vec<PerformanceStep> = Vec::new();
        self.push_score_steps(&mut steps);
        assert(steps@ =~= one_if(
            match self.accuracy {
                Some(v) => Some(PerformanceStep::Accuracy(v)),
                None => None,
            },
        ) + one_if(
            match self.combo {
                Some(v) => Some(PerformanceStep::Combo(v)),
                None => None,
            },
        ) + one_if(
            match self.large_tick_hits {
                Some(v) => Some(PerformanceStep::LargeTickHits(v)),
                None => None,
            },
        ) + one_if(
            match self.small_tick_hits {
                Some(v) => Some(PerformanceStep::SmallTickHits(v)),
                None => None,
            },
        ));
        self.push_judgement_steps(&mut steps);
        self.push_remaining_steps(&mut steps);
        let ghost before = steps@;
        steps.push(PerformanceStep::HitresultPriority(self.hitresult_priority));
        steps.push(PerformanceStep::Difficulty);
        assert(steps@ =~= before + seq![
            PerformanceStep::HitresultPriority(self.hitresult_priority),
            PerformanceStep::Difficulty,
        ]);
        push_if(
            &mut steps,
            match self.lazer {
                Some(v) => Some(PerformanceStep::Lazer(v)),
                None => None,
            },
        );
        steps
    }

    /// The schema.
    pub fn schema() -> (r: Vec<Field>)
        ensures
            fields_view(r@) == PerformanceArgsView::fields(),
    {
        let mut r = common_schema();
        r.push(Field { name: "passedObjects", kind: FieldKind::Unsigned, required: false });
        r.push(Field { name: "hardrockOffsets", kind: FieldKind::Bool, required: false });
        r.push(Field { name: "lazer", kind: FieldKind::Bool, required: false });
        r.push(Field { name: "accuracy", kind: FieldKind::Float, required: false });
        r.push(Field { name: "combo", kind: FieldKind::Unsigned, required: false });
        r.push(Field { name: "largeTickHits", kind: FieldKind::Unsigned, required: false });
        r.push(Field { name: "smallTickHits", kind: FieldKind::Unsigned, required: false });
        r.push(Field { name: "sliderEndHits", kind: FieldKind::Unsigned, required: false });
        r.push(Field { name: "nGeki", kind: FieldKind::Unsigned, required: false });
        r.push(Field { name: "nKatu", kind: FieldKind::Unsigned, required: false });
        r.push(Field { name: "n300", kind: FieldKind::Unsigned, required: false });
        r.push(Field { name: "n100", kind: FieldKind::Unsigned, required: false });
        r.push(Field { name: "n50", kind: FieldKind::Unsigned, required: false });
        r.push(Field { name: "misses", kind: FieldKind::Unsigned, required: false });
        r.push(Field { name: "hitresultPriority", kind: FieldKind::Priority, required: false });
        assert(fields_view(r@) =~= PerformanceArgsView::fields());
        r
    }

    /// Decodes the settings from a plain object.
    pub fn deserialize(d: &JsDeserializer) -> (r: Result<PerformanceArgs, DecodeError>)
        ensures
            result_view(r) == PerformanceArgsView::decode(d@),
    {
        let schema = Self::schema();
        let slots = decode_object_of(d, OBJECT_CLASS, &schema)?;
        proof {
            lemma_decoded_slots_len(d@, OBJECT_CLASS@, fields_view(schema@));
        }
        Ok(
            PerformanceArgs {
                mods: slots[0].mods(),
                clock_rate: slots[1].float(),
                ar: slots[2].float(),
                ar_with_mods: slots[3].flag(),
                cs: slots[4].float(),
                cs_with_mods: slots[5].flag(),
                hp: slots[6].float(),
                hp_with_mods: slots[7].flag(),
                od: slots[8].float(),
                od_with_mods: slots[9].flag(),
                passed_objects: slots[10].unsigned(),
                hardrock_offsets: slots[11].boolean(),
                lazer: slots[12].boolean(),
                accuracy: slots[13].float(),
                combo: slots[14].unsigned(),
                large_tick_hits: slots[15].unsigned(),
                small_tick_hits: slots[16].unsigned(),
                slider_end_hits: slots[17].unsigned(),
                n_geki: slots[18].unsigned(),
                n_katu: slots[19].unsigned(),
                n300: slots[20].unsigned(),
                n100: slots[21].unsigned(),
                n50: slots[22].unsigned(),
                misses: slots[23].unsigned(),
                hitresult_priority: slots[24].priority(),
            },
        )
    }

    /// The slots that stand for the settings, one for each field of the
    /// schema. A field without a value leaves its slot missing.
    pub fn to_slots(&self) -> (slots: Vec<Slot>)
        ensures
            slots_view(slots@) == self@.slots(),
            slots_conform(slots_view(slots@), PerformanceArgsView::fields()),
            PerformanceArgsView::from_slots(slots_view(slots@)) == self@,
    {
        let slots = vec![
            Slot::Mods(self.mods.clone()),
            Slot::from_float(self.clock_rate),
            Slot::from_float(self.ar),
            Slot::Bool(self.ar_with_mods),
            Slot::from_float(self.cs),
            Slot::Bool(self.cs_with_mods),
            Slot::from_float(self.hp),
            Slot::Bool(self.hp_with_mods),
            Slot::from_float(self.od),
            Slot::Bool(self.od_with_mods),
            Slot::from_unsigned(self.passed_objects),
            Slot::from_boolean(self.hardrock_offsets),
            Slot::from_boolean(self.lazer),
            Slot::from_float(self.accuracy),
            Slot::from_unsigned(self.combo),
            Slot::from_unsigned(self.large_tick_hits),
            Slot::from_unsigned(self.small_tick_hits),
            Slot::from_unsigned(self.slider_end_hits),
            Slot::from_unsigned(self.n_geki),
            Slot::from_unsigned(self.n_katu),
            Slot::from_unsigned(self.n300),
            Slot::from_unsigned(self.n100),
            Slot::from_unsigned(self.n50),
            Slot::from_unsigned(self.misses),
            Slot::Priority(self.hitresult_priority),
        ];
        proof {
            let views = slots_view(slots@);
            let fields = PerformanceArgsView::fields();
            assert(views.len() == 25 && fields.len() == 25);
            let wanted = self@.slots();
            assert(views[0] == wanted[0]);
            assert(views[1] == wanted[1]);
            assert(views[2] == wanted[2]);
            assert(views[3] == wanted[3]);
            assert(views[4] == wanted[4]);
            assert(views[5] == wanted[5]);
            assert(views[6] == wanted[6]);
            assert(views[7] == wanted[7]);
            assert(views[8] == wanted[8]);
            assert(views[9] == wanted[9]);
            assert(views[10] == wanted[10]);
            assert(views[11] == wanted[11]);
            assert(views[12] == wanted[12]);
            assert(views[13] == wanted[13]);
            assert(views[14] == wanted[14]);
            assert(views[15] == wanted[15]);
            assert(views[16] == wanted[16]);
            assert(views[17] == wanted[17]);
            assert(views[18] == wanted[18]);
            assert(views[19] == wanted[19]);
            assert(views[20] == wanted[20]);
            assert(views[21] == wanted[21]);
            assert(views[22] == wanted[22]);
            assert(views[23] == wanted[23]);
            assert(views[24] == wanted[24]);
            assert(views =~= wanted);
            assert(views[0].mods() == self@.mods);
            assert(views[1].float() == self@.clock_rate);
            assert(views[2].float() == self@.ar);
            assert(views[3].flag() == self@.ar_with_mods);
            assert(views[4].float() == self@.cs);
            assert(views[5].flag() == self@.cs_with_mods);
            assert(views[6].float() == self@.hp);
            assert(views[7].flag() == self@.hp_with_mods);
            assert(views[8].float() == self@.od);
            assert(views[9].flag() == self@.od_with_mods);
            assert(views[10].unsigned() == self@.passed_objects);
            assert(views[11].boolean() == self@.hardrock_offsets);
            assert(views[12].boolean() == self@.lazer);
            assert(views[13].float() == self@.accuracy);
            assert(views[14].unsigned() == self@.combo);
            assert(views[15].unsigned() == self@.large_tick_hits);
            assert(views[16].unsigned() == self@.small_tick_hits);
            assert(views[17].unsigned() == self@.slider_end_hits);
            assert(views[18].unsigned() == self@.n_geki);
            assert(views[19].unsigned() == self@.n_katu);
            assert(views[20].unsigned() == self@.n300);
            assert(views[21].unsigned() == self@.n100);
            assert(views[22].unsigned() == self@.n50);
            assert(views[23].unsigned() == self@.misses);
            assert(views[24].priority() == self@.hitresult_priority);
            assert forall|i: int| 0 <= i < views.len() implies (#[trigger] views[i]).conforms(
                fields[i],
            ) by {
                assert(i == 0 || i == 1 || i == 2 || i == 3 || i == 4 || i == 5 || i == 6 ||
                    i == 7 || i == 8 || i == 9 || i == 10 || i == 11 || i == 12 || i == 13 ||
                    i == 14 || i == 15 || i == 16 || i == 17 || i == 18 || i == 19 ||
                    i == 20 || i == 21 || i == 22 || i == 23 || i == 24);
            }
        }
        slots
    }

    /// The plain object that stands for the settings. A field without a
    /// value has no entry; every other field has one.
    ///
    /// Decoding the object gives the settings back.
    pub fn to_value(&self) -> (r: Value)
        ensures
            r@ == self@.encode(),
            PerformanceArgsView::decode(r@) == Ok::<_, DecodeErrorView>(self@),
    {
        let schema = Self::schema();
        let slots = self.to_slots();
        proof {
            lemma_performance_names_distinct();
        }
        encode_object(OBJECT_CLASS, &schema, &slots)
    }
}

/// Either previously calculated attributes or a beatmap.
#[derive(Clone, Copy, Debug, PartialEq, Eq)]
pub enum MapOrAttrs {
    Beatmap(BeatmapRef),
    Attrs(DifficultyAttributes),
}

impl MapOrAttrs {
    /// Flat attributes as an argument: they must be whole for their mode.
    pub open spec fn of_attributes(attrs: JsDifficultyAttributes) -> Result<
        MapOrAttrs,
        DecodeErrorView,
    > {
        match DifficultyAttributes::spec_try_from(attrs) {
            Ok(attrs) => Ok(MapOrAttrs::Attrs(attrs)),
            Err(e) => Err(e),
        }
    }

    /// What a host value is as an argument that may be attributes or a
    /// beatmap. Three readings are tried in a fixed order and the first that
    /// succeeds decides: the difficulty attributes of performance attributes,
    /// difficulty attributes, a beatmap. Attributes that are read must be
    /// whole for their mode; there is no way on from attributes that are not.
    /// A value that allows none of the readings is of the wrong type.
    pub open spec fn decode(v: HostValue) -> Result<MapOrAttrs, DecodeErrorView> {
        match JsPerformanceAttributes::decode_difficulty(v) {
            Ok(attrs) => Self::of_attributes(attrs),
            Err(_) => match JsDifficultyAttributes::decode(v) {
                Ok(attrs) => Self::of_attributes(attrs),
                Err(_) => match decode_beatmap(v) {
                    Ok(map) => Ok(MapOrAttrs::Beatmap(map)),
                    Err(_) => Err(invalid_type(Description::MapOrAttributes, v)),
                },
            },
        }
    }

    /// Decodes an argument that may be attributes or a beatmap.
    pub fn from_value(value: &Value) -> (r: Result<MapOrAttrs, DecodeError>)
        ensures
            outcome(r) == Self::decode(value@),
    {
        let d = JsDeserializer::from_ref(value);
        if let Ok(js_attrs) = JsPerformanceAttributes::deserialize_difficulty(&d) {
            return match DifficultyAttributes::try_from(js_attrs) {
                Ok(attrs) => Ok(MapOrAttrs::Attrs(attrs)),
                Err(e) => Err(e),
            };
        }
        if let Ok(js_attrs) = JsDifficultyAttributes::deserialize(&d) {
            return match DifficultyAttributes::try_from(js_attrs) {
                Ok(attrs) => Ok(MapOrAttrs::Attrs(attrs)),
                Err(e) => Err(e),
            };
        }
        if let Ok(map) = JsBeatmap::deserialize(&d) {
            return Ok(MapOrAttrs::Beatmap(map));
        }
        d.invalid_type(Description::MapOrAttributes)
    }
}

} // verus!
