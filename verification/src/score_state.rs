//! The state of a score: what has been hit so far.

use crate::args::difficulty::OBJECT_CLASS;
use crate::deserializer::{JsDeserializer, outcome};
use crate::error::{DecodeError, DecodeErrorView};
use crate::schema::{
    decode_object, decode_object_of, encode_entries, encode_object, encode_slots, entry_of, Field,
    FieldKind, fields_view, FieldView, lemma_decoded_slots_len, lemma_encode_all_filled,
    names_distinct, Slot, slots_conform, slots_view, SlotView,
};
use crate::value::{HostValue, Value};
use vstd::prelude::*;

verus! {

/// The counters of a partial or complete play. Each of them is zero where
/// the caller does not say otherwise.
#[derive(Clone, Copy, Debug, PartialEq, Eq, Hash)]
pub struct ScoreState {
    /// Maximum combo that the score has had so far. **Not** the maximum
    /// possible combo of the map so far.
    pub max_combo: u32,
    /// "Large tick" hits for osu!standard.
    pub osu_large_tick_hits: u32,
    /// "Small tick" hits for osu!standard.
    pub osu_small_tick_hits: u32,
    /// Amount of successfully hit slider ends.
    pub slider_end_hits: u32,
    /// Amount of current gekis (n320 for osu!mania).
    pub n_geki: u32,
    /// Amount of current katus (tiny droplet misses for osu!catch / n200 for
    /// osu!mania).
    pub n_katu: u32,
    /// Amount of current 300s (fruits for osu!catch).
    pub n300: u32,
    /// Amount of current 100s (droplets for osu!catch).
    pub n100: u32,
    /// Amount of current 50s (tiny droplets for osu!catch).
    pub n50: u32,
    /// Amount of current misses (fruits + droplets for osu!catch).
    pub misses: u32,
}

/// A score state as the host holds it: a plain object with one entry for each
/// counter.
#[derive(Debug, PartialEq, Eq)]
pub struct JsScoreState {
    pub value: Value,
}

impl View for ScoreState {
    type V = ScoreState;

    open spec fn view(&self) -> ScoreState {
        *self
    }
}

impl Default for ScoreState {
    fn default() -> (r: ScoreState)
        ensures
            r == ScoreState::from_slots(Seq::new(10, |i: int| SlotView::Missing)),
    {
        ScoreState {
            max_combo: 0,
            osu_large_tick_hits: 0,
            osu_small_tick_hits: 0,
            slider_end_hits: 0,
            n_geki: 0,
            n_katu: 0,
            n300: 0,
            n100: 0,
            n50: 0,
            misses: 0,
        }
    }
}

impl ScoreState {
    /// The schema: ten counters, none of them required.
    pub open spec fn fields() -> Seq<FieldView> {
        seq![
            FieldView { name: "maxCombo"@, kind: FieldKind::Unsigned, required: false },
            FieldView { name: "osuLargeTickHits"@, kind: FieldKind::Unsigned, required: false },
            FieldView { name: "osuSmallTickHits"@, kind: FieldKind::Unsigned, required: false },
            FieldView { name: "sliderEndHits"@, kind: FieldKind::Unsigned, required: false },
            FieldView { name: "nGeki"@, kind: FieldKind::Unsigned, required: false },
            FieldView { name: "nKatu"@, kind: FieldKind::Unsigned, required: false },
            FieldView { name: "n300"@, kind: FieldKind::Unsigned, required: false },
            FieldView { name: "n100"@, kind: FieldKind::Unsigned, required: false },
            FieldView { name: "n50"@, kind: FieldKind::Unsigned, required: false },
            FieldView { name: "misses"@, kind: FieldKind::Unsigned, required: false },
        ]
    }

    /// The state that the slots of the schema stand for. A slot without a
    /// value leaves its field at the default.
    pub open spec fn from_slots(slots: Seq<SlotView>) -> ScoreState {
        ScoreState {
            max_combo: slots[0].count(),
            osu_large_tick_hits: slots[1].count(),
            osu_small_tick_hits: slots[2].count(),
            slider_end_hits: slots[3].count(),
            n_geki: slots[4].count(),
            n_katu: slots[5].count(),
            n300: slots[6].count(),
            n100: slots[7].count(),
            n50: slots[8].count(),
            misses: slots[9].count(),
        }
    }

    /// The slots that stand for the state, one for each field of the
    /// schema.
    pub open spec fn slots(self) -> Seq<SlotView> {
        seq![
            SlotView::Unsigned(self.max_combo),
            SlotView::Unsigned(self.osu_large_tick_hits),
            SlotView::Unsigned(self.osu_small_tick_hits),
            SlotView::Unsigned(self.slider_end_hits),
            SlotView::Unsigned(self.n_geki),
            SlotView::Unsigned(self.n_katu),
            SlotView::Unsigned(self.n300),
            SlotView::Unsigned(self.n100),
            SlotView::Unsigned(self.n50),
            SlotView::Unsigned(self.misses),
        ]
    }

    /// The object that stands for the state: one entry for each field that
    /// has a value, under the field's key, in the order of the schema.
    pub open spec fn encode(self) -> HostValue {
        encode_slots(OBJECT_CLASS@, Self::fields(), self.slots())
    }

    /// What a host value decodes to: it must be a plain object, and its
    /// fields are decoded in the order of the schema.
    pub open spec fn decode(v: HostValue) -> Result<ScoreState, DecodeErrorView> {
        match decode_object(v, OBJECT_CLASS@, Self::fields()) {
            Ok(slots) => Ok(Self::from_slots(slots)),
            Err(e) => Err(e),
        }
    }

    /// The schema.
    pub fn schema() -> (r: Vec<Field>)
        ensures
            fields_view(r@) == Self::fields(),
    {
        let r = vec![
            Field { name: "maxCombo", kind: FieldKind::Unsigned, required: false },
            Field { name: "osuLargeTickHits", kind: FieldKind::Unsigned, required: false },
            Field { name: "osuSmallTickHits", kind: FieldKind::Unsigned, required: false },
            Field { name: "sliderEndHits", kind: FieldKind::Unsigned, required: false },
            Field { name: "nGeki", kind: FieldKind::Unsigned, required: false },
            Field { name: "nKatu", kind: FieldKind::Unsigned, required: false },
            Field { name: "n300", kind: FieldKind::Unsigned, required: false },
            Field { name: "n100", kind: FieldKind::Unsigned, required: false },
            Field { name: "n50", kind: FieldKind::Unsigned, required: false },
            Field { name: "misses", kind: FieldKind::Unsigned, required: false },
        ];
        assert(fields_view(r@) =~= Self::fields());
        r
    }

    /// The state that decoded slots stand for.
    pub fn from_decoded(slots: &Vec<Slot>) -> (r: ScoreState)
        requires
            slots.len() == 10,
        ensures
            r == Self::from_slots(slots_view(slots@)),
    {
        ScoreState {
            max_combo: slots[0].count(),
            osu_large_tick_hits: slots[1].count(),
            osu_small_tick_hits: slots[2].count(),
            slider_end_hits: slots[3].count(),
            n_geki: slots[4].count(),
            n_katu: slots[5].count(),
            n300: slots[6].count(),
            n100: slots[7].count(),
            n50: slots[8].count(),
            misses: slots[9].count(),
        }
    }

    /// The slots that stand for the state, one for each field of the
    /// schema. A field without a value leaves its slot missing.
    pub fn to_slots(&self) -> (slots: Vec<Slot>)
        ensures
            slots_view(slots@) == self.slots(),
            slots_conform(slots_view(slots@), Self::fields()),
            Self::from_slots(slots_view(slots@)) == *self,
    {
        let slots = vec![
            Slot::Unsigned(self.max_combo),
            Slot::Unsigned(self.osu_large_tick_hits),
            Slot::Unsigned(self.osu_small_tick_hits),
            Slot::Unsigned(self.slider_end_hits),
            Slot::Unsigned(self.n_geki),
            Slot::Unsigned(self.n_katu),
            Slot::Unsigned(self.n300),
            Slot::Unsigned(self.n100),
            Slot::Unsigned(self.n50),
            Slot::Unsigned(self.misses),
        ];
        proof {
            let views = slots_view(slots@);
            let fields = Self::fields();
            assert(views.len() == 10 && fields.len() == 10);
            let wanted = self.slots();
            assert(views[0] == wanted[0]);
            assert(views[1] == wanted[1]);
            assert(views[2] == wanted[2]);
            assert(views[3] == wanted[3]);
            assert(views[4] == wanted[4]);
            assert(views[5] == wanted[5]);
            assert(views[6] == wanted[6]);
            assert(views[7] == wanted[7]);
            assert(views[8] == wanted[8]);
            assert(views[9] == wanted[9]);
            assert(views =~= wanted);
            assert(views[0].count() == self.max_combo);
            assert(views[1].count() == self.osu_large_tick_hits);
            assert(views[2].count() == self.osu_small_tick_hits);
            assert(views[3].count() == self.slider_end_hits);
            assert(views[4].count() == self.n_geki);
            assert(views[5].count() == self.n_katu);
            assert(views[6].count() == self.n300);
            assert(views[7].count() == self.n100);
            assert(views[8].count() == self.n50);
            assert(views[9].count() == self.misses);
            assert forall|i: int| 0 <= i < views.len() implies (#[trigger] views[i]).conforms(
                fields[i],
            ) by {
                assert(i == 0 || i == 1 || i == 2 || i == 3 || i == 4 || i == 5 || i == 6 ||
                    i == 7 || i == 8 || i == 9);
            }
        }
        slots
    }
}

/// The object that stands for a score state is a plain object of exactly
/// ten entries: one for each counter, under the counter's key and with the
/// counter's number, in the order of the schema.
pub proof fn lemma_score_state_entries(state: ScoreState)
    ensures
        state.encode() == (HostValue::Object {
            class_name: OBJECT_CLASS@,
            entries: Seq::new(
                10,
                |i: int| entry_of(ScoreState::fields(), state.slots(), i),
            ),
        }),
{
    lemma_encode_all_filled(ScoreState::fields(), state.slots());
    assert(encode_entries(ScoreState::fields(), state.slots()) =~= Seq::new(
        10,
        |i: int| entry_of(ScoreState::fields(), state.slots(), i),
    ));
}

/// No two fields of the schema have the same name.
pub proof fn lemma_score_state_names_distinct()
    ensures
        names_distinct(ScoreState::fields()),
{
    reveal_strlit("maxCombo");
    reveal_strlit("osuLargeTickHits");
    reveal_strlit("osuSmallTickHits");
    reveal_strlit("sliderEndHits");
    reveal_strlit("nGeki");
    reveal_strlit("nKatu");
    reveal_strlit("n300");
    reveal_strlit("n100");
    reveal_strlit("n50");
    reveal_strlit("misses");
    assert("maxCombo"@.len() == 8 && "maxCombo"@[0] == 'm' && "maxCombo"@[1] == 'a' &&
        "maxCombo"@[3] == 'C');
    assert("osuLargeTickHits"@.len() == 16 && "osuLargeTickHits"@[0] == 'o' &&
        "osuLargeTickHits"@[1] == 's' && "osuLargeTickHits"@[3] == 'L' &&
        "osuLargeTickHits"@[13] == 'i');
    assert("osuSmallTickHits"@.len() == 16 && "osuSmallTickHits"@[0] == 'o' &&
        "osuSmallTickHits"@[1] == 's' && "osuSmallTickHits"@[3] == 'S' &&
        "osuSmallTickHits"@[13] == 'i');
    assert("sliderEndHits"@.len() == 13 && "sliderEndHits"@[0] == 's' &&
        "sliderEndHits"@[1] == 'l' && "sliderEndHits"@[3] == 'd');
    assert("nGeki"@.len() == 5 && "nGeki"@[0] == 'n' && "nGeki"@[1] == 'G' && "nGeki"@[3] == 'k');
    assert("nKatu"@.len() == 5 && "nKatu"@[0] == 'n' && "nKatu"@[1] == 'K' && "nKatu"@[3] == 't');
    assert("n300"@.len() == 4 && "n300"@[0] == 'n' && "n300"@[1] == '3' && "n300"@[3] == '0');
    assert("n100"@.len() == 4 && "n100"@[0] == 'n' && "n100"@[1] == '1' && "n100"@[3] == '0');
    assert("n50"@.len() == 3 && "n50"@[0] == 'n' && "n50"@[1] == '5');
    assert("misses"@.len() == 6 && "misses"@[0] == 'm' && "misses"@[1] == 'i' &&
        "misses"@[3] == 's');
    let fields = ScoreState::fields();
    assert(fields.len() == 10);
    assert forall|i: int, j: int|
        0 <= i < fields.len() && 0 <= j < fields.len() && i != j implies (#[trigger] fields[i]).name
        != (#[trigger] fields[j]).name by {
        assert(i == 0 || i == 1 || i == 2 || i == 3 || i == 4 || i == 5 || i == 6 || i == 7 ||
            i == 8 || i == 9);
        assert(j == 0 || j == 1 || j == 2 || j == 3 || j == 4 || j == 5 || j == 6 || j == 7 ||
            j == 8 || j == 9);
    }
}

impl JsScoreState {
    /// Decodes a score state from a plain object.
    pub fn deserialize(d: &JsDeserializer) -> (r: Result<ScoreState, DecodeError>)
        ensures
            outcome(r) == ScoreState::decode(d@),
    {
        let schema = ScoreState::schema();
        let slots = decode_object_of(d, OBJECT_CLASS, &schema)?;
        proof {
            lemma_decoded_slots_len(d@, OBJECT_CLASS@, fields_view(schema@));
        }
        Ok(ScoreState::from_decoded(&slots))
    }

    /// The plain object that stands for the state, with an entry for every
    /// counter.
    ///
    /// Decoding the object gives the state back.
    pub fn from(state: ScoreState) -> (r: JsScoreState)
        ensures
            r.value@ == state.encode(),
            ScoreState::decode(r.value@) == Ok::<_, DecodeErrorView>(state),
    {
        let schema = ScoreState::schema();
        let slots = state.to_slots();
        proof {
            lemma_score_state_names_distinct();
        }
        JsScoreState { value: encode_object(OBJECT_CLASS, &schema, &slots) }
    }
}

} // verus!
