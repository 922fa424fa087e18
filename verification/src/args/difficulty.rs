//! Settings of a difficulty calculation.

use crate::args::common::{common_fields, common_schema, lemma_common_names, one_if, push_if};
use crate::deserializer::JsDeserializer;
use crate::error::{DecodeError, DecodeErrorView, result_view};
use crate::mods::{JsGameMods, JsGameModsView};
use crate::number::Number;
use crate::schema::{
    boolean_slot, decode_object, decode_object_of, encode_object, encode_slots, Field, FieldKind,
    fields_view, FieldView, float_slot, lemma_decoded_slots_len, names_distinct, Slot,
    slots_conform, slots_view, SlotView, unsigned_slot,
};
use crate::value::{HostValue, Value};
use vstd::prelude::*;

verus! {

/// The name that the type of a plain settings object reports.
pub const OBJECT_CLASS: &'static str = "Object";

/// One call on the builder of a difficulty calculation.
#[derive(Clone, Copy, Debug, PartialEq, Eq)]
pub enum DifficultyStep {
    /// Hand over the mods of the settings.
    Mods,
    PassedObjects(u32),
    ClockRate(Number),
    /// An approach rate, and whether it is meant with mods applied.
    Ar(Number, bool),
    /// A circle size, and whether it is meant with mods applied.
    Cs(Number, bool),
    /// A drain rate, and whether it is meant with mods applied.
    Hp(Number, bool),
    /// An overall difficulty, and whether it is meant with mods applied.
    Od(Number, bool),
    HardrockOffsets(bool),
}

/// The settings of a difficulty calculation.
#[derive(Debug, PartialEq, Eq)]
pub struct DifficultyArgs {
    pub mods: JsGameMods,
    pub clock_rate: Option<Number>,
    pub ar: Option<Number>,
    pub ar_with_mods: bool,
    pub cs: Option<Number>,
    pub cs_with_mods: bool,
    pub hp: Option<Number>,
    pub hp_with_mods: bool,
    pub od: Option<Number>,
    pub od_with_mods: bool,
    pub passed_objects: Option<u32>,
    pub hardrock_offsets: Option<bool>,
}

/// The view of [`DifficultyArgs`].
pub ghost struct DifficultyArgsView {
    pub mods: JsGameModsView,
    pub clock_rate: Option<Number>,
    pub ar: Option<Number>,
    pub ar_with_mods: bool,
    pub cs: Option<Number>,
    pub cs_with_mods: bool,
    pub hp: Option<Number>,
    pub hp_with_mods: bool,
    pub od: Option<Number>,
    pub od_with_mods: bool,
    pub passed_objects: Option<u32>,
    pub hardrock_offsets: Option<bool>,
}

impl View for DifficultyArgs {
    type V = DifficultyArgsView;

    open spec fn view(&self) -> DifficultyArgsView {
        DifficultyArgsView {
            mods: self.mods@,
            clock_rate: self.clock_rate,
            ar: self.ar,
            ar_with_mods: self.ar_with_mods,
            cs: self.cs,
            cs_with_mods: self.cs_with_mods,
            hp: self.hp,
            hp_with_mods: self.hp_with_mods,
            od: self.od,
            od_with_mods: self.od_with_mods,
            passed_objects: self.passed_objects,
            hardrock_offsets: self.hardrock_offsets,
        }
    }
}

impl DifficultyArgsView {
    /// The schema: the common fields, then the count of passed objects and
    /// the flag for hardrock offsets. No field is required.
    pub open spec fn fields() -> Seq<FieldView> {
        common_fields() + seq![
            FieldView { name: "passedObjects"@, kind: FieldKind::Unsigned, required: false },
            FieldView { name: "hardrockOffsets"@, kind: FieldKind::Bool, required: false },
        ]
    }

    /// The settings that the slots of the schema stand for. A slot without a
    /// value leaves its field at the default.
    pub open spec fn from_slots(slots: Seq<SlotView>) -> DifficultyArgsView {
        DifficultyArgsView {
            mods: slots[0].mods(),
            clock_rate: slots[1].float(),
            ar: slots[2].float(),
            ar_with_mods: slots[3].flag(),
            cs: slots[4].float(),
            cs_with_mods: slots[5].flag(),
            hp: slots[6].float(),
            hp_with_mods: slots[7].flag(),
            od: slots[8].float(),
            od_with_mods: slots[9].flag(),
            passed_objects: slots[10].unsigned(),
            hardrock_offsets: slots[11].boolean(),
        }
    }

    /// The calls that bring the settings to the builder of a difficulty
    /// calculation, in order: the mods always, then one call for each
    /// setting that has a value. An override goes with its flag.
    pub open spec fn steps(self) -> Seq<DifficultyStep> {
        seq![DifficultyStep::Mods] + one_if(
            match self.passed_objects {
                Some(n) => Some(DifficultyStep::PassedObjects(n)),
                None => None,
            },
        ) + one_if(
            match self.clock_rate {
                Some(rate) => Some(DifficultyStep::ClockRate(rate)),
                None => None,
            },
        ) + one_if(
            match self.ar {
                Some(ar) => Some(DifficultyStep::Ar(ar, self.ar_with_mods)),
                None => None,
            },
        ) + one_if(
            match self.cs {
                Some(cs) => Some(DifficultyStep::Cs(cs, self.cs_with_mods)),
                None => None,
            },
        ) + one_if(
            match self.hp {
                Some(hp) => Some(DifficultyStep::Hp(hp, self.hp_with_mods)),
                None => None,
            },
        ) + one_if(
            match self.od {
                Some(od) => Some(DifficultyStep::Od(od, self.od_with_mods)),
                None => None,
            },
        ) + one_if(
            match self.hardrock_offsets {
                Some(flag) => Some(DifficultyStep::HardrockOffsets(flag)),
                None => None,
            },
        )
    }

    /// The slots that stand for the settings, one for each field of the
    /// schema.
    pub open spec fn slots(self) -> Seq<SlotView> {
        seq![
            SlotView::Mods(self.mods),
            float_slot(self.clock_rate),
            float_slot(self.ar),
            SlotView::Bool(self.ar_with_mods),
            float_slot(self.cs),
            SlotView::Bool(self.cs_with_mods),
            float_slot(self.hp),
            SlotView::Bool(self.hp_with_mods),
            float_slot(self.od),
            SlotView::Bool(self.od_with_mods),
            unsigned_slot(self.passed_objects),
            boolean_slot(self.hardrock_offsets),
        ]
    }

    /// The object that stands for the settings: one entry for each field that
    /// has a value, under the field's key, in the order of the schema.
    pub open spec fn encode(self) -> HostValue {
        encode_slots(OBJECT_CLASS@, Self::fields(), self.slots())
    }

    /// What a host value decodes to: it must be a plain object, and its
    /// fields are decoded in the order of the schema.
    pub open spec fn decode(v: HostValue) -> Result<DifficultyArgsView, DecodeErrorView> {
        match decode_object(v, OBJECT_CLASS@, Self::fields()) {
            Ok(slots) => Ok(Self::from_slots(slots)),
            Err(e) => Err(e),
        }
    }
}

/// No two fields of the schema have the same name.
pub proof fn lemma_difficulty_names_distinct()
    ensures
        names_distinct(DifficultyArgsView::fields()),
{
    lemma_common_names();
    reveal_strlit("passedObjects");
    reveal_strlit("hardrockOffsets");
    assert("passedObjects"@.len() == 13 && "passedObjects"@[0] == 'p' &&
        "passedObjects"@[1] == 'a' && "passedObjects"@[3] == 's');
    assert("hardrockOffsets"@.len() == 15 && "hardrockOffsets"@[0] == 'h' &&
        "hardrockOffsets"@[1] == 'a' && "hardrockOffsets"@[3] == 'd' &&
        "hardrockOffsets"@[13] == 't');
    let fields = DifficultyArgsView::fields();
    assert(fields.len() == 12);
    assert forall|i: int, j: int|
        0 <= i < fields.len() && 0 <= j < fields.len() && i != j implies (#[trigger] fields[i]).name
        != (#[trigger] fields[j]).name by {
        assert(i == 0 || i == 1 || i == 2 || i == 3 || i == 4 || i == 5 || i == 6 || i == 7 ||
            i == 8 || i == 9 || i == 10 || i == 11);
        assert(j == 0 || j == 1 || j == 2 || j == 3 || j == 4 || j == 5 || j == 6 || j == 7 ||
            j == 8 || j == 9 || j == 10 || j == 11);
    }
}

impl Default for DifficultyArgs {
    fn default() -> (r: DifficultyArgs)
        ensures
            r@ == DifficultyArgsView::from_slots(Seq::new(12, |i: int| SlotView::Missing)),
    {
        DifficultyArgs {
            mods: JsGameMods::default(),
            clock_rate: None,
            ar: None,
            ar_with_mods: false,
            cs: None,
            cs_with_mods: false,
            hp: None,
            hp_with_mods: false,
            od: None,
            od_with_mods: false,
            passed_objects: None,
            hardrock_offsets: None,
        }
    }
}

impl Clone for DifficultyArgs {
    fn clone(&self) -> (r: DifficultyArgs)
        ensures
            r@ == self@,
    {
        DifficultyArgs {
            mods: self.mods.clone(),
            clock_rate: self.clock_rate,
            ar: self.ar,
            ar_with_mods: self.ar_with_mods,
            cs: self.cs,
            cs_with_mods: self.cs_with_mods,
            hp: self.hp,
            hp_with_mods: self.hp_with_mods,
            od: self.od,
            od_with_mods: self.od_with_mods,
            passed_objects: self.passed_objects,
            hardrock_offsets: self.hardrock_offsets,
        }
    }
}

impl DifficultyArgs {
    /// The calls that bring the settings to the builder of a difficulty
    /// calculation, in the order in which they are to be made.
    pub fn to_difficulty(&self) -> (r: Vec<DifficultyStep>)
        ensures
            r@ == self@.steps(),
    {
        let mut steps: Vec<DifficultyStep> = Vec::new();
        steps.push(DifficultyStep::Mods);
        assert(steps@ =~= seq![DifficultyStep::Mods]);
        push_if(
            &mut steps,
            match self.passed_objects {
                Some(v) => Some(DifficultyStep::PassedObjects(v)),
                None => None,
            },
        );
        push_if(
            &mut steps,
            match self.clock_rate {
                Some(v) => Some(DifficultyStep::ClockRate(v)),
                None => None,
            },
        );
        push_if(
            &mut steps,
            match self.ar {
                Some(v) => Some(DifficultyStep::Ar(v, self.ar_with_mods)),
                None => None,
            },
        );
        push_if(
            &mut steps,
            match self.cs {
                Some(v) => Some(DifficultyStep::Cs(v, self.cs_with_mods)),
                None => None,
            },
        );
        push_if(
            &mut steps,
            match self.hp {
                Some(v) => Some(DifficultyStep::Hp(v, self.hp_with_mods)),
                None => None,
            },
        );
        push_if(
            &mut steps,
            match self.od {
                Some(v) => Some(DifficultyStep::Od(v, self.od_with_mods)),
                None => None,
            },
        );
        push_if(
            &mut steps,
            match self.hardrock_offsets {
                Some(v) => Some(DifficultyStep::HardrockOffsets(v)),
                None => None,
            },
        );
        steps
    }

    /// The schema.
    pub fn schema() -> (r: Vec<Field>)
        ensures
            fields_view(r@) == DifficultyArgsView::fields(),
    {
        let mut r = common_schema();
        r.push(Field { name: "passedObjects", kind: FieldKind::Unsigned, required: false });
        r.push(Field { name: "hardrockOffsets", kind: FieldKind::Bool, required: false });
        assert(fields_view(r@) =~= DifficultyArgsView::fields());
        r
    }

    /// Decodes the settings from a plain object.
    pub fn deserialize(d: &JsDeserializer) -> (r: Result<DifficultyArgs, DecodeError>)
        ensures
            result_view(r) == DifficultyArgsView::decode(d@),
    {
        let schema = Self::schema();
        let slots = decode_object_of(d, OBJECT_CLASS, &schema)?;
        proof {
            lemma_decoded_slots_len(d@, OBJECT_CLASS@, fields_view(schema@));
        }
        Ok(
            DifficultyArgs {
                mods: slots[0].mods(),
                clock_rate: slots[1].float(),
                ar: slots[2].float(),
                ar_with_mods: slots[3].flag(),
                cs: slots[4].float(),
                cs_with_mods: slots[5].flag(),
                hp: slots[6].float(),
                hp_with_mods: slots[7].flag(),
                od: slots[8].float(),
                od_with_mods: slots[9].flag(),
                passed_objects: slots[10].unsigned(),
                hardrock_offsets: slots[11].boolean(),
            },
        )
    }

    /// The slots that stand for the settings, one for each field of the
    /// schema. A field without a value leaves its slot missing.
    pub fn to_slots(&self) -> (slots: Vec<Slot>)
        ensures
            slots_view(slots@) == self@.slots(),
            slots_conform(slots_view(slots@), DifficultyArgsView::fields()),
            DifficultyArgsView::from_slots(slots_view(slots@)) == self@,
    {
        let slots = vec![
            Slot::Mods(self.mods.clone()),
            Slot::from_float(self.clock_rate),
            Slot::from_float(self.ar),
            Slot::Bool(self.ar_with_mods),
            Slot::from_float(self.cs),
            Slot::Bool(self.cs_with_mods),
            Slot::from_float(self.hp),
            Slot::Bool(self.hp_with_mods),
            Slot::from_float(self.od),
            Slot::Bool(self.od_with_mods),
            Slot::from_unsigned(self.passed_objects),
            Slot::from_boolean(self.hardrock_offsets),
        ];
        proof {
            let views = slots_view(slots@);
            let fields = DifficultyArgsView::fields();
            assert(views.len() == 12 && fields.len() == 12);
            let wanted = self@.slots();
            assert(views[0] == wanted[0]);
            assert(views[1] == wanted[1]);
            assert(views[2] == wanted[2]);
            assert(views[3] == wanted[3]);
            assert(views[4] == wanted[4]);
            assert(views[5] == wanted[5]);
            assert(views[6] == wanted[6]);
            assert(views[7] == wanted[7]);
            assert(views[8] == wanted[8]);
            assert(views[9] == wanted[9]);
            assert(views[10] == wanted[10]);
            assert(views[11] == wanted[11]);
            assert(views =~= wanted);
            assert(views[0].mods() == self@.mods);
            assert(views[1].float() == self@.clock_rate);
            assert(views[2].float() == self@.ar);
            assert(views[3].flag() == self@.ar_with_mods);
            assert(views[4].float() == self@.cs);
            assert(views[5].flag() == self@.cs_with_mods);
            assert(views[6].float() == self@.hp);
            assert(views[7].flag() == self@.hp_with_mods);
            assert(views[8].float() == self@.od);
            assert(views[9].flag() == self@.od_with_mods);
            assert(views[10].unsigned() == self@.passed_objects);
            assert(views[11].boolean() == self@.hardrock_offsets);
            assert forall|i: int| 0 <= i < views.len() implies (#[trigger] views[i]).conforms(
                fields[i],
            ) by {
                assert(i == 0 || i == 1 || i == 2 || i == 3 || i == 4 || i == 5 || i == 6 ||
                    i == 7 || i == 8 || i == 9 || i == 10 || i == 11);
            }
        }
        slots
    }

    /// The plain object that stands for the settings. A field without a
    /// value has no entry; every other field has one.
    ///
    /// Decoding the object gives the settings back.
    pub fn to_value(&self) -> (r: Value)
        ensures
            r@ == self@.encode(),
            DifficultyArgsView::decode(r@) == Ok::<_, DecodeErrorView>(self@),
    {
        let schema = Self::schema();
        let slots = self.to_slots();
        proof {
            lemma_difficulty_names_distinct();
        }
        encode_object(OBJECT_CLASS, &schema, &slots)
    }
}

} // verus!
