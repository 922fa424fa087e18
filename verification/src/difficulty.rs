//! The builder for a difficulty calculation.

use crate::args::difficulty::{DifficultyArgs, DifficultyArgsView};
use crate::deserializer::JsDeserializer;
use crate::error::{DecodeError, result_view};
use crate::mods::{decode_mods, JsGameMods, no_mods};
use crate::number::Number;
use crate::schema::SlotView;
use crate::value::Value;
use vstd::prelude::*;

verus! {

/// Builder for a difficulty calculation.
#[derive(Debug, PartialEq, Eq)]
pub struct JsDifficulty {
    pub args: DifficultyArgs,
}

impl View for JsDifficulty {
    type V = DifficultyArgsView;

    open spec fn view(&self) -> DifficultyArgsView {
        self.args@
    }
}

impl Clone for JsDifficulty {
    fn clone(&self) -> (r: JsDifficulty)
        ensures
            r@ == self@,
    {
        JsDifficulty { args: self.args.clone() }
    }
}

impl JsDifficulty {
    /// Creates a new difficulty calculator from the settings that a host value holds,
    /// or from the default settings where there is none.
    pub fn new(args: Option<&Value>) -> (r: Result<JsDifficulty, DecodeError>)
        ensures
            result_view(r) == match args {
                Some(v) => DifficultyArgsView::decode(v@),
                None => Ok(DifficultyArgsView::from_slots(Seq::new(12, |i: int| SlotView::Missing))),
            },
    {
        match args {
            Some(v) => Ok(JsDifficulty { args: DifficultyArgs::deserialize(&JsDeserializer::from_ref(v))? }),
            None => Ok(JsDifficulty { args: DifficultyArgs::default() }),
        }
    }

    /// Sets the mods from a host value, or takes them away. A value that is
    /// no mods value fails and leaves the settings as they were.
    pub fn set_mods(&mut self, mods: Option<&Value>) -> (r: Result<(), DecodeError>)
        ensures
            match mods {
                None => r is Ok && final(self)@ == (DifficultyArgsView { mods: no_mods(), ..old(self)@ }),
                Some(v) => match decode_mods(v@) {
                    Ok(decoded) => r is Ok && final(self)@ == (DifficultyArgsView {
                        mods: decoded,
                        ..old(self)@
                    }),
                    Err(e) => r matches Err(found) && found@ == e && final(self)@ == old(self)@,
                },
            },
    {
        let decoded = match mods {
            None => JsGameMods::default(),
            Some(v) => match JsGameMods::deserialize(&JsDeserializer::from_ref(v)) {
                Ok(decoded) => decoded,
                Err(e) => {
                    return Err(e);
                },
            },
        };
        self.args.mods = decoded;
        Ok(())
    }

    /// Adjusts the clock rate used in the calculation.
    pub fn set_clock_rate(&mut self, clock_rate: Option<Number>)
        ensures
            final(self)@ == (DifficultyArgsView {
                clock_rate: clock_rate,
                ..old(self)@
            }),
    {
        self.args.clock_rate = clock_rate;
    }

    /// Overrides a beatmap's set AR.
    pub fn set_ar(&mut self, ar: Option<Number>)
        ensures
            final(self)@ == (DifficultyArgsView {
                ar: ar,
                ..old(self)@
            }),
    {
        self.args.ar = ar;
    }

    /// Says whether the given AR is meant with mods already applied.
    pub fn set_ar_with_mods(&mut self, ar_with_mods: Option<bool>)
        ensures
            final(self)@ == (DifficultyArgsView {
                ar_with_mods: match ar_with_mods {
                    Some(flag) => flag,
                    None => false,
                },
                ..old(self)@
            }),
    {
        self.args.ar_with_mods = match ar_with_mods {
            Some(flag) => flag,
            None => false,
        };
    }

    /// Overrides a beatmap's set CS.
    pub fn set_cs(&mut self, cs: Option<Number>)
        ensures
            final(self)@ == (DifficultyArgsView {
                cs: cs,
                ..old(self)@
            }),
    {
        self.args.cs = cs;
    }

    /// Says whether the given CS is meant with mods already applied.
    pub fn set_cs_with_mods(&mut self, cs_with_mods: Option<bool>)
        ensures
            final(self)@ == (DifficultyArgsView {
                cs_with_mods: match cs_with_mods {
                    Some(flag) => flag,
                    None => false,
                },
                ..old(self)@
            }),
    {
        self.args.cs_with_mods = match cs_with_mods {
            Some(flag) => flag,
            None => false,
        };
    }

    /// Overrides a beatmap's set HP.
    pub fn set_hp(&mut self, hp: Option<Number>)
        ensures
            final(self)@ == (DifficultyArgsView {
                hp: hp,
                ..old(self)@
            }),
    {
        self.args.hp = hp;
    }

    /// Says whether the given HP is meant with mods already applied.
    pub fn set_hp_with_mods(&mut self, hp_with_mods: Option<bool>)
        ensures
            final(self)@ == (DifficultyArgsView {
                hp_with_mods: match hp_with_mods {
                    Some(flag) => flag,
                    None => false,
                },
                ..old(self)@
            }),
    {
        self.args.hp_with_mods = match hp_with_mods {
            Some(flag) => flag,
            None => false,
        };
    }

    /// Overrides a beatmap's set OD.
    pub fn set_od(&mut self, od: Option<Number>)
        ensures
            final(self)@ == (DifficultyArgsView {
                od: od,
                ..old(self)@
            }),
    {
        self.args.od = od;
    }

    /// Says whether the given OD is meant with mods already applied.
    pub fn set_od_with_mods(&mut self, od_with_mods: Option<bool>)
        ensures
            final(self)@ == (DifficultyArgsView {
                od_with_mods: match od_with_mods {
                    Some(flag) => flag,
                    None => false,
                },
                ..old(self)@
            }),
    {
        self.args.od_with_mods = match od_with_mods {
            Some(flag) => flag,
            None => false,
        };
    }

    /// Sets the amount of passed objects for partial plays.
    pub fn set_passed_objects(&mut self, passed_objects: Option<u32>)
        ensures
            final(self)@ == (DifficultyArgsView {
                passed_objects: passed_objects,
                ..old(self)@
            }),
    {
        self.args.passed_objects = passed_objects;
    }

    /// Adjusts patterns as if the HR mod is enabled.
    pub fn set_hardrock_offsets(&mut self, hardrock_offsets: Option<bool>)
        ensures
            final(self)@ == (DifficultyArgsView {
                hardrock_offsets: hardrock_offsets,
                ..old(self)@
            }),
    {
        self.args.hardrock_offsets = hardrock_offsets;
    }
}

} // verus!
