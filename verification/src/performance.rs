//! The builder for a performance calculation.

use crate::args::performance::{JsHitResultPriority, PerformanceArgs, PerformanceArgsView};
use crate::deserializer::JsDeserializer;
use crate::error::{DecodeError, result_view};
use crate::mods::{decode_mods, JsGameMods, no_mods};
use crate::number::Number;
use crate::schema::SlotView;
use crate::value::Value;
use vstd::prelude::*;

verus! {

/// Builder for a performance calculation.
#[derive(Debug, PartialEq, Eq)]
pub struct JsPerformance {
    pub args: PerformanceArgs,
}

impl View for JsPerformance {
    type V = PerformanceArgsView;

    open spec fn view(&self) -> PerformanceArgsView {
        self.args@
    }
}

impl JsPerformance {
    /// Creates a new performance calculator from the settings that a host value holds,
    /// or from the default settings where there is none.
    pub fn new(args: Option<&Value>) -> (r: Result<JsPerformance, DecodeError>)
        ensures
            result_view(r) == match args {
                Some(v) => PerformanceArgsView::decode(v@),
                None => Ok(PerformanceArgsView::from_slots(Seq::new(25, |i: int| SlotView::Missing))),
            },
    {
        match args {
            Some(v) => Ok(JsPerformance { args: PerformanceArgs::deserialize(&JsDeserializer::from_ref(v))? }),
            None => Ok(JsPerformance { args: PerformanceArgs::default() }),
        }
    }

    /// Sets the mods from a host value, or takes them away. A value that is
    /// no mods value fails and leaves the settings as they were.
    pub fn set_mods(&mut self, mods: Option<&Value>) -> (r: Result<(), DecodeError>)
        ensures
            match mods {
                None => r is Ok && final(self)@ == (PerformanceArgsView { mods: no_mods(), ..old(self)@ }),
                Some(v) => match decode_mods(v@) {
                    Ok(decoded) => r is Ok && final(self)@ == (PerformanceArgsView {
                        mods: decoded,
                        ..old(self)@
                    }),
                    Err(e) => r matches Err(found) && found@ == e && final(self)@ == old(self)@,
                },
            },
    {
        let decoded = match mods {
            None => JsGameMods::default(),
            Some(v) => match JsGameMods::deserialize(&JsDeserializer::from_ref(v)) {
                Ok(decoded) => decoded,
                Err(e) => {
                    return Err(e);
                },
            },
        };
        self.args.mods = decoded;
        Ok(())
    }

    /// Says whether the score was set on osu!lazer.
    pub fn set_lazer(&mut self, lazer: Option<bool>)
        ensures
            final(self)@ == (PerformanceArgsView {
                lazer: lazer,
                ..old(self)@
            }),
    {
        self.args.lazer = lazer;
    }

    /// Adjusts the clock rate used in the calculation.
    pub fn set_clock_rate(&mut self, clock_rate: Option<Number>)
        ensures
            final(self)@ == (PerformanceArgsView {
                clock_rate: clock_rate,
                ..old(self)@
            }),
    {
        self.args.clock_rate = clock_rate;
    }

    /// Overrides a beatmap's set AR.
    pub fn set_ar(&mut self, ar: Option<Number>)
        ensures
            final(self)@ == (PerformanceArgsView {
                ar: ar,
                ..old(self)@
            }),
    {
        self.args.ar = ar;
    }

    /// Says whether the given AR is meant with mods already applied.
    pub fn set_ar_with_mods(&mut self, ar_with_mods: Option<bool>)
        ensures
            final(self)@ == (PerformanceArgsView {
                ar_with_mods: match ar_with_mods {
                    Some(flag) => flag,
                    None => false,
                },
                ..old(self)@
            }),
    {
        self.args.ar_with_mods = match ar_with_mods {
            Some(flag) => flag,
            None => false,
        };
    }

    /// Overrides a beatmap's set CS.
    pub fn set_cs(&mut self, cs: Option<Number>)
        ensures
            final(self)@ == (PerformanceArgsView {
                cs: cs,
                ..old(self)@
            }),
    {
        self.args.cs = cs;
    }

    /// Says whether the given CS is meant with mods already applied.
    pub fn set_cs_with_mods(&mut self, cs_with_mods: Option<bool>)
        ensures
            final(self)@ == (PerformanceArgsView {
                cs_with_mods: match cs_with_mods {
                    Some(flag) => flag,
                    None => false,
                },
                ..old(self)@
            }),
    {
        self.args.cs_with_mods = match cs_with_mods {
            Some(flag) => flag,
            None => false,
        };
    }

    /// Overrides a beatmap's set HP.
    pub fn set_hp(&mut self, hp: Option<Number>)
        ensures
            final(self)@ == (PerformanceArgsView {
                hp: hp,
                ..old(self)@
            }),
    {
        self.args.hp = hp;
    }

    /// Says whether the given HP is meant with mods already applied.
    pub fn set_hp_with_mods(&mut self, hp_with_mods: Option<bool>)
        ensures
            final(self)@ == (PerformanceArgsView {
                hp_with_mods: match hp_with_mods {
                    Some(flag) => flag,
                    None => false,
                },
                ..old(self)@
            }),
    {
        self.args.hp_with_mods = match hp_with_mods {
            Some(flag) => flag,
            None => false,
        };
    }

    /// Overrides a beatmap's set OD.
    pub fn set_od(&mut self, od: Option<Number>)
        ensures
            final(self)@ == (PerformanceArgsView {
                od: od,
                ..old(self)@
            }),
    {
        self.args.od = od;
    }

    /// Says whether the given OD is meant with mods already applied.
    pub fn set_od_with_mods(&mut self, od_with_mods: Option<bool>)
        ensures
            final(self)@ == (PerformanceArgsView {
                od_with_mods: match od_with_mods {
                    Some(flag) => flag,
                    None => false,
                },
                ..old(self)@
            }),
    {
        self.args.od_with_mods = match od_with_mods {
            Some(flag) => flag,
            None => false,
        };
    }

    /// Sets the amount of passed objects for partial plays.
    pub fn set_passed_objects(&mut self, passed_objects: Option<u32>)
        ensures
            final(self)@ == (PerformanceArgsView {
                passed_objects: passed_objects,
                ..old(self)@
            }),
    {
        self.args.passed_objects = passed_objects;
    }

    /// Adjusts patterns as if the HR mod is enabled.
    pub fn set_hardrock_offsets(&mut self, hardrock_offsets: Option<bool>)
        ensures
            final(self)@ == (PerformanceArgsView {
                hardrock_offsets: hardrock_offsets,
                ..old(self)@
            }),
    {
        self.args.hardrock_offsets = hardrock_offsets;
    }

    /// Sets the accuracy between `0.0` and `100.0`.
    pub fn set_accuracy(&mut self, accuracy: Option<Number>)
        ensures
            final(self)@ == (PerformanceArgsView {
                accuracy: accuracy,
                ..old(self)@
            }),
    {
        self.args.accuracy = accuracy;
    }

    /// Specifies the max combo of the play.
    pub fn set_combo(&mut self, combo: Option<u32>)
        ensures
            final(self)@ == (PerformanceArgsView {
                combo: combo,
                ..old(self)@
            }),
    {
        self.args.combo = combo;
    }

    /// Sets the amount of "large tick" hits.
    pub fn set_large_ticks_hits(&mut self, large_tick_hits: Option<u32>)
        ensures
            final(self)@ == (PerformanceArgsView {
                large_tick_hits: large_tick_hits,
                ..old(self)@
            }),
    {
        self.args.large_tick_hits = large_tick_hits;
    }

    /// Sets the amount of slider end hits.
    pub fn set_slider_ends_hit(&mut self, slider_end_hits: Option<u32>)
        ensures
            final(self)@ == (PerformanceArgsView {
                slider_end_hits: slider_end_hits,
                ..old(self)@
            }),
    {
        self.args.slider_end_hits = slider_end_hits;
    }

    /// Specifies the amount of gekis of a play.
    pub fn set_n_geki(&mut self, n_geki: Option<u32>)
        ensures
            final(self)@ == (PerformanceArgsView {
                n_geki: n_geki,
                ..old(self)@
            }),
    {
        self.args.n_geki = n_geki;
    }

    /// Specifies the amount of katus of a play.
    pub fn set_n_katu(&mut self, n_katu: Option<u32>)
        ensures
            final(self)@ == (PerformanceArgsView {
                n_katu: n_katu,
                ..old(self)@
            }),
    {
        self.args.n_katu = n_katu;
    }

    /// Specifies the amount of 300s of a play.
    pub fn set_n300(&mut self, n300: Option<u32>)
        ensures
            final(self)@ == (PerformanceArgsView {
                n300: n300,
                ..old(self)@
            }),
    {
        self.args.n300 = n300;
    }

    /// Specifies the amount of 100s of a play.
    pub fn set_n100(&mut self, n100: Option<u32>)
        ensures
            final(self)@ == (PerformanceArgsView {
                n100: n100,
                ..old(self)@
            }),
    {
        self.args.n100 = n100;
    }

    /// Specifies the amount of 50s of a play.
    pub fn set_n50(&mut self, n50: Option<u32>)
        ensures
            final(self)@ == (PerformanceArgsView {
                n50: n50,
                ..old(self)@
            }),
    {
        self.args.n50 = n50;
    }

    /// Specifies the amount of misses of a play.
    pub fn set_misses(&mut self, misses: Option<u32>)
        ensures
            final(self)@ == (PerformanceArgsView {
                misses: misses,
                ..old(self)@
            }),
    {
        self.args.misses = misses;
    }

    /// Specifies how hitresults should be generated; the best case where nothing is said.
    pub fn set_hitresult_priority(&mut self, hitresult_priority: Option<JsHitResultPriority>)
        ensures
            final(self)@ == (PerformanceArgsView {
                hitresult_priority: match hitresult_priority {
                    Some(priority) => priority,
                    None => JsHitResultPriority::BestCase,
                },
                ..old(self)@
            }),
    {
        self.args.hitresult_priority = match hitresult_priority {
            Some(priority) => priority,
            None => JsHitResultPriority::BestCase,
        };
    }
}

} // verus!
