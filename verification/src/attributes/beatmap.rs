//! The attributes of a beatmap, and the builder of their settings.

use crate::args::beatmap::{BeatmapAttributesArgs, BeatmapAttributesArgsView};
use crate::beatmap::{decode_beatmap, JsBeatmap};
use crate::deserializer::JsDeserializer;
use crate::error::{DecodeError, result_view};
use crate::mode::JsGameMode;
use crate::mods::{decode_mods, JsGameMods, no_mods};
use crate::number::Number;
use crate::schema::SlotView;
use crate::value::Value;
use vstd::prelude::*;

verus! {

/// The hit windows of a beatmap, in milliseconds.
#[derive(Clone, Copy, Debug, PartialEq, Eq)]
pub struct HitWindows {
    pub ar: Number,
    pub od_great: Number,
    pub od_ok: Option<Number>,
}

/// The attributes of a beatmap as the calculation gives them.
#[derive(Clone, Copy, Debug, PartialEq, Eq)]
pub struct BeatmapAttributes {
    pub ar: Number,
    pub od: Number,
    pub cs: Number,
    pub hp: Number,
    pub clock_rate: Number,
    pub hit_windows: HitWindows,
}

/// The attributes of a beatmap as the host sees them.
#[derive(Clone, Copy, Debug, PartialEq, Eq)]
pub struct JsBeatmapAttributes {
    /// The approach rate.
    pub ar: Number,
    /// The overall difficulty.
    pub od: Number,
    /// The circle size.
    pub cs: Number,
    /// The health drain rate
    pub hp: Number,
    /// The clock rate with respect to mods.
    pub clock_rate: Number,
    /// Hit window for approach rate i.e. TimePreempt in milliseconds.
    pub ar_hitwindow: Number,
    /// Hit window for overall difficulty i.e. time to hit a 300 ("Great") in
    /// milliseconds.
    pub od_great_hitwindow: Number,
    /// Hit window for overall difficulty i.e. time to hit a 100 ("Ok") in
    /// milliseconds.
    ///
    /// Not available for osu!mania.
    pub od_ok_hitwindow: Option<Number>,
}

impl JsBeatmapAttributes {
    /// The flat attributes: the five values, and the hit windows side by side.
    pub open spec fn of(attrs: BeatmapAttributes) -> JsBeatmapAttributes {
        JsBeatmapAttributes {
            ar: attrs.ar,
            od: attrs.od,
            cs: attrs.cs,
            hp: attrs.hp,
            clock_rate: attrs.clock_rate,
            ar_hitwindow: attrs.hit_windows.ar,
            od_great_hitwindow: attrs.hit_windows.od_great,
            od_ok_hitwindow: attrs.hit_windows.od_ok,
        }
    }
}

impl From<BeatmapAttributes> for JsBeatmapAttributes {
    fn from(attrs: BeatmapAttributes) -> (r: Self)
        ensures
            r == JsBeatmapAttributes::of(attrs),
    {
        Self {
            ar: attrs.ar,
            od: attrs.od,
            cs: attrs.cs,
            hp: attrs.hp,
            clock_rate: attrs.clock_rate,
            ar_hitwindow: attrs.hit_windows.ar,
            od_great_hitwindow: attrs.hit_windows.od_great,
            od_ok_hitwindow: attrs.hit_windows.od_ok,
        }
    }
}

impl vstd::std_specs::convert::FromSpecImpl<BeatmapAttributes> for JsBeatmapAttributes {
    open spec fn obeys_from_spec() -> bool {
        true
    }

    open spec fn from_spec(attrs: BeatmapAttributes) -> Self {
        JsBeatmapAttributes::of(attrs)
    }
}

/// Builder for the attributes of a beatmap.
#[derive(Debug, PartialEq, Eq)]
pub struct JsBeatmapAttributesBuilder {
    pub args: BeatmapAttributesArgs,
}

impl View for JsBeatmapAttributesBuilder {
    type V = BeatmapAttributesArgsView;

    open spec fn view(&self) -> BeatmapAttributesArgsView {
        self.args@
    }
}

impl JsBeatmapAttributesBuilder {
    /// Creates a new builder from the settings that a host value holds,
    /// or from the default settings where there is none.
    pub fn new(args: Option<&Value>) -> (r: Result<JsBeatmapAttributesBuilder, DecodeError>)
        ensures
            result_view(r) == match args {
                Some(v) => BeatmapAttributesArgsView::decode(v@),
                None => Ok(BeatmapAttributesArgsView::from_slots(Seq::new(13, |i: int| SlotView::Missing))),
            },
    {
        match args {
            Some(v) => Ok(JsBeatmapAttributesBuilder { args: BeatmapAttributesArgs::deserialize(&JsDeserializer::from_ref(v))? }),
            None => Ok(JsBeatmapAttributesBuilder { args: BeatmapAttributesArgs::default() }),
        }
    }

    /// Sets the mods from a host value, or takes them away. A value that is
    /// no mods value fails and leaves the settings as they were.
    pub fn set_mods(&mut self, mods: Option<&Value>) -> (r: Result<(), DecodeError>)
        ensures
            match mods {
                None => r is Ok && final(self)@ == (BeatmapAttributesArgsView { mods: no_mods(), ..old(self)@ }),
                Some(v) => match decode_mods(v@) {
                    Ok(decoded) => r is Ok && final(self)@ == (BeatmapAttributesArgsView {
                        mods: decoded,
                        ..old(self)@
                    }),
                    Err(e) => r matches Err(found) && found@ == e && final(self)@ == old(self)@,
                },
            },
    {
        let decoded = match mods {
            None => JsGameMods::default(),
            Some(v) => match JsGameMods::deserialize(&JsDeserializer::from_ref(v)) {
                Ok(decoded) => decoded,
                Err(e) => {
                    return Err(e);
                },
            },
        };
        self.args.mods = decoded;
        Ok(())
    }

    /// Adjusts the clock rate used in the calculation.
    pub fn set_clock_rate(&mut self, clock_rate: Option<Number>)
        ensures
            final(self)@ == (BeatmapAttributesArgsView {
                clock_rate: clock_rate,
                ..old(self)@
            }),
    {
        self.args.clock_rate = clock_rate;
    }

    /// Overrides a beatmap's set AR.
    pub fn set_ar(&mut self, ar: Option<Number>)
        ensures
            final(self)@ == (BeatmapAttributesArgsView {
                ar: ar,
                ..old(self)@
            }),
    {
        self.args.ar = ar;
    }

    /// Says whether the given AR is meant with mods already applied.
    pub fn set_ar_with_mods(&mut self, ar_with_mods: Option<bool>)
        ensures
            final(self)@ == (BeatmapAttributesArgsView {
                ar_with_mods: match ar_with_mods {
                    Some(flag) => flag,
                    None => false,
                },
                ..old(self)@
            }),
    {
        self.args.ar_with_mods = match ar_with_mods {
            Some(flag) => flag,
            None => false,
        };
    }

    /// Overrides a beatmap's set CS.
    pub fn set_cs(&mut self, cs: Option<Number>)
        ensures
            final(self)@ == (BeatmapAttributesArgsView {
                cs: cs,
                ..old(self)@
            }),
    {
        self.args.cs = cs;
    }

    /// Says whether the given CS is meant with mods already applied.
    pub fn set_cs_with_mods(&mut self, cs_with_mods: Option<bool>)
        ensures
            final(self)@ == (BeatmapAttributesArgsView {
                cs_with_mods: match cs_with_mods {
                    Some(flag) => flag,
                    None => false,
                },
                ..old(self)@
            }),
    {
        self.args.cs_with_mods = match cs_with_mods {
            Some(flag) => flag,
            None => false,
        };
    }

    /// Overrides a beatmap's set HP.
    pub fn set_hp(&mut self, hp: Option<Number>)
        ensures
            final(self)@ == (BeatmapAttributesArgsView {
                hp: hp,
                ..old(self)@
            }),
    {
        self.args.hp = hp;
    }

    /// Says whether the given HP is meant with mods already applied.
    pub fn set_hp_with_mods(&mut self, hp_with_mods: Option<bool>)
        ensures
            final(self)@ == (BeatmapAttributesArgsView {
                hp_with_mods: match hp_with_mods {
                    Some(flag) => flag,
                    None => false,
                },
                ..old(self)@
            }),
    {
        self.args.hp_with_mods = match hp_with_mods {
            Some(flag) => flag,
            None => false,
        };
    }

    /// Overrides a beatmap's set OD.
    pub fn set_od(&mut self, od: Option<Number>)
        ensures
            final(self)@ == (BeatmapAttributesArgsView {
                od: od,
                ..old(self)@
            }),
    {
        self.args.od = od;
    }

    /// Says whether the given OD is meant with mods already applied.
    pub fn set_od_with_mods(&mut self, od_with_mods: Option<bool>)
        ensures
            final(self)@ == (BeatmapAttributesArgsView {
                od_with_mods: match od_with_mods {
                    Some(flag) => flag,
                    None => false,
                },
                ..old(self)@
            }),
    {
        self.args.od_with_mods = match od_with_mods {
            Some(flag) => flag,
            None => false,
        };
    }

    /// Specifies a gamemode.
    pub fn set_mode(&mut self, mode: Option<JsGameMode>)
        ensures
            final(self)@ == (BeatmapAttributesArgsView {
                mode: mode,
                ..old(self)@
            }),
    {
        self.args.mode = mode;
    }

    /// Specifies whether it's a converted map.
    pub fn set_is_convert(&mut self, is_convert: Option<bool>)
        ensures
            final(self)@ == (BeatmapAttributesArgsView {
                is_convert: match is_convert {
                    Some(flag) => flag,
                    None => false,
                },
                ..old(self)@
            }),
    {
        self.args.is_convert = match is_convert {
            Some(flag) => flag,
            None => false,
        };
    }

    /// Starts off with a beatmap's attributes, mode, and convert status, or
    /// takes the beatmap away. A value that is no beatmap fails and leaves the
    /// settings as they were.
    pub fn set_map(&mut self, map: Option<&Value>) -> (r: Result<(), DecodeError>)
        ensures
            match map {
                None => r is Ok && final(self)@ == (BeatmapAttributesArgsView {
                    map: None,
                    ..old(self)@
                }),
                Some(v) => match decode_beatmap(v@) {
                    Ok(decoded) => r is Ok && final(self)@ == (BeatmapAttributesArgsView {
                        map: Some(decoded),
                        ..old(self)@
                    }),
                    Err(e) => r matches Err(found) && found@ == e && final(self)@ == old(self)@,
                },
            },
    {
        let decoded = match map {
            None => None,
            Some(v) => match JsBeatmap::deserialize(&JsDeserializer::from_ref(v)) {
                Ok(decoded) => Some(decoded),
                Err(e) => {
                    return Err(e);
                },
            },
        };
        self.args.map = decoded;
        Ok(())
    }
}

} // verus!
