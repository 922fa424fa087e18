//! The result of a difficulty calculation.
//!
//! The calculation gives its result by game mode: one structure per mode,
//! each with the attributes that the mode has. The host sees one flat
//! structure, [`JsDifficultyAttributes`], in which the attributes of the
//! other modes are absent. This module holds both, the two directions between
//! them, and the schema by which the flat structure is read back from a host
//! value.

use crate::deserializer::{JsDeserializer, outcome};
use crate::error::{DecodeError, DecodeErrorView};
use crate::mode::JsGameMode;
use crate::number::Number;
use crate::schema::{
    decode_object, decode_object_of, encode_object, encode_slots, Field, FieldKind, fields_view,
    FieldView, float_slot, lemma_decoded_slots_len, lemma_entry_of_filled_slot, names_distinct,
    Slot, slots_conform, slots_view, SlotView, stands_for, unsigned_slot,
};
use crate::value::{HostValue, Value};
use vstd::prelude::*;

verus! {

/// The name that the type of difficulty attributes reports.
pub const DIFFICULTY_CLASS: &'static str = "DifficultyAttributes";

/// The difficulty attributes of osu!.
#[derive(Clone, Copy, Debug, PartialEq, Eq)]
pub struct OsuDifficultyAttributes {
    pub aim: Number,
    pub aim_difficult_slider_count: Number,
    pub speed: Number,
    pub flashlight: Number,
    pub slider_factor: Number,
    pub speed_note_count: Number,
    pub aim_difficult_strain_count: Number,
    pub speed_difficult_strain_count: Number,
    pub ar: Number,
    pub great_hit_window: Number,
    pub ok_hit_window: Number,
    pub meh_hit_window: Number,
    pub hp: Number,
    pub n_circles: u32,
    pub n_sliders: u32,
    pub n_large_ticks: u32,
    pub n_spinners: u32,
    pub stars: Number,
    pub max_combo: u32,
}

/// The difficulty attributes of osu!taiko.
#[derive(Clone, Copy, Debug, PartialEq, Eq)]
pub struct TaikoDifficultyAttributes {
    pub stamina: Number,
    pub reading: Number,
    pub rhythm: Number,
    pub color: Number,
    pub great_hit_window: Number,
    pub ok_hit_window: Number,
    pub mono_stamina_factor: Number,
    pub stars: Number,
    pub max_combo: u32,
    pub is_convert: bool,
}

/// The difficulty attributes of osu!catch.
#[derive(Clone, Copy, Debug, PartialEq, Eq)]
pub struct CatchDifficultyAttributes {
    pub stars: Number,
    pub ar: Number,
    pub n_fruits: u32,
    pub n_droplets: u32,
    pub n_tiny_droplets: u32,
    pub is_convert: bool,
}

/// The difficulty attributes of osu!mania.
#[derive(Clone, Copy, Debug, PartialEq, Eq)]
pub struct ManiaDifficultyAttributes {
    pub stars: Number,
    pub n_objects: u32,
    pub n_hold_notes: u32,
    pub max_combo: u32,
    pub is_convert: bool,
}

/// The difficulty attributes of a map, by game mode.
#[derive(Clone, Copy, Debug, PartialEq, Eq)]
pub enum DifficultyAttributes {
    Osu(OsuDifficultyAttributes),
    Taiko(TaikoDifficultyAttributes),
    Catch(CatchDifficultyAttributes),
    Mania(ManiaDifficultyAttributes),
}

/// The result of a difficulty calculation.
#[derive(Clone, Copy, Debug, PartialEq, Eq)]
pub struct JsDifficultyAttributes {
    /// The attributes' gamemode.
    pub mode: JsGameMode,
    /// The final star rating.
    pub stars: Number,
    /// Whether the map was a convert i.e. an osu! map.
    pub is_convert: bool,
    /// The difficulty of the aim skill.
    /// 
    /// Only available for osu!.
    pub aim: Option<Number>,
    /// The number of sliders weighted by difficulty.
    /// 
    /// Only available for osu!.
    pub aim_difficult_slider_count: Option<Number>,
    /// The difficulty of the speed skill.
    /// 
    /// Only available for osu!.
    pub speed: Option<Number>,
    /// The difficulty of the flashlight skill.
    /// 
    /// Only available for osu!.
    pub flashlight: Option<Number>,
    /// The ratio of the aim strain with and without considering sliders
    /// 
    /// Only available for osu!.
    pub slider_factor: Option<Number>,
    /// The number of clickable objects weighted by difficulty.
    /// 
    /// Only available for osu!.
    pub speed_note_count: Option<Number>,
    /// Weighted sum of aim strains.
    /// 
    /// Only available for osu!.
    pub aim_difficult_strain_count: Option<Number>,
    /// Weighted sum of speed strains.
    /// 
    /// Only available for osu!.
    pub speed_difficult_strain_count: Option<Number>,
    /// The health drain rate.
    /// 
    /// Only available for osu!.
    pub hp: Option<Number>,
    /// The amount of circles.
    /// 
    /// Only available for osu!.
    pub n_circles: Option<u32>,
    /// The amount of sliders.
    /// 
    /// Only available for osu!.
    pub n_sliders: Option<u32>,
    /// The amount of "large ticks".
    /// 
    /// Only available for osu!.
    pub n_large_ticks: Option<u32>,
    /// The amount of spinners.
    /// 
    /// Only available for osu!.
    pub n_spinners: Option<u32>,
    /// The difficulty of the stamina skill.
    /// 
    /// Only available for osu!taiko.
    pub stamina: Option<Number>,
    /// The difficulty of the rhythm skill.
    /// 
    /// Only available for osu!taiko.
    pub rhythm: Option<Number>,
    /// The difficulty of the color skill.
    /// 
    /// Only available for osu!taiko.
    pub color: Option<Number>,
    /// The difficulty of the reading skill.
    /// 
    /// Only available for osu!taiko.
    pub reading: Option<Number>,
    /// The amount of fruits.
    /// 
    /// Only available for osu!catch.
    pub n_fruits: Option<u32>,
    /// The amount of droplets.
    /// 
    /// Only available for osu!catch.
    pub n_droplets: Option<u32>,
    /// The amount of tiny droplets.
    /// 
    /// Only available for osu!catch.
    pub n_tiny_droplets: Option<u32>,
    /// The amount of hitobjects in the map.
    /// 
    /// Only available for osu!mania.
    pub n_objects: Option<u32>,
    /// The amount of hold notes in the map.
    /// 
    /// Only available for osu!mania.
    pub n_hold_notes: Option<u32>,
    /// The approach rate.
    /// 
    /// Only available for osu! and osu!catch.
    pub ar: Option<Number>,
    /// The perceived hit window for an n300 inclusive of rate-adjusting mods
    /// (DT/HT/etc)
    /// 
    /// Only available for osu! and osu!taiko.
    pub great_hit_window: Option<Number>,
    /// The perceived hit window for an n100 inclusive of rate-adjusting mods
    /// (DT/HT/etc)
    /// 
    /// Only available for osu! and osu!taiko.
    pub ok_hit_window: Option<Number>,
    /// The perceived hit window for an n50 inclusive of rate-adjusting mods
    /// (DT/HT/etc)
    /// 
    /// Only available for osu!.
    pub meh_hit_window: Option<Number>,
    /// The ratio of stamina difficulty from mono-color (single color) streams to total
    /// stamina difficulty.
    /// 
    /// Only available for osu!taiko.
    pub mono_stamina_factor: Option<Number>,
    /// Return the maximum combo.
    pub max_combo: u32,
}

impl View for JsDifficultyAttributes {
    type V = JsDifficultyAttributes;

    open spec fn view(&self) -> JsDifficultyAttributes {
        *self
    }
}

impl CatchDifficultyAttributes {
    /// The maximum combo: fruits and droplets, wrapping at thirty-two bits.
    pub open spec fn spec_max_combo(&self) -> u32 {
        self.n_fruits.wrapping_add(self.n_droplets)
    }

    /// The maximum combo: fruits and droplets, wrapping at thirty-two bits.
    #[verifier::when_used_as_spec(spec_max_combo)]
    pub fn max_combo(&self) -> (r: u32)
        ensures
            r == self.spec_max_combo(),
    {
        self.n_fruits.wrapping_add(self.n_droplets)
    }
}

impl Default for JsDifficultyAttributes {
    fn default() -> (r: JsDifficultyAttributes)
        ensures
            r == JsDifficultyAttributes::empty(),
    {
        JsDifficultyAttributes {
            mode: JsGameMode::Osu,
            stars: Number { bits: 0 },
            is_convert: false,
            aim: None,
            aim_difficult_slider_count: None,
            speed: None,
            flashlight: None,
            slider_factor: None,
            speed_note_count: None,
            aim_difficult_strain_count: None,
            speed_difficult_strain_count: None,
            hp: None,
            n_circles: None,
            n_sliders: None,
            n_large_ticks: None,
            n_spinners: None,
            stamina: None,
            rhythm: None,
            color: None,
            reading: None,
            n_fruits: None,
            n_droplets: None,
            n_tiny_droplets: None,
            n_objects: None,
            n_hold_notes: None,
            ar: None,
            great_hit_window: None,
            ok_hit_window: None,
            meh_hit_window: None,
            mono_stamina_factor: None,
            max_combo: 0,
        }
    }
}

impl JsDifficultyAttributes {
    /// The attributes of osu! with no star rating, no combo and nothing else.
    pub open spec fn empty() -> JsDifficultyAttributes {
        JsDifficultyAttributes {
            mode: JsGameMode::Osu,
            stars: Number { bits: 0 },
            is_convert: false,
            aim: None,
            aim_difficult_slider_count: None,
            speed: None,
            flashlight: None,
            slider_factor: None,
            speed_note_count: None,
            aim_difficult_strain_count: None,
            speed_difficult_strain_count: None,
            hp: None,
            n_circles: None,
            n_sliders: None,
            n_large_ticks: None,
            n_spinners: None,
            stamina: None,
            rhythm: None,
            color: None,
            reading: None,
            n_fruits: None,
            n_droplets: None,
            n_tiny_droplets: None,
            n_objects: None,
            n_hold_notes: None,
            ar: None,
            great_hit_window: None,
            ok_hit_window: None,
            meh_hit_window: None,
            mono_stamina_factor: None,
            max_combo: 0,
        }
    }

    /// The flat attributes that stand for the attributes of osu!: the mode,
    /// the attributes that the mode has, and nothing of the other modes.
    pub open spec fn of_osu(attrs: OsuDifficultyAttributes) -> JsDifficultyAttributes {
        JsDifficultyAttributes {
            mode: JsGameMode::Osu,
            stars: attrs.stars,
            is_convert: false,
            aim: Some(attrs.aim),
            aim_difficult_slider_count: Some(attrs.aim_difficult_slider_count),
            speed: Some(attrs.speed),
            flashlight: Some(attrs.flashlight),
            slider_factor: Some(attrs.slider_factor),
            speed_note_count: Some(attrs.speed_note_count),
            aim_difficult_strain_count: Some(attrs.aim_difficult_strain_count),
            speed_difficult_strain_count: Some(attrs.speed_difficult_strain_count),
            hp: Some(attrs.hp),
            n_circles: Some(attrs.n_circles),
            n_sliders: Some(attrs.n_sliders),
            n_large_ticks: Some(attrs.n_large_ticks),
            n_spinners: Some(attrs.n_spinners),
            ar: Some(attrs.ar),
            great_hit_window: Some(attrs.great_hit_window),
            ok_hit_window: Some(attrs.ok_hit_window),
            meh_hit_window: Some(attrs.meh_hit_window),
            max_combo: attrs.max_combo,
            ..Self::empty()
        }
    }

    /// The flat attributes that stand for the attributes of osu!taiko: the mode,
    /// the attributes that the mode has, and nothing of the other modes.
    pub open spec fn of_taiko(attrs: TaikoDifficultyAttributes) -> JsDifficultyAttributes {
        JsDifficultyAttributes {
            mode: JsGameMode::Taiko,
            stars: attrs.stars,
            is_convert: attrs.is_convert,
            stamina: Some(attrs.stamina),
            rhythm: Some(attrs.rhythm),
            color: Some(attrs.color),
            reading: Some(attrs.reading),
            great_hit_window: Some(attrs.great_hit_window),
            ok_hit_window: Some(attrs.ok_hit_window),
            mono_stamina_factor: Some(attrs.mono_stamina_factor),
            max_combo: attrs.max_combo,
            ..Self::empty()
        }
    }

    /// The flat attributes that stand for the attributes of osu!catch: the mode,
    /// the attributes that the mode has, and nothing of the other modes.
    pub open spec fn of_catch(attrs: CatchDifficultyAttributes) -> JsDifficultyAttributes {
        JsDifficultyAttributes {
            mode: JsGameMode::Catch,
            stars: attrs.stars,
            is_convert: attrs.is_convert,
            n_fruits: Some(attrs.n_fruits),
            n_droplets: Some(attrs.n_droplets),
            n_tiny_droplets: Some(attrs.n_tiny_droplets),
            ar: Some(attrs.ar),
            max_combo: attrs.spec_max_combo(),
            ..Self::empty()
        }
    }

    /// The flat attributes that stand for the attributes of osu!mania: the mode,
    /// the attributes that the mode has, and nothing of the other modes.
    pub open spec fn of_mania(attrs: ManiaDifficultyAttributes) -> JsDifficultyAttributes {
        JsDifficultyAttributes {
            mode: JsGameMode::Mania,
            stars: attrs.stars,
            is_convert: attrs.is_convert,
            n_objects: Some(attrs.n_objects),
            n_hold_notes: Some(attrs.n_hold_notes),
            max_combo: attrs.max_combo,
            ..Self::empty()
        }
    }

    /// The flat attributes that stand for the attributes of a mode.
    pub open spec fn of(attrs: DifficultyAttributes) -> JsDifficultyAttributes {
        match attrs {
            DifficultyAttributes::Osu(attrs) => Self::of_osu(attrs),
            DifficultyAttributes::Taiko(attrs) => Self::of_taiko(attrs),
            DifficultyAttributes::Catch(attrs) => Self::of_catch(attrs),
            DifficultyAttributes::Mania(attrs) => Self::of_mania(attrs),
        }
    }

    /// The key of the first attribute of osu! that is absent, in the order
    /// in which the mode lists its attributes.
    pub open spec fn missing_of_osu(self) -> Option<&'static str> {
        if self.aim is None {
            Some("aim")
        } else if self.aim_difficult_slider_count is None {
            Some("aimDifficultSliderCount")
        } else if self.speed is None {
            Some("speed")
        } else if self.flashlight is None {
            Some("flashlight")
        } else if self.slider_factor is None {
            Some("sliderFactor")
        } else if self.speed_note_count is None {
            Some("speedNoteCount")
        } else if self.aim_difficult_strain_count is None {
            Some("aimDifficultStrainCount")
        } else if self.speed_difficult_strain_count is None {
            Some("speedDifficultStrainCount")
        } else if self.ar is None {
            Some("ar")
        } else if self.great_hit_window is None {
            Some("greatHitWindow")
        } else if self.ok_hit_window is None {
            Some("okHitWindow")
        } else if self.meh_hit_window is None {
            Some("mehHitWindow")
        } else if self.hp is None {
            Some("hp")
        } else if self.n_circles is None {
            Some("nCircles")
        } else if self.n_sliders is None {
            Some("nSliders")
        } else if self.n_large_ticks is None {
            Some("nLargeTicks")
        } else if self.n_spinners is None {
            Some("nSpinners")
        } else {
            None
        }
    }

    /// The attributes of osu! that the flat attributes hold. An attribute
    /// that is absent is taken as zero.
    pub open spec fn as_osu(self) -> OsuDifficultyAttributes {
        OsuDifficultyAttributes {
            aim: match self.aim {
                Some(v) => v,
                None => Number { bits: 0 },
            },
            aim_difficult_slider_count: match self.aim_difficult_slider_count {
                Some(v) => v,
                None => Number { bits: 0 },
            },
            speed: match self.speed {
                Some(v) => v,
                None => Number { bits: 0 },
            },
            flashlight: match self.flashlight {
                Some(v) => v,
                None => Number { bits: 0 },
            },
            slider_factor: match self.slider_factor {
                Some(v) => v,
                None => Number { bits: 0 },
            },
            speed_note_count: match self.speed_note_count {
                Some(v) => v,
                None => Number { bits: 0 },
            },
            aim_difficult_strain_count: match self.aim_difficult_strain_count {
                Some(v) => v,
                None => Number { bits: 0 },
            },
            speed_difficult_strain_count: match self.speed_difficult_strain_count {
                Some(v) => v,
                None => Number { bits: 0 },
            },
            ar: match self.ar {
                Some(v) => v,
                None => Number { bits: 0 },
            },
            great_hit_window: match self.great_hit_window {
                Some(v) => v,
                None => Number { bits: 0 },
            },
            ok_hit_window: match self.ok_hit_window {
                Some(v) => v,
                None => Number { bits: 0 },
            },
            meh_hit_window: match self.meh_hit_window {
                Some(v) => v,
                None => Number { bits: 0 },
            },
            hp: match self.hp {
                Some(v) => v,
                None => Number { bits: 0 },
            },
            n_circles: match self.n_circles {
                Some(v) => v,
                None => 0,
            },
            n_sliders: match self.n_sliders {
                Some(v) => v,
                None => 0,
            },
            n_large_ticks: match self.n_large_ticks {
                Some(v) => v,
                None => 0,
            },
            n_spinners: match self.n_spinners {
                Some(v) => v,
                None => 0,
            },
            stars: self.stars,
            max_combo: self.max_combo,
        }
    }

    /// The key of the first attribute of osu!taiko that is absent, in the order
    /// in which the mode lists its attributes.
    pub open spec fn missing_of_taiko(self) -> Option<&'static str> {
        if self.stamina is None {
            Some("stamina")
        } else if self.reading is None {
            Some("reading")
        } else if self.rhythm is None {
            Some("rhythm")
        } else if self.color is None {
            Some("color")
        } else if self.great_hit_window is None {
            Some("greatHitWindow")
        } else if self.ok_hit_window is None {
            Some("okHitWindow")
        } else if self.mono_stamina_factor is None {
            Some("monoStaminaFactor")
        } else {
            None
        }
    }

    /// The attributes of osu!taiko that the flat attributes hold. An attribute
    /// that is absent is taken as zero.
    pub open spec fn as_taiko(self) -> TaikoDifficultyAttributes {
        TaikoDifficultyAttributes {
            stamina: match self.stamina {
                Some(v) => v,
                None => Number { bits: 0 },
            },
            reading: match self.reading {
                Some(v) => v,
                None => Number { bits: 0 },
            },
            rhythm: match self.rhythm {
                Some(v) => v,
                None => Number { bits: 0 },
            },
            color: match self.color {
                Some(v) => v,
                None => Number { bits: 0 },
            },
            great_hit_window: match self.great_hit_window {
                Some(v) => v,
                None => Number { bits: 0 },
            },
            ok_hit_window: match self.ok_hit_window {
                Some(v) => v,
                None => Number { bits: 0 },
            },
            mono_stamina_factor: match self.mono_stamina_factor {
                Some(v) => v,
                None => Number { bits: 0 },
            },
            stars: self.stars,
            max_combo: self.max_combo,
            is_convert: self.is_convert,
        }
    }

    /// The key of the first attribute of osu!catch that is absent, in the order
    /// in which the mode lists its attributes.
    pub open spec fn missing_of_catch(self) -> Option<&'static str> {
        if self.ar is None {
            Some("ar")
        } else if self.n_fruits is None {
            Some("nFruits")
        } else if self.n_droplets is None {
            Some("nDroplets")
        } else if self.n_tiny_droplets is None {
            Some("nTinyDroplets")
        } else {
            None
        }
    }

    /// The attributes of osu!catch that the flat attributes hold. An attribute
    /// that is absent is taken as zero.
    pub open spec fn as_catch(self) -> CatchDifficultyAttributes {
        CatchDifficultyAttributes {
            stars: self.stars,
            ar: match self.ar {
                Some(v) => v,
                None => Number { bits: 0 },
            },
            n_fruits: match self.n_fruits {
                Some(v) => v,
                None => 0,
            },
            n_droplets: match self.n_droplets {
                Some(v) => v,
                None => 0,
            },
            n_tiny_droplets: match self.n_tiny_droplets {
                Some(v) => v,
                None => 0,
            },
            is_convert: self.is_convert,
        }
    }

    /// The key of the first attribute of osu!mania that is absent, in the order
    /// in which the mode lists its attributes.
    pub open spec fn missing_of_mania(self) -> Option<&'static str> {
        if self.n_objects is None {
            Some("nObjects")
        } else if self.n_hold_notes is None {
            Some("nHoldNotes")
        } else {
            None
        }
    }

    /// The attributes of osu!mania that the flat attributes hold. An attribute
    /// that is absent is taken as zero.
    pub open spec fn as_mania(self) -> ManiaDifficultyAttributes {
        ManiaDifficultyAttributes {
            stars: self.stars,
            n_objects: match self.n_objects {
                Some(v) => v,
                None => 0,
            },
            n_hold_notes: match self.n_hold_notes {
                Some(v) => v,
                None => 0,
            },
            max_combo: self.max_combo,
            is_convert: self.is_convert,
        }
    }

    /// The key of the first attribute of the flat attributes' own mode that
    /// is absent.
    pub open spec fn missing(self) -> Option<&'static str> {
        match self.mode {
            JsGameMode::Osu => self.missing_of_osu(),
            JsGameMode::Taiko => self.missing_of_taiko(),
            JsGameMode::Catch => self.missing_of_catch(),
            JsGameMode::Mania => self.missing_of_mania(),
        }
    }

    /// The attributes by mode that the flat attributes hold.
    pub open spec fn by_mode(self) -> DifficultyAttributes {
        match self.mode {
            JsGameMode::Osu => DifficultyAttributes::Osu(self.as_osu()),
            JsGameMode::Taiko => DifficultyAttributes::Taiko(self.as_taiko()),
            JsGameMode::Catch => DifficultyAttributes::Catch(self.as_catch()),
            JsGameMode::Mania => DifficultyAttributes::Mania(self.as_mania()),
        }
    }
}

impl From<OsuDifficultyAttributes> for JsDifficultyAttributes {
    fn from(attrs: OsuDifficultyAttributes) -> (r: Self)
        ensures
            r == JsDifficultyAttributes::of_osu(attrs),
    {
        let mut r = JsDifficultyAttributes::default();
        r.mode = JsGameMode::Osu;
        r.stars = attrs.stars;
        r.aim = Some(attrs.aim);
        r.aim_difficult_slider_count = Some(attrs.aim_difficult_slider_count);
        r.speed = Some(attrs.speed);
        r.flashlight = Some(attrs.flashlight);
        r.slider_factor = Some(attrs.slider_factor);
        r.speed_note_count = Some(attrs.speed_note_count);
        r.aim_difficult_strain_count = Some(attrs.aim_difficult_strain_count);
        r.speed_difficult_strain_count = Some(attrs.speed_difficult_strain_count);
        r.hp = Some(attrs.hp);
        r.n_circles = Some(attrs.n_circles);
        r.n_sliders = Some(attrs.n_sliders);
        r.n_large_ticks = Some(attrs.n_large_ticks);
        r.n_spinners = Some(attrs.n_spinners);
        r.ar = Some(attrs.ar);
        r.great_hit_window = Some(attrs.great_hit_window);
        r.ok_hit_window = Some(attrs.ok_hit_window);
        r.meh_hit_window = Some(attrs.meh_hit_window);
        r.max_combo = attrs.max_combo;
        r
    }
}

impl vstd::std_specs::convert::FromSpecImpl<OsuDifficultyAttributes> for JsDifficultyAttributes {
    open spec fn obeys_from_spec() -> bool {
        true
    }

    open spec fn from_spec(attrs: OsuDifficultyAttributes) -> Self {
        JsDifficultyAttributes::of_osu(attrs)
    }
}

impl From<TaikoDifficultyAttributes> for JsDifficultyAttributes {
    fn from(attrs: TaikoDifficultyAttributes) -> (r: Self)
        ensures
            r == JsDifficultyAttributes::of_taiko(attrs),
    {
        let mut r = JsDifficultyAttributes::default();
        r.mode = JsGameMode::Taiko;
        r.stars = attrs.stars;
        r.is_convert = attrs.is_convert;
        r.stamina = Some(attrs.stamina);
        r.rhythm = Some(attrs.rhythm);
        r.color = Some(attrs.color);
        r.reading = Some(attrs.reading);
        r.great_hit_window = Some(attrs.great_hit_window);
        r.ok_hit_window = Some(attrs.ok_hit_window);
        r.mono_stamina_factor = Some(attrs.mono_stamina_factor);
        r.max_combo = attrs.max_combo;
        r
    }
}

impl vstd::std_specs::convert::FromSpecImpl<TaikoDifficultyAttributes> for JsDifficultyAttributes {
    open spec fn obeys_from_spec() -> bool {
        true
    }

    open spec fn from_spec(attrs: TaikoDifficultyAttributes) -> Self {
        JsDifficultyAttributes::of_taiko(attrs)
    }
}

impl From<CatchDifficultyAttributes> for JsDifficultyAttributes {
    fn from(attrs: CatchDifficultyAttributes) -> (r: Self)
        ensures
            r == JsDifficultyAttributes::of_catch(attrs),
    {
        let mut r = JsDifficultyAttributes::default();
        r.mode = JsGameMode::Catch;
        r.stars = attrs.stars;
        r.is_convert = attrs.is_convert;
        r.n_fruits = Some(attrs.n_fruits);
        r.n_droplets = Some(attrs.n_droplets);
        r.n_tiny_droplets = Some(attrs.n_tiny_droplets);
        r.ar = Some(attrs.ar);
        r.max_combo = attrs.max_combo();
        r
    }
}

impl vstd::std_specs::convert::FromSpecImpl<CatchDifficultyAttributes> for JsDifficultyAttributes {
    open spec fn obeys_from_spec() -> bool {
        true
    }

    open spec fn from_spec(attrs: CatchDifficultyAttributes) -> Self {
        JsDifficultyAttributes::of_catch(attrs)
    }
}

impl From<ManiaDifficultyAttributes> for JsDifficultyAttributes {
    fn from(attrs: ManiaDifficultyAttributes) -> (r: Self)
        ensures
            r == JsDifficultyAttributes::of_mania(attrs),
    {
        let mut r = JsDifficultyAttributes::default();
        r.mode = JsGameMode::Mania;
        r.stars = attrs.stars;
        r.is_convert = attrs.is_convert;
        r.n_objects = Some(attrs.n_objects);
        r.n_hold_notes = Some(attrs.n_hold_notes);
        r.max_combo = attrs.max_combo;
        r
    }
}

impl vstd::std_specs::convert::FromSpecImpl<ManiaDifficultyAttributes> for JsDifficultyAttributes {
    open spec fn obeys_from_spec() -> bool {
        true
    }

    open spec fn from_spec(attrs: ManiaDifficultyAttributes) -> Self {
        JsDifficultyAttributes::of_mania(attrs)
    }
}

impl From<DifficultyAttributes> for JsDifficultyAttributes {
    fn from(attrs: DifficultyAttributes) -> (r: Self)
        ensures
            r == JsDifficultyAttributes::of(attrs),
    {
        match attrs {
            DifficultyAttributes::Osu(attrs) => JsDifficultyAttributes::from(attrs),
            DifficultyAttributes::Taiko(attrs) => JsDifficultyAttributes::from(attrs),
            DifficultyAttributes::Catch(attrs) => JsDifficultyAttributes::from(attrs),
            DifficultyAttributes::Mania(attrs) => JsDifficultyAttributes::from(attrs),
        }
    }
}

impl vstd::std_specs::convert::FromSpecImpl<DifficultyAttributes> for JsDifficultyAttributes {
    open spec fn obeys_from_spec() -> bool {
        true
    }

    open spec fn from_spec(attrs: DifficultyAttributes) -> Self {
        JsDifficultyAttributes::of(attrs)
    }
}

impl DifficultyAttributes {
    /// What flat attributes give by mode: the attributes of their own mode
    /// where all of them are there, and otherwise the first of them that is
    /// missing. Attributes of other modes are not looked at.
    pub open spec fn spec_try_from(attrs: JsDifficultyAttributes) -> Result<
        DifficultyAttributes,
        DecodeErrorView,
    > {
        match attrs.missing() {
            Some(name) => Err(DecodeErrorView::MissingRequiredField { name: name@ }),
            None => Ok(attrs.by_mode()),
        }
    }

    /// Turns flat attributes into the attributes of their mode.
    pub fn try_from(attrs: JsDifficultyAttributes) -> (r: Result<DifficultyAttributes, DecodeError>)
        ensures
            outcome(r) == Self::spec_try_from(attrs),
    {
        match attrs.mode {
            JsGameMode::Osu => {
                let aim = match attrs.aim {
                    Some(v) => v,
                    None => {
                        return Err(DecodeError::MissingRequiredField { name: "aim" });
                    },
                };
                let aim_difficult_slider_count = match attrs.aim_difficult_slider_count {
                    Some(v) => v,
                    None => {
                        return Err(DecodeError::MissingRequiredField { name: "aimDifficultSliderCount" });
                    },
                };
                let speed = match attrs.speed {
                    Some(v) => v,
                    None => {
                        return Err(DecodeError::MissingRequiredField { name: "speed" });
                    },
                };
                let flashlight = match attrs.flashlight {
                    Some(v) => v,
                    None => {
                        return Err(DecodeError::MissingRequiredField { name: "flashlight" });
                    },
                };
                let slider_factor = match attrs.slider_factor {
                    Some(v) => v,
                    None => {
                        return Err(DecodeError::MissingRequiredField { name: "sliderFactor" });
                    },
                };
                let speed_note_count = match attrs.speed_note_count {
                    Some(v) => v,
                    None => {
                        return Err(DecodeError::MissingRequiredField { name: "speedNoteCount" });
                    },
                };
                let aim_difficult_strain_count = match attrs.aim_difficult_strain_count {
                    Some(v) => v,
                    None => {
                        return Err(DecodeError::MissingRequiredField { name: "aimDifficultStrainCount" });
                    },
                };
                let speed_difficult_strain_count = match attrs.speed_difficult_strain_count {
                    Some(v) => v,
                    None => {
                        return Err(DecodeError::MissingRequiredField { name: "speedDifficultStrainCount" });
                    },
                };
                let ar = match attrs.ar {
                    Some(v) => v,
                    None => {
                        return Err(DecodeError::MissingRequiredField { name: "ar" });
                    },
                };
                let great_hit_window = match attrs.great_hit_window {
                    Some(v) => v,
                    None => {
                        return Err(DecodeError::MissingRequiredField { name: "greatHitWindow" });
                    },
                };
                let ok_hit_window = match attrs.ok_hit_window {
                    Some(v) => v,
                    None => {
                        return Err(DecodeError::MissingRequiredField { name: "okHitWindow" });
                    },
                };
                let meh_hit_window = match attrs.meh_hit_window {
                    Some(v) => v,
                    None => {
                        return Err(DecodeError::MissingRequiredField { name: "mehHitWindow" });
                    },
                };
                let hp = match attrs.hp {
                    Some(v) => v,
                    None => {
                        return Err(DecodeError::MissingRequiredField { name: "hp" });
                    },
                };
                let n_circles = match attrs.n_circles {
                    Some(v) => v,
                    None => {
                        return Err(DecodeError::MissingRequiredField { name: "nCircles" });
                    },
                };
                let n_sliders = match attrs.n_sliders {
                    Some(v) => v,
                    None => {
                        return Err(DecodeError::MissingRequiredField { name: "nSliders" });
                    },
                };
                let n_large_ticks = match attrs.n_large_ticks {
                    Some(v) => v,
                    None => {
                        return Err(DecodeError::MissingRequiredField { name: "nLargeTicks" });
                    },
                };
                let n_spinners = match attrs.n_spinners {
                    Some(v) => v,
                    None => {
                        return Err(DecodeError::MissingRequiredField { name: "nSpinners" });
                    },
                };
                Ok(
                    DifficultyAttributes::Osu(
                        OsuDifficultyAttributes {
                            aim,
                            aim_difficult_slider_count,
                            speed,
                            flashlight,
                            slider_factor,
                            speed_note_count,
                            aim_difficult_strain_count,
                            speed_difficult_strain_count,
                            ar,
                            great_hit_window,
                            ok_hit_window,
                            meh_hit_window,
                            hp,
                            n_circles,
                            n_sliders,
                            n_large_ticks,
                            n_spinners,
                            stars: attrs.stars,
                            max_combo: attrs.max_combo,
                        },
                    ),
                )
            },
            JsGameMode::Taiko => {
                let stamina = match attrs.stamina {
                    Some(v) => v,
                    None => {
                        return Err(DecodeError::MissingRequiredField { name: "stamina" });
                    },
                };
                let reading = match attrs.reading {
                    Some(v) => v,
                    None => {
                        return Err(DecodeError::MissingRequiredField { name: "reading" });
                    },
                };
                let rhythm = match attrs.rhythm {
                    Some(v) => v,
                    None => {
                        return Err(DecodeError::MissingRequiredField { name: "rhythm" });
                    },
                };
                let color = match attrs.color {
                    Some(v) => v,
                    None => {
                        return Err(DecodeError::MissingRequiredField { name: "color" });
                    },
                };
                let great_hit_window = match attrs.great_hit_window {
                    Some(v) => v,
                    None => {
                        return Err(DecodeError::MissingRequiredField { name: "greatHitWindow" });
                    },
                };
                let ok_hit_window = match attrs.ok_hit_window {
                    Some(v) => v,
                    None => {
                        return Err(DecodeError::MissingRequiredField { name: "okHitWindow" });
                    },
                };
                let mono_stamina_factor = match attrs.mono_stamina_factor {
                    Some(v) => v,
                    None => {
                        return Err(DecodeError::MissingRequiredField { name: "monoStaminaFactor" });
                    },
                };
                Ok(
                    DifficultyAttributes::Taiko(
                        TaikoDifficultyAttributes {
                            stamina,
                            reading,
                            rhythm,
                            color,
                            great_hit_window,
                            ok_hit_window,
                            mono_stamina_factor,
                            stars: attrs.stars,
                            max_combo: attrs.max_combo,
                            is_convert: attrs.is_convert,
                        },
                    ),
                )
            },
            JsGameMode::Catch => {
                let ar = match attrs.ar {
                    Some(v) => v,
                    None => {
                        return Err(DecodeError::MissingRequiredField { name: "ar" });
                    },
                };
                let n_fruits = match attrs.n_fruits {
                    Some(v) => v,
                    None => {
                        return Err(DecodeError::MissingRequiredField { name: "nFruits" });
                    },
                };
                let n_droplets = match attrs.n_droplets {
                    Some(v) => v,
                    None => {
                        return Err(DecodeError::MissingRequiredField { name: "nDroplets" });
                    },
                };
                let n_tiny_droplets = match attrs.n_tiny_droplets {
                    Some(v) => v,
                    None => {
                        return Err(DecodeError::MissingRequiredField { name: "nTinyDroplets" });
                    },
                };
                Ok(
                    DifficultyAttributes::Catch(
                        CatchDifficultyAttributes {
                            stars: attrs.stars,
                            ar,
                            n_fruits,
                            n_droplets,
                            n_tiny_droplets,
                            is_convert: attrs.is_convert,
                        },
                    ),
                )
            },
            JsGameMode::Mania => {
                let n_objects = match attrs.n_objects {
                    Some(v) => v,
                    None => {
                        return Err(DecodeError::MissingRequiredField { name: "nObjects" });
                    },
                };
                let n_hold_notes = match attrs.n_hold_notes {
                    Some(v) => v,
                    None => {
                        return Err(DecodeError::MissingRequiredField { name: "nHoldNotes" });
                    },
                };
                Ok(
                    DifficultyAttributes::Mania(
                        ManiaDifficultyAttributes {
                            stars: attrs.stars,
                            n_objects,
                            n_hold_notes,
                            max_combo: attrs.max_combo,
                            is_convert: attrs.is_convert,
                        },
                    ),
                )
            },
        }
    }
}

/// Flat attributes made from the attributes of a mode give those attributes
/// back.
pub proof fn lemma_by_mode_of_flat(attrs: DifficultyAttributes)
    ensures
        DifficultyAttributes::spec_try_from(JsDifficultyAttributes::of(attrs)) == Ok::<
            _,
            DecodeErrorView,
        >(attrs),
{
}

impl JsDifficultyAttributes {
    /// The schema: the mode, the star rating, the convert flag and the
    /// maximum combo are required; the attributes of the single modes are not.
    pub open spec fn fields() -> Seq<FieldView> {
        seq![
            FieldView { name: "mode"@, kind: FieldKind::Mode, required: true },
            FieldView { name: "stars"@, kind: FieldKind::Float, required: true },
            FieldView { name: "isConvert"@, kind: FieldKind::Bool, required: true },
            FieldView { name: "aim"@, kind: FieldKind::Float, required: false },
            FieldView { name: "aimDifficultSliderCount"@, kind: FieldKind::Float, required: false },
            FieldView { name: "speed"@, kind: FieldKind::Float, required: false },
            FieldView { name: "flashlight"@, kind: FieldKind::Float, required: false },
            FieldView { name: "sliderFactor"@, kind: FieldKind::Float, required: false },
            FieldView { name: "speedNoteCount"@, kind: FieldKind::Float, required: false },
            FieldView { name: "aimDifficultStrainCount"@, kind: FieldKind::Float, required: false },
            FieldView { name: "speedDifficultStrainCount"@, kind: FieldKind::Float, required: false },
            FieldView { name: "hp"@, kind: FieldKind::Float, required: false },
            FieldView { name: "nCircles"@, kind: FieldKind::Unsigned, required: false },
            FieldView { name: "nSliders"@, kind: FieldKind::Unsigned, required: false },
            FieldView { name: "nLargeTicks"@, kind: FieldKind::Unsigned, required: false },
            FieldView { name: "nSpinners"@, kind: FieldKind::Unsigned, required: false },
            FieldView { name: "stamina"@, kind: FieldKind::Float, required: false },
            FieldView { name: "rhythm"@, kind: FieldKind::Float, required: false },
            FieldView { name: "color"@, kind: FieldKind::Float, required: false },
            FieldView { name: "reading"@, kind: FieldKind::Float, required: false },
            FieldView { name: "nFruits"@, kind: FieldKind::Unsigned, required: false },
            FieldView { name: "nDroplets"@, kind: FieldKind::Unsigned, required: false },
            FieldView { name: "nTinyDroplets"@, kind: FieldKind::Unsigned, required: false },
            FieldView { name: "nObjects"@, kind: FieldKind::Unsigned, required: false },
            FieldView { name: "nHoldNotes"@, kind: FieldKind::Unsigned, required: false },
            FieldView { name: "ar"@, kind: FieldKind::Float, required: false },
            FieldView { name: "greatHitWindow"@, kind: FieldKind::Float, required: false },
            FieldView { name: "okHitWindow"@, kind: FieldKind::Float, required: false },
            FieldView { name: "mehHitWindow"@, kind: FieldKind::Float, required: false },
            FieldView { name: "monoStaminaFactor"@, kind: FieldKind::Float, required: false },
            FieldView { name: "maxCombo"@, kind: FieldKind::Unsigned, required: true },
        ]
    }

    /// The attributes that the slots of the schema stand for. A slot without a
    /// value leaves its field at the default.
    pub open spec fn from_slots(slots: Seq<SlotView>) -> JsDifficultyAttributes {
        JsDifficultyAttributes {
            mode: slots[0].mode_or_default(),
            stars: slots[1].number(),
            is_convert: slots[2].flag(),
            aim: slots[3].float(),
            aim_difficult_slider_count: slots[4].float(),
            speed: slots[5].float(),
            flashlight: slots[6].float(),
            slider_factor: slots[7].float(),
            speed_note_count: slots[8].float(),
            aim_difficult_strain_count: slots[9].float(),
            speed_difficult_strain_count: slots[10].float(),
            hp: slots[11].float(),
            n_circles: slots[12].unsigned(),
            n_sliders: slots[13].unsigned(),
            n_large_ticks: slots[14].unsigned(),
            n_spinners: slots[15].unsigned(),
            stamina: slots[16].float(),
            rhythm: slots[17].float(),
            color: slots[18].float(),
            reading: slots[19].float(),
            n_fruits: slots[20].unsigned(),
            n_droplets: slots[21].unsigned(),
            n_tiny_droplets: slots[22].unsigned(),
            n_objects: slots[23].unsigned(),
            n_hold_notes: slots[24].unsigned(),
            ar: slots[25].float(),
            great_hit_window: slots[26].float(),
            ok_hit_window: slots[27].float(),
            meh_hit_window: slots[28].float(),
            mono_stamina_factor: slots[29].float(),
            max_combo: slots[30].count(),
        }
    }

    /// The slots that stand for the attributes, one for each field of the
    /// schema.
    pub open spec fn slots(self) -> Seq<SlotView> {
        seq![
            SlotView::Mode(self.mode),
            SlotView::Float(self.stars),
            SlotView::Bool(self.is_convert),
            float_slot(self.aim),
            float_slot(self.aim_difficult_slider_count),
            float_slot(self.speed),
            float_slot(self.flashlight),
            float_slot(self.slider_factor),
            float_slot(self.speed_note_count),
            float_slot(self.aim_difficult_strain_count),
            float_slot(self.speed_difficult_strain_count),
            float_slot(self.hp),
            unsigned_slot(self.n_circles),
            unsigned_slot(self.n_sliders),
            unsigned_slot(self.n_large_ticks),
            unsigned_slot(self.n_spinners),
            float_slot(self.stamina),
            float_slot(self.rhythm),
            float_slot(self.color),
            float_slot(self.reading),
            unsigned_slot(self.n_fruits),
            unsigned_slot(self.n_droplets),
            unsigned_slot(self.n_tiny_droplets),
            unsigned_slot(self.n_objects),
            unsigned_slot(self.n_hold_notes),
            float_slot(self.ar),
            float_slot(self.great_hit_window),
            float_slot(self.ok_hit_window),
            float_slot(self.meh_hit_window),
            float_slot(self.mono_stamina_factor),
            SlotView::Unsigned(self.max_combo),
        ]
    }

    /// The object that stands for the attributes: one entry for each field that
    /// has a value, under the field's key, in the order of the schema.
    pub open spec fn encode(self) -> HostValue {
        encode_slots(DIFFICULTY_CLASS@, Self::fields(), self.slots())
    }

    /// What a host value decodes to: it must be an object of the type named
    /// `DifficultyAttributes`, and its
    /// fields are decoded in the order of the schema.
    pub open spec fn decode(v: HostValue) -> Result<JsDifficultyAttributes, DecodeErrorView> {
        match decode_object(v, DIFFICULTY_CLASS@, Self::fields()) {
            Ok(slots) => Ok(Self::from_slots(slots)),
            Err(e) => Err(e),
        }
    }

    /// The schema.
    pub fn schema() -> (r: Vec<Field>)
        ensures
            fields_view(r@) == Self::fields(),
    {
        let r = vec![
            Field { name: "mode", kind: FieldKind::Mode, required: true },
            Field { name: "stars", kind: FieldKind::Float, required: true },
            Field { name: "isConvert", kind: FieldKind::Bool, required: true },
            Field { name: "aim", kind: FieldKind::Float, required: false },
            Field { name: "aimDifficultSliderCount", kind: FieldKind::Float, required: false },
            Field { name: "speed", kind: FieldKind::Float, required: false },
            Field { name: "flashlight", kind: FieldKind::Float, required: false },
            Field { name: "sliderFactor", kind: FieldKind::Float, required: false },
            Field { name: "speedNoteCount", kind: FieldKind::Float, required: false },
            Field { name: "aimDifficultStrainCount", kind: FieldKind::Float, required: false },
            Field { name: "speedDifficultStrainCount", kind: FieldKind::Float, required: false },
            Field { name: "hp", kind: FieldKind::Float, required: false },
            Field { name: "nCircles", kind: FieldKind::Unsigned, required: false },
            Field { name: "nSliders", kind: FieldKind::Unsigned, required: false },
            Field { name: "nLargeTicks", kind: FieldKind::Unsigned, required: false },
            Field { name: "nSpinners", kind: FieldKind::Unsigned, required: false },
            Field { name: "stamina", kind: FieldKind::Float, required: false },
            Field { name: "rhythm", kind: FieldKind::Float, required: false },
            Field { name: "color", kind: FieldKind::Float, required: false },
            Field { name: "reading", kind: FieldKind::Float, required: false },
            Field { name: "nFruits", kind: FieldKind::Unsigned, required: false },
            Field { name: "nDroplets", kind: FieldKind::Unsigned, required: false },
            Field { name: "nTinyDroplets", kind: FieldKind::Unsigned, required: false },
            Field { name: "nObjects", kind: FieldKind::Unsigned, required: false },
            Field { name: "nHoldNotes", kind: FieldKind::Unsigned, required: false },
            Field { name: "ar", kind: FieldKind::Float, required: false },
            Field { name: "greatHitWindow", kind: FieldKind::Float, required: false },
            Field { name: "okHitWindow", kind: FieldKind::Float, required: false },
            Field { name: "mehHitWindow", kind: FieldKind::Float, required: false },
            Field { name: "monoStaminaFactor", kind: FieldKind::Float, required: false },
            Field { name: "maxCombo", kind: FieldKind::Unsigned, required: true },
        ];
        assert(fields_view(r@) =~= Self::fields());
        r
    }

    /// The attributes that decoded slots stand for.
    pub fn from_decoded(slots: &Vec<Slot>) -> (r: JsDifficultyAttributes)
        requires
            slots.len() == 31,
        ensures
            r == Self::from_slots(slots_view(slots@)),
    {
        JsDifficultyAttributes {
            mode: slots[0].mode_or_default(),
            stars: slots[1].number(),
            is_convert: slots[2].flag(),
            aim: slots[3].float(),
            aim_difficult_slider_count: slots[4].float(),
            speed: slots[5].float(),
            flashlight: slots[6].float(),
            slider_factor: slots[7].float(),
            speed_note_count: slots[8].float(),
            aim_difficult_strain_count: slots[9].float(),
            speed_difficult_strain_count: slots[10].float(),
            hp: slots[11].float(),
            n_circles: slots[12].unsigned(),
            n_sliders: slots[13].unsigned(),
            n_large_ticks: slots[14].unsigned(),
            n_spinners: slots[15].unsigned(),
            stamina: slots[16].float(),
            rhythm: slots[17].float(),
            color: slots[18].float(),
            reading: slots[19].float(),
            n_fruits: slots[20].unsigned(),
            n_droplets: slots[21].unsigned(),
            n_tiny_droplets: slots[22].unsigned(),
            n_objects: slots[23].unsigned(),
            n_hold_notes: slots[24].unsigned(),
            ar: slots[25].float(),
            great_hit_window: slots[26].float(),
            ok_hit_window: slots[27].float(),
            meh_hit_window: slots[28].float(),
            mono_stamina_factor: slots[29].float(),
            max_combo: slots[30].count(),
        }
    }

    /// The slots that stand for the attributes, one for each field of the
    /// schema. A field without a value leaves its slot missing.
    pub fn to_slots(&self) -> (slots: Vec<Slot>)
        ensures
            slots_view(slots@) == self.slots(),
            slots_conform(slots_view(slots@), Self::fields()),
            Self::from_slots(slots_view(slots@)) == *self,
    {
        let slots = vec![
            Slot::Mode(self.mode),
            Slot::Float(self.stars),
            Slot::Bool(self.is_convert),
            Slot::from_float(self.aim),
            Slot::from_float(self.aim_difficult_slider_count),
            Slot::from_float(self.speed),
            Slot::from_float(self.flashlight),
            Slot::from_float(self.slider_factor),
            Slot::from_float(self.speed_note_count),
            Slot::from_float(self.aim_difficult_strain_count),
            Slot::from_float(self.speed_difficult_strain_count),
            Slot::from_float(self.hp),
            Slot::from_unsigned(self.n_circles),
            Slot::from_unsigned(self.n_sliders),
            Slot::from_unsigned(self.n_large_ticks),
            Slot::from_unsigned(self.n_spinners),
            Slot::from_float(self.stamina),
            Slot::from_float(self.rhythm),
            Slot::from_float(self.color),
            Slot::from_float(self.reading),
            Slot::from_unsigned(self.n_fruits),
            Slot::from_unsigned(self.n_droplets),
            Slot::from_unsigned(self.n_tiny_droplets),
            Slot::from_unsigned(self.n_objects),
            Slot::from_unsigned(self.n_hold_notes),
            Slot::from_float(self.ar),
            Slot::from_float(self.great_hit_window),
            Slot::from_float(self.ok_hit_window),
            Slot::from_float(self.meh_hit_window),
            Slot::from_float(self.mono_stamina_factor),
            Slot::Unsigned(self.max_combo),
        ];
        proof {
            let views = slots_view(slots@);
            let fields = Self::fields();
            assert(views.len() == 31 && fields.len() == 31);
            let wanted = self.slots();
            assert(views[0] == wanted[0]);
            assert(views[1] == wanted[1]);
            assert(views[2] == wanted[2]);
            assert(views[3] == wanted[3]);
            assert(views[4] == wanted[4]);
            assert(views[5] == wanted[5]);
            assert(views[6] == wanted[6]);
            assert(views[7] == wanted[7]);
            assert(views[8] == wanted[8]);
            assert(views[9] == wanted[9]);
            assert(views[10] == wanted[10]);
            assert(views[11] == wanted[11]);
            assert(views[12] == wanted[12]);
            assert(views[13] == wanted[13]);
            assert(views[14] == wanted[14]);
            assert(views[15] == wanted[15]);
            assert(views[16] == wanted[16]);
            assert(views[17] == wanted[17]);
            assert(views[18] == wanted[18]);
            assert(views[19] == wanted[19]);
            assert(views[20] == wanted[20]);
            assert(views[21] == wanted[21]);
            assert(views[22] == wanted[22]);
            assert(views[23] == wanted[23]);
            assert(views[24] == wanted[24]);
            assert(views[25] == wanted[25]);
            assert(views[26] == wanted[26]);
            assert(views[27] == wanted[27]);
            assert(views[28] == wanted[28]);
            assert(views[29] == wanted[29]);
            assert(views[30] == wanted[30]);
            assert(views =~= wanted);
            assert(views[0].mode_or_default() == self.mode);
            assert(views[1].number() == self.stars);
            assert(views[2].flag() == self.is_convert);
            assert(views[3].float() == self.aim);
            assert(views[4].float() == self.aim_difficult_slider_count);
            assert(views[5].float() == self.speed);
            assert(views[6].float() == self.flashlight);
            assert(views[7].float() == self.slider_factor);
            assert(views[8].float() == self.speed_note_count);
            assert(views[9].float() == self.aim_difficult_strain_count);
            assert(views[10].float() == self.speed_difficult_strain_count);
            assert(views[11].float() == self.hp);
            assert(views[12].unsigned() == self.n_circles);
            assert(views[13].unsigned() == self.n_sliders);
            assert(views[14].unsigned() == self.n_large_ticks);
            assert(views[15].unsigned() == self.n_spinners);
            assert(views[16].float() == self.stamina);
            assert(views[17].float() == self.rhythm);
            assert(views[18].float() == self.color);
            assert(views[19].float() == self.reading);
            assert(views[20].unsigned() == self.n_fruits);
            assert(views[21].unsigned() == self.n_droplets);
            assert(views[22].unsigned() == self.n_tiny_droplets);
            assert(views[23].unsigned() == self.n_objects);
            assert(views[24].unsigned() == self.n_hold_notes);
            assert(views[25].float() == self.ar);
            assert(views[26].float() == self.great_hit_window);
            assert(views[27].float() == self.ok_hit_window);
            assert(views[28].float() == self.meh_hit_window);
            assert(views[29].float() == self.mono_stamina_factor);
            assert(views[30].count() == self.max_combo);
            assert forall|i: int| 0 <= i < views.len() implies (#[trigger] views[i]).conforms(
                fields[i],
            ) by {
                assert(i == 0 || i == 1 || i == 2 || i == 3 || i == 4 || i == 5 || i == 6 ||
                    i == 7 || i == 8 || i == 9 || i == 10 || i == 11 || i == 12 || i == 13 ||
                    i == 14 || i == 15 || i == 16 || i == 17 || i == 18 || i == 19 ||
                    i == 20 || i == 21 || i == 22 || i == 23 || i == 24 || i == 25 ||
                    i == 26 || i == 27 || i == 28 || i == 29 || i == 30);
            }
        }
        slots
    }
}

/// Every entry of the object that stands for the attributes is under the key
/// of a field that is set, with that field's value. A field that is not set,
/// as the fields of another mode are not, has no entry.
pub proof fn lemma_entries_are_set_fields(attrs: JsDifficultyAttributes, k: int)
    requires
        0 <= k < attrs.encode()->entries.len(),
    ensures
        attrs.encode() is Object,
        attrs.encode()->class_name == DIFFICULTY_CLASS@,
        exists|i: int| #[trigger]
            stands_for(
                JsDifficultyAttributes::fields(),
                attrs.slots(),
                i,
                attrs.encode()->entries[k],
            ),
{
    lemma_entry_of_filled_slot(JsDifficultyAttributes::fields(), attrs.slots(), k);
}

/// No two fields of the schema have the same name.
pub proof fn lemma_difficulty_attributes_names_distinct()
    ensures
        names_distinct(JsDifficultyAttributes::fields()),
{
    reveal_strlit("mode");
    reveal_strlit("stars");
    reveal_strlit("isConvert");
    reveal_strlit("aim");
    reveal_strlit("aimDifficultSliderCount");
    reveal_strlit("speed");
    reveal_strlit("flashlight");
    reveal_strlit("sliderFactor");
    reveal_strlit("speedNoteCount");
    reveal_strlit("aimDifficultStrainCount");
    reveal_strlit("speedDifficultStrainCount");
    reveal_strlit("hp");
    reveal_strlit("nCircles");
    reveal_strlit("nSliders");
    reveal_strlit("nLargeTicks");
    reveal_strlit("nSpinners");
    reveal_strlit("stamina");
    reveal_strlit("rhythm");
    reveal_strlit("color");
    reveal_strlit("reading");
    reveal_strlit("nFruits");
    reveal_strlit("nDroplets");
    reveal_strlit("nTinyDroplets");
    reveal_strlit("nObjects");
    reveal_strlit("nHoldNotes");
    reveal_strlit("ar");
    reveal_strlit("greatHitWindow");
    reveal_strlit("okHitWindow");
    reveal_strlit("mehHitWindow");
    reveal_strlit("monoStaminaFactor");
    reveal_strlit("maxCombo");
    assert("mode"@.len() == 4 && "mode"@[0] == 'm' && "mode"@[1] == 'o' && "mode"@[3] == 'e');
    assert("stars"@.len() == 5 && "stars"@[0] == 's' && "stars"@[1] == 't' && "stars"@[3] == 'r');
    assert("isConvert"@.len() == 9 && "isConvert"@[0] == 'i' && "isConvert"@[1] == 's' &&
        "isConvert"@[3] == 'o');
    assert("aim"@.len() == 3 && "aim"@[0] == 'a' && "aim"@[1] == 'i');
    assert("aimDifficultSliderCount"@.len() == 23 && "aimDifficultSliderCount"@[0] == 'a' &&
        "aimDifficultSliderCount"@[1] == 'i' && "aimDifficultSliderCount"@[3] == 'D' &&
        "aimDifficultSliderCount"@[13] == 'l');
    assert("speed"@.len() == 5 && "speed"@[0] == 's' && "speed"@[1] == 'p' && "speed"@[3] == 'e');
    assert("flashlight"@.len() == 10 && "flashlight"@[0] == 'f' && "flashlight"@[1] == 'l' &&
        "flashlight"@[3] == 's');
    assert("sliderFactor"@.len() == 12 && "sliderFactor"@[0] == 's' &&
        "sliderFactor"@[1] == 'l' && "sliderFactor"@[3] == 'd');
    assert("speedNoteCount"@.len() == 14 && "speedNoteCount"@[0] == 's' &&
        "speedNoteCount"@[1] == 'p' && "speedNoteCount"@[3] == 'e' &&
        "speedNoteCount"@[13] == 't');
    assert("aimDifficultStrainCount"@.len() == 23 && "aimDifficultStrainCount"@[0] == 'a' &&
        "aimDifficultStrainCount"@[1] == 'i' && "aimDifficultStrainCount"@[3] == 'D' &&
        "aimDifficultStrainCount"@[13] == 't');
    assert("speedDifficultStrainCount"@.len() == 25 &&
        "speedDifficultStrainCount"@[0] == 's' && "speedDifficultStrainCount"@[1] == 'p' &&
        "speedDifficultStrainCount"@[3] == 'e' && "speedDifficultStrainCount"@[13] == 't');
    assert("hp"@.len() == 2 && "hp"@[0] == 'h' && "hp"@[1] == 'p');
    assert("nCircles"@.len() == 8 && "nCircles"@[0] == 'n' && "nCircles"@[1] == 'C' &&
        "nCircles"@[3] == 'r');
    assert("nSliders"@.len() == 8 && "nSliders"@[0] == 'n' && "nSliders"@[1] == 'S' &&
        "nSliders"@[3] == 'i');
    assert("nLargeTicks"@.len() == 11 && "nLargeTicks"@[0] == 'n' &&
        "nLargeTicks"@[1] == 'L' && "nLargeTicks"@[3] == 'r');
    assert("nSpinners"@.len() == 9 && "nSpinners"@[0] == 'n' && "nSpinners"@[1] == 'S' &&
        "nSpinners"@[3] == 'i');
    assert("stamina"@.len() == 7 && "stamina"@[0] == 's' && "stamina"@[1] == 't' &&
        "stamina"@[3] == 'm');
    assert("rhythm"@.len() == 6 && "rhythm"@[0] == 'r' && "rhythm"@[1] == 'h' &&
        "rhythm"@[3] == 't');
    assert("color"@.len() == 5 && "color"@[0] == 'c' && "color"@[1] == 'o' && "color"@[3] == 'o');
    assert("reading"@.len() == 7 && "reading"@[0] == 'r' && "reading"@[1] == 'e' &&
        "reading"@[3] == 'd');
    assert("nFruits"@.len() == 7 && "nFruits"@[0] == 'n' && "nFruits"@[1] == 'F' &&
        "nFruits"@[3] == 'u');
    assert("nDroplets"@.len() == 9 && "nDroplets"@[0] == 'n' && "nDroplets"@[1] == 'D' &&
        "nDroplets"@[3] == 'o');
    assert("nTinyDroplets"@.len() == 13 && "nTinyDroplets"@[0] == 'n' &&
        "nTinyDroplets"@[1] == 'T' && "nTinyDroplets"@[3] == 'n');
    assert("nObjects"@.len() == 8 && "nObjects"@[0] == 'n' && "nObjects"@[1] == 'O' &&
        "nObjects"@[3] == 'j');
    assert("nHoldNotes"@.len() == 10 && "nHoldNotes"@[0] == 'n' && "nHoldNotes"@[1] == 'H' &&
        "nHoldNotes"@[3] == 'l');
    assert("ar"@.len() == 2 && "ar"@[0] == 'a' && "ar"@[1] == 'r');
    assert("greatHitWindow"@.len() == 14 && "greatHitWindow"@[0] == 'g' &&
        "greatHitWindow"@[1] == 'r' && "greatHitWindow"@[3] == 'a' &&
        "greatHitWindow"@[13] == 'w');
    assert("okHitWindow"@.len() == 11 && "okHitWindow"@[0] == 'o' &&
        "okHitWindow"@[1] == 'k' && "okHitWindow"@[3] == 'i');
    assert("mehHitWindow"@.len() == 12 && "mehHitWindow"@[0] == 'm' &&
        "mehHitWindow"@[1] == 'e' && "mehHitWindow"@[3] == 'H');
    assert("monoStaminaFactor"@.len() == 17 && "monoStaminaFactor"@[0] == 'm' &&
        "monoStaminaFactor"@[1] == 'o' && "monoStaminaFactor"@[3] == 'o' &&
        "monoStaminaFactor"@[13] == 'c');
    assert("maxCombo"@.len() == 8 && "maxCombo"@[0] == 'm' && "maxCombo"@[1] == 'a' &&
        "maxCombo"@[3] == 'C');
    let fields = JsDifficultyAttributes::fields();
    assert(fields.len() == 31);
    assert forall|i: int, j: int|
        0 <= i < fields.len() && 0 <= j < fields.len() && i != j implies (#[trigger] fields[i]).name
        != (#[trigger] fields[j]).name by {
        assert(i == 0 || i == 1 || i == 2 || i == 3 || i == 4 || i == 5 || i == 6 || i == 7 ||
            i == 8 || i == 9 || i == 10 || i == 11 || i == 12 || i == 13 || i == 14 ||
            i == 15 || i == 16 || i == 17 || i == 18 || i == 19 || i == 20 || i == 21 ||
            i == 22 || i == 23 || i == 24 || i == 25 || i == 26 || i == 27 || i == 28 ||
            i == 29 || i == 30);
        assert(j == 0 || j == 1 || j == 2 || j == 3 || j == 4 || j == 5 || j == 6 || j == 7 ||
            j == 8 || j == 9 || j == 10 || j == 11 || j == 12 || j == 13 || j == 14 ||
            j == 15 || j == 16 || j == 17 || j == 18 || j == 19 || j == 20 || j == 21 ||
            j == 22 || j == 23 || j == 24 || j == 25 || j == 26 || j == 27 || j == 28 ||
            j == 29 || j == 30);
    }
}

impl JsDifficultyAttributes {
    /// Decodes previously calculated attributes from an object of their type.
    pub fn deserialize(d: &JsDeserializer) -> (r: Result<JsDifficultyAttributes, DecodeError>)
        ensures
            outcome(r) == Self::decode(d@),
    {
        let schema = Self::schema();
        let slots = decode_object_of(d, DIFFICULTY_CLASS, &schema)?;
        proof {
            lemma_decoded_slots_len(d@, DIFFICULTY_CLASS@, fields_view(schema@));
        }
        Ok(Self::from_decoded(&slots))
    }

    /// The object that stands for the attributes: an instance of their type
    /// with an entry for every attribute that is there.
    ///
    /// Decoding the object gives the attributes back.
    pub fn to_value(&self) -> (r: Value)
        ensures
            r@ == self.encode(),
            Self::decode(r@) == Ok::<_, DecodeErrorView>(*self),
    {
        let schema = Self::schema();
        let slots = self.to_slots();
        proof {
            lemma_difficulty_attributes_names_distinct();
        }
        encode_object(DIFFICULTY_CLASS, &schema, &slots)
    }
}

} // verus!
