//! Game modes.

use crate::deserializer::{decode_unsigned_integer, JsDeserializer};
use crate::error::{DecodeError, DecodeErrorView};
use crate::number::{Number, number_of};
use crate::value::{HostValue, Value};
use vstd::prelude::*;

verus! {

/// The name under which a game mode out of range is reported.
pub const MODE_FIELD: &'static str = "GameMode";

/// What a game mode out of range is told to be.
pub const MODE_CONSTRAINT: &'static str = "0, 1, 2 or 3";

/// One of the four game modes. The host writes them as the integers 0 to 3.
#[derive(Copy, Clone, Debug, PartialEq, Eq, Hash, Structural)]
pub enum JsGameMode {
    Osu,
    Taiko,
    Catch,
    Mania,
}

/// The beatmap library's game mode, with its four variants.
#[verifier::external_type_specification]
pub struct ExGameMode(rosu_pp::model::mode::GameMode);

impl From<rosu_pp::model::mode::GameMode> for JsGameMode {
    fn from(mode: rosu_pp::model::mode::GameMode) -> (r: Self)
        ensures
            r == JsGameMode::of(mode),
    {
        match mode {
            rosu_pp::model::mode::GameMode::Osu => Self::Osu,
            rosu_pp::model::mode::GameMode::Taiko => Self::Taiko,
            rosu_pp::model::mode::GameMode::Catch => Self::Catch,
            rosu_pp::model::mode::GameMode::Mania => Self::Mania,
        }
    }
}

impl vstd::std_specs::convert::FromSpecImpl<rosu_pp::model::mode::GameMode> for JsGameMode {
    open spec fn obeys_from_spec() -> bool {
        true
    }

    open spec fn from_spec(mode: rosu_pp::model::mode::GameMode) -> Self {
        JsGameMode::of(mode)
    }
}

impl From<JsGameMode> for rosu_pp::model::mode::GameMode {
    fn from(mode: JsGameMode) -> (r: Self)
        ensures
            r == mode.to_game_mode(),
    {
        match mode {
            JsGameMode::Osu => Self::Osu,
            JsGameMode::Taiko => Self::Taiko,
            JsGameMode::Catch => Self::Catch,
            JsGameMode::Mania => Self::Mania,
        }
    }
}

impl vstd::std_specs::convert::FromSpecImpl<JsGameMode> for rosu_pp::model::mode::GameMode {
    open spec fn obeys_from_spec() -> bool {
        true
    }

    open spec fn from_spec(mode: JsGameMode) -> Self {
        mode.to_game_mode()
    }
}

/// Going to the beatmap library's game mode and back changes nothing, in
/// either direction.
pub proof fn lemma_game_modes_correspond(mode: JsGameMode, other: rosu_pp::model::mode::GameMode)
    ensures
        JsGameMode::of(mode.to_game_mode()) == mode,
        JsGameMode::of(other).to_game_mode() == other,
{
}

impl Default for JsGameMode {
    fn default() -> (r: Self)
        ensures
            r == JsGameMode::Osu,
    {
        JsGameMode::Osu
    }
}

/// The mode that the integer `n` stands for.
pub open spec fn mode_of(n: int) -> Option<JsGameMode> {
    if n == 0 {
        Some(JsGameMode::Osu)
    } else if n == 1 {
        Some(JsGameMode::Taiko)
    } else if n == 2 {
        Some(JsGameMode::Catch)
    } else if n == 3 {
        Some(JsGameMode::Mania)
    } else {
        None
    }
}

/// A game mode decodes from a safe integer from 0 to 3. What is no such
/// integer is of the wrong type; an integer above 3 is out of range.
pub open spec fn decode_mode(v: HostValue) -> Result<JsGameMode, DecodeErrorView> {
    match decode_unsigned_integer(v) {
        Err(e) => Err(e),
        Ok(n) => match mode_of(n) {
            Some(mode) => Ok(mode),
            None => Err(
                DecodeErrorView::OutOfRange { field: MODE_FIELD@, constraint: MODE_CONSTRAINT@ },
            ),
        },
    }
}

impl JsGameMode {
    /// The mode that stands for the beatmap library's mode of the same name.
    pub open spec fn of(mode: rosu_pp::model::mode::GameMode) -> JsGameMode {
        match mode {
            rosu_pp::model::mode::GameMode::Osu => JsGameMode::Osu,
            rosu_pp::model::mode::GameMode::Taiko => JsGameMode::Taiko,
            rosu_pp::model::mode::GameMode::Catch => JsGameMode::Catch,
            rosu_pp::model::mode::GameMode::Mania => JsGameMode::Mania,
        }
    }

    /// The beatmap library's mode of the same name.
    pub open spec fn to_game_mode(self) -> rosu_pp::model::mode::GameMode {
        match self {
            JsGameMode::Osu => rosu_pp::model::mode::GameMode::Osu,
            JsGameMode::Taiko => rosu_pp::model::mode::GameMode::Taiko,
            JsGameMode::Catch => rosu_pp::model::mode::GameMode::Catch,
            JsGameMode::Mania => rosu_pp::model::mode::GameMode::Mania,
        }
    }

    /// The integer that the host writes for the mode.
    pub open spec fn index(self) -> int {
        match self {
            JsGameMode::Osu => 0,
            JsGameMode::Taiko => 1,
            JsGameMode::Catch => 2,
            JsGameMode::Mania => 3,
        }
    }

    /// The integer that the host writes for the mode.
    pub fn as_u8(self) -> (r: u8)
        ensures
            r == self.index(),
            mode_of(r as int) == Some(self),
    {
        match self {
            JsGameMode::Osu => 0,
            JsGameMode::Taiko => 1,
            JsGameMode::Catch => 2,
            JsGameMode::Mania => 3,
        }
    }

    /// Decodes a game mode.
    pub fn deserialize(d: &JsDeserializer) -> (r: Result<JsGameMode, DecodeError>)
        ensures
            crate::deserializer::outcome(r) == decode_mode(d@),
    {
        let n = d.deserialize_from_js_number_unsigned()?;
        if n == 0 {
            Ok(JsGameMode::Osu)
        } else if n == 1 {
            Ok(JsGameMode::Taiko)
        } else if n == 2 {
            Ok(JsGameMode::Catch)
        } else if n == 3 {
            Ok(JsGameMode::Mania)
        } else {
            Err(DecodeError::OutOfRange { field: MODE_FIELD, constraint: MODE_CONSTRAINT })
        }
    }

    /// The host value that stands for the mode: the number of its integer.
    pub open spec fn encode(self) -> HostValue {
        HostValue::Number(number_of(self.index() as nat))
    }

    /// The host value that stands for the mode.
    pub fn to_value(self) -> (r: Value)
        ensures
            r@ == self.encode(),
            decode_mode(r@) == Ok::<_, DecodeErrorView>(self),
    {
        Value::Number(Number::from_u32(self.as_u8() as u32))
    }
}

} // verus!
