//! What the calculations give back.

pub mod beatmap;
pub mod difficulty;
pub mod performance;
