//! The argument objects of the calculators.

pub mod beatmap;
pub mod common;
pub mod difficulty;
pub mod performance;
