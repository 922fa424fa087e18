//! Decoding of host values for a difficulty and performance calculator.
//!
//! A scripting host hands over dynamically typed values: settings objects,
//! byte buffers, strings, instances of previously constructed types. This
//! library turns them into strongly typed configuration structures and turns
//! results back into host values. The calculation itself is the business of
//! another library; what is decided here is what a value is taken for, and
//! what a caller is told when it cannot be taken for anything.
//!
//! - [`value`] holds a host value as plain data, [`number`] its numbers by
//!   their bit patterns, and [`error`] what a failed decode reports.
//! - [`deserializer`] decodes scalars, sequences, mappings and objects of a
//!   named type.
//! - [`schema`] decodes and encodes an object field by field against a fixed
//!   list of fields, telling an absent key from a key that holds nothing.
//! - [`args`], [`score_state`], [`mods`], [`mode`] and [`attributes`] are the
//!   structures with their schemas; [`difficulty`], [`performance`] and
//!   [`calculator`] the builders that hold settings; [`beatmap`] and
//!   [`strains`] what is parsed and what is calculated.
//!
//! The executable functions carry contracts over the views of their
//! arguments. What is taken on trust from the beatmap library is named in
//! [`beatmap`].

pub mod args;
pub mod attributes;
pub mod beatmap;
pub mod calculator;
pub mod deserializer;
pub mod difficulty;
pub mod error;
pub mod mode;
pub mod mods;
pub mod number;
pub mod performance;
pub mod schema;
pub mod score_state;
pub mod strains;
pub mod util;
pub mod value;
