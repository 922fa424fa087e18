//! What a failed decode reports.
//!
//! Every failure is one [`DecodeError`]. It names what was expected and what
//! was found through the closed set of [`Description`]s, or through field and
//! type names; nothing of the host's own representation of a value gets into
//! it. [`DecodeError::message`] renders the one line that a user sees.

use vstd::prelude::*;
use vstd::string::StringExecFns;

verus! {

/// A short description of a shape of host value.
#[derive(Clone, Copy, Debug, PartialEq, Eq, Hash, Structural)]
pub enum Description {
    /// Null or undefined.
    Unit,
    Bool,
    /// Any number.
    Float,
    /// A number that stands for an integer exactly.
    SafeInteger,
    Str,
    /// A byte buffer.
    Bytes,
    BytesOrString,
    /// An array or another iterable.
    Sequence,
    /// A keyed object or an iterable of pairs.
    Mapping,
    /// A two-element array.
    Pair,
    /// A keyed object.
    Object,
    /// A number or a string.
    NumberOrString,
    /// One of the shapes that specify mods.
    Mods,
    /// Previously calculated attributes or a beatmap.
    MapOrAttributes,
    /// Anything that has no description of its own.
    Other,
}

impl Description {
    /// The words that stand for the description in a message.
    pub open spec fn text(self) -> Seq<char> {
        match self {
            Description::Unit => "unit"@,
            Description::Bool => "a boolean"@,
            Description::Float => "a float"@,
            Description::SafeInteger => "a safe integer"@,
            Description::Str => "a string"@,
            Description::Bytes => "a Uint8Array"@,
            Description::BytesOrString => "a Uint8Array or a string"@,
            Description::Sequence => "an array or an iterable"@,
            Description::Mapping => "an object or an iterable of pairs"@,
            Description::Pair => "a [key, value] pair"@,
            Description::Object => "an object"@,
            Description::NumberOrString => "a number or a string"@,
            Description::Mods => "an integer, a string, a mod object or a sequence of those"@,
            Description::MapOrAttributes => "previously calculated attributes or a beatmap"@,
            Description::Other => "other"@,
        }
    }

    /// Whether this is one of the descriptions that a probe of a value gives.
    pub open spec fn is_found_shape(self) -> bool {
        self is Unit || self is Bool || self is Float || self is Str || self is Bytes
            || self is Other
    }

    /// The words that stand for the description in a message.
    pub fn describe(self) -> (r: &'static str)
        ensures
            r@ == self.text(),
    {
        match self {
            Description::Unit => "unit",
            Description::Bool => "a boolean",
            Description::Float => "a float",
            Description::SafeInteger => "a safe integer",
            Description::Str => "a string",
            Description::Bytes => "a Uint8Array",
            Description::BytesOrString => "a Uint8Array or a string",
            Description::Sequence => "an array or an iterable",
            Description::Mapping => "an object or an iterable of pairs",
            Description::Pair => "a [key, value] pair",
            Description::Object => "an object",
            Description::NumberOrString => "a number or a string",
            Description::Mods => "an integer, a string, a mod object or a sequence of those",
            Description::MapOrAttributes => "previously calculated attributes or a beatmap",
            Description::Other => "other",
        }
    }
}

/// Why a decode failed.
#[derive(Clone, Debug, PartialEq, Eq)]
pub enum DecodeError {
    /// The value has another shape than the one asked for.
    InvalidType { expected: Description, found: Description },
    /// A field that must be there is not a key of the value.
    MissingRequiredField { name: &'static str },
    /// The value is an object, but of another type than the one asked for.
    InvalidNominalType { expected_name: &'static str, found_name: String },
    /// The value has the right shape but lies outside what the field admits.
    OutOfRange { field: &'static str, constraint: &'static str },
}

/// What a decode gives: the whole value, or the error. Nothing partial.
pub type DecodeResult<T> = Result<T, DecodeError>;

/// A [`DecodeError`] with its names as character sequences.
pub ghost enum DecodeErrorView {
    InvalidType { expected: Description, found: Description },
    MissingRequiredField { name: Seq<char> },
    InvalidNominalType { expected_name: Seq<char>, found_name: Seq<char> },
    OutOfRange { field: Seq<char>, constraint: Seq<char> },
}

impl DecodeErrorView {
    /// The line that reports the failure.
    pub open spec fn message(self) -> Seq<char> {
        match self {
            DecodeErrorView::InvalidType { expected, found } => "expected "@ + expected.text()
                + ", found "@ + found.text(),
            DecodeErrorView::MissingRequiredField { name } => "missing required field `"@ + name
                + "`"@,
            DecodeErrorView::InvalidNominalType {
                expected_name,
                found_name,
            } => "expected an object named `"@ + expected_name + "`, found `"@ + found_name + "`"@,
            DecodeErrorView::OutOfRange { field, constraint } => "field `"@ + field
                + "` out of range: expected "@ + constraint,
        }
    }
}

impl View for DecodeError {
    type V = DecodeErrorView;

    open spec fn view(&self) -> DecodeErrorView {
        match self {
            DecodeError::InvalidType { expected, found } => DecodeErrorView::InvalidType {
                expected: *expected,
                found: *found,
            },
            DecodeError::MissingRequiredField { name } => DecodeErrorView::MissingRequiredField {
                name: name@,
            },
            DecodeError::InvalidNominalType {
                expected_name,
                found_name,
            } => DecodeErrorView::InvalidNominalType {
                expected_name: expected_name@,
                found_name: found_name@,
            },
            DecodeError::OutOfRange { field, constraint } => DecodeErrorView::OutOfRange {
                field: field@,
                constraint: constraint@,
            },
        }
    }
}

impl DecodeError {
    /// The line that reports the failure.
    pub fn message(&self) -> (r: String)
        ensures
            r@ == self@.message(),
    {
        match self {
            DecodeError::InvalidType { expected, found } => {
                let mut out = String::from_str("expected ");
                out.append(expected.describe());
                out.append(", found ");
                out.append(found.describe());
                out
            },
            DecodeError::MissingRequiredField { name } => {
                let mut out = String::from_str("missing required field `");
                out.append(name);
                out.append("`");
                out
            },
            DecodeError::InvalidNominalType { expected_name, found_name } => {
                let mut out = String::from_str("expected an object named `");
                out.append(expected_name);
                out.append("`, found `");
                out.append(found_name.as_str());
                out.append("`");
                out
            },
            DecodeError::OutOfRange { field, constraint } => {
                let mut out = String::from_str("field `");
                out.append(field);
                out.append("` out of range: expected ");
                out.append(constraint);
                out
            },
        }
    }
}

/// A failure as it is handed to the host: one descriptive message.
#[derive(Debug, PartialEq, Eq)]
pub struct JsError {
    pub message: String,
}

/// What a call for the host gives: a value, or the message of a failure.
pub type JsResult<T> = Result<T, JsError>;

impl View for JsError {
    type V = Seq<char>;

    open spec fn view(&self) -> Seq<char> {
        self.message@
    }
}

impl JsError {
    /// A failure with the given message.
    pub fn new(msg: &str) -> (r: Self)
        ensures
            r@ == msg@,
    {
        Self { message: String::from_str(msg) }
    }

    /// The failure that reports a failed decode.
    pub fn from_decode(error: &DecodeError) -> (r: Self)
        ensures
            r@ == error@.message(),
    {
        Self { message: error.message() }
    }
}

/// The view of a decode's outcome: the value's view, or the error's.
pub open spec fn result_view<T: View>(r: Result<T, DecodeError>) -> Result<T::V, DecodeErrorView> {
    match r {
        Ok(v) => Ok(v@),
        Err(e) => Err(e@),
    }
}

} // verus!
