//! Small helpers shared by the decoders.

use crate::args::beatmap::{BeatmapAttributesArgs, BeatmapAttributesArgsView, BeatmapContent};
use crate::args::difficulty::{DifficultyArgs, DifficultyArgsView};
use crate::args::performance::{PerformanceArgs, PerformanceArgsView};
use crate::attributes::difficulty::JsDifficultyAttributes;
use crate::score_state::{JsScoreState, ScoreState};
use crate::deserializer::{decode_bytes, JsDeserializer};
use crate::error::{DecodeError, DecodeErrorView, result_view};
use crate::value::{HostValue, Value};
use vstd::prelude::*;
use vstd::string::StringSliceAdditionalSpecFns;
use vstd::utf8::encode_utf8_decode_utf8;

verus! {

/// Whether two string slices hold the same text.
///
/// Compared byte by byte over the UTF-8 encodings; since the encoding is
/// injective, equal bytes mean equal characters.
pub fn str_eq(a: &str, b: &str) -> (r: bool)
    ensures
        r == (a@ == b@),
{
    let x = a.as_bytes();
    let y = b.as_bytes();
    proof {
        encode_utf8_decode_utf8(a@);
        encode_utf8_decode_utf8(b@);
    }
    if x.len() != y.len() {
        return false;
    }
    let mut i: usize = 0;
    while i < x.len()
        invariant
            i <= x.len(),
            x.len() == y.len(),
            x@ == a.spec_bytes(),
            y@ == b.spec_bytes(),
            forall|j: int| 0 <= j < i ==> x@[j] == y@[j],
        decreases x.len() - i,
    {
        if x[i] != y[i] {
            return false;
        }
        i = i + 1;
    }
    assert(x@ =~= y@);
    true
}

/// A type that decodes from a host value, and says to what.
pub trait Deserialize: Sized + View {
    /// What a host value decodes to.
    spec fn decode(v: HostValue) -> Result<Self::V, DecodeErrorView>;

    /// Decodes a host value.
    fn deserialize(d: &JsDeserializer) -> (r: Result<Self, DecodeError>)
        ensures
            result_view(r) == Self::decode(d@),
    ;
}

impl Deserialize for DifficultyArgs {
    open spec fn decode(v: HostValue) -> Result<DifficultyArgsView, DecodeErrorView> {
        DifficultyArgsView::decode(v)
    }

    fn deserialize(d: &JsDeserializer) -> (r: Result<Self, DecodeError>) {
        DifficultyArgs::deserialize(d)
    }
}

impl Deserialize for PerformanceArgs {
    open spec fn decode(v: HostValue) -> Result<PerformanceArgsView, DecodeErrorView> {
        PerformanceArgsView::decode(v)
    }

    fn deserialize(d: &JsDeserializer) -> (r: Result<Self, DecodeError>) {
        PerformanceArgs::deserialize(d)
    }
}

impl Deserialize for BeatmapAttributesArgs {
    open spec fn decode(v: HostValue) -> Result<BeatmapAttributesArgsView, DecodeErrorView> {
        BeatmapAttributesArgsView::decode(v)
    }

    fn deserialize(d: &JsDeserializer) -> (r: Result<Self, DecodeError>) {
        BeatmapAttributesArgs::deserialize(d)
    }
}

impl Deserialize for BeatmapContent {
    open spec fn decode(v: HostValue) -> Result<Seq<u8>, DecodeErrorView> {
        decode_bytes(v)
    }

    fn deserialize(d: &JsDeserializer) -> (r: Result<Self, DecodeError>) {
        BeatmapContent::deserialize(d)
    }
}

impl Deserialize for JsDifficultyAttributes {
    open spec fn decode(v: HostValue) -> Result<JsDifficultyAttributes, DecodeErrorView> {
        JsDifficultyAttributes::decode(v)
    }

    fn deserialize(d: &JsDeserializer) -> (r: Result<Self, DecodeError>) {
        JsDifficultyAttributes::deserialize(d)
    }
}

impl Deserialize for ScoreState {
    open spec fn decode(v: HostValue) -> Result<ScoreState, DecodeErrorView> {
        ScoreState::decode(v)
    }

    fn deserialize(d: &JsDeserializer) -> (r: Result<Self, DecodeError>) {
        JsScoreState::deserialize(d)
    }
}

/// Decodes a host value into the type that the caller names.
pub fn from_value<T: Deserialize>(value: &Value) -> (r: Result<T, DecodeError>)
    ensures
        result_view(r) == T::decode(value@),
{
    T::deserialize(&JsDeserializer::from_ref(value))
}

/// Expects one particular key where the key of a field is decoded.
#[derive(Clone, Copy, Debug, PartialEq, Eq)]
pub struct FieldVisitor {
    name: &'static str,
}

impl View for FieldVisitor {
    type V = Seq<char>;

    closed spec fn view(&self) -> Seq<char> {
        self.name@
    }
}

impl FieldVisitor {
    /// A visitor that expects the key `name`.
    pub fn new(name: &'static str) -> (r: Self)
        ensures
            r@ == name@,
    {
        Self { name }
    }

    /// The key that the visitor expects.
    pub fn expecting(&self) -> (r: &'static str)
        ensures
            r@ == self@,
    {
        self.name
    }

    /// Accepts the key that the visitor expects. Any other key means that
    /// the expected field is not where it must be.
    pub fn visit_str(self, v: &str) -> (r: Result<(), DecodeError>)
        ensures
            match r {
                Ok(_) => v@ == self@,
                Err(e) => v@ != self@ && e@ == (DecodeErrorView::MissingRequiredField {
                    name: self@,
                }),
            },
    {
        if str_eq(v, self.name) {
            return Ok(());
        }
        Err(DecodeError::MissingRequiredField { name: self.name })
    }
}

} // verus!
