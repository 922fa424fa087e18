//! Decoding of host values.
//!
//! A [`JsDeserializer`] holds one host value and turns it into what a caller
//! asks for: a scalar, the elements of a sequence, the pairs of a mapping, or
//! the entries of an object of a named type. Each request either succeeds with
//! the whole result or fails with one [`DecodeError`]; nothing partial is
//! handed out.
//!
//! For every request there is a specification function over the value's view
//! that gives the outcome, and the executable function is proved to return
//! exactly that.

use crate::error::{DecodeError, DecodeErrorView, Description};
use crate::number::{Number, number_of};
use crate::util::str_eq;
use crate::value::{
    entries_view, Entry, HostEntry, HostValue, items_view, lookup, lookup_entry, Value,
};
use std::borrow::Cow;
use vstd::arithmetic::power2::{lemma2_to64, lemma2_to64_rest, lemma_pow2_strictly_increases, pow2};
use vstd::bits::{lemma_u64_pow2_no_overflow, lemma_u64_shl_is_mul};
use vstd::prelude::*;
use vstd::string::StringExecFns;

verus! {

/// What an out-of-range unsigned integer is told to be.
pub const UNSIGNED_CONSTRAINT: &'static str = "an unsigned integer that fits the field";

/// The error for a value of the wrong shape: what was expected, and what a
/// probe of the value finds.
pub open spec fn invalid_type(expected: Description, found: HostValue) -> DecodeErrorView {
    DecodeErrorView::InvalidType { expected, found: found.shape() }
}

/// Leaves the value of an outcome as it is and takes the error by its view.
pub open spec fn outcome<T>(r: Result<T, DecodeError>) -> Result<T, DecodeErrorView> {
    match r {
        Ok(v) => Ok(v),
        Err(e) => Err(e@),
    }
}

/// A boolean decodes to itself; nothing else is a boolean.
pub open spec fn decode_bool(v: HostValue) -> Result<bool, DecodeErrorView> {
    match v {
        HostValue::Bool(b) => Ok(b),
        _ => Err(invalid_type(Description::Bool, v)),
    }
}

/// A number that stands for a safe integer of no negative value decodes to
/// that integer. Fractions, integers beyond the safe range, negative integers
/// and everything that is no number are of the wrong type.
pub open spec fn decode_unsigned_integer(v: HostValue) -> Result<int, DecodeErrorView> {
    match v.safe_integer() {
        Some(n) if n >= 0 => Ok(n),
        _ => Err(invalid_type(Description::SafeInteger, v)),
    }
}

/// An unsigned integer of at most `max_bits` bits: as
/// [`decode_unsigned_integer`], and out of range for `field` from `2^max_bits` on.
pub open spec fn decode_unsigned(v: HostValue, max_bits: nat, field: Seq<char>) -> Result<
    int,
    DecodeErrorView,
> {
    match decode_unsigned_integer(v) {
        Ok(n) => if n < pow2(max_bits) {
            Ok(n)
        } else {
            Err(DecodeErrorView::OutOfRange { field, constraint: UNSIGNED_CONSTRAINT@ })
        },
        Err(e) => Err(e),
    }
}

/// Any number decodes to itself, finite or not.
pub open spec fn decode_float(v: HostValue) -> Result<Number, DecodeErrorView> {
    match v {
        HostValue::Number(n) => Ok(n),
        _ => Err(invalid_type(Description::Float, v)),
    }
}

/// A string decodes to its text.
pub open spec fn decode_string(v: HostValue) -> Result<Seq<char>, DecodeErrorView> {
    match v {
        HostValue::Str(s) => Ok(s),
        _ => Err(invalid_type(Description::Str, v)),
    }
}

/// A byte buffer decodes to its bytes.
pub open spec fn decode_byte_buf(v: HostValue) -> Result<Seq<u8>, DecodeErrorView> {
    match v {
        HostValue::Bytes(b) => Ok(b),
        _ => Err(invalid_type(Description::Bytes, v)),
    }
}

/// Bytes or string: a byte buffer decodes to its bytes as they are, a string
/// to its UTF-8 encoding.
pub open spec fn decode_bytes(v: HostValue) -> Result<Seq<u8>, DecodeErrorView> {
    match v.byte_sequence() {
        Some(b) => Ok(b),
        None => Err(invalid_type(Description::BytesOrString, v)),
    }
}

/// Null and undefined are "no value"; anything else is the value itself.
pub open spec fn decode_option(v: HostValue) -> Option<HostValue> {
    if v.is_nullish() {
        None
    } else {
        Some(v)
    }
}

/// What a byte buffer yields when it is iterated: the number of each byte,
/// in order.
pub open spec fn byte_items(bytes: Seq<u8>) -> Seq<HostValue> {
    Seq::new(bytes.len(), |i: int| HostValue::Number(number_of(bytes[i] as nat)))
}

/// An array or another iterable decodes to its elements in iteration order.
/// A byte buffer iterates too: its elements are the numbers of its bytes.
pub open spec fn decode_seq(v: HostValue) -> Result<Seq<HostValue>, DecodeErrorView> {
    match v {
        HostValue::Array(items) => Ok(items),
        HostValue::Iterable(items) => Ok(items),
        HostValue::Bytes(bytes) => Ok(byte_items(bytes)),
        _ => Err(invalid_type(Description::Sequence, v)),
    }
}

/// The element of `items` at `i`, or undefined beyond the end.
pub open spec fn element_or_undefined(items: Seq<HostValue>, i: int) -> HostValue {
    if 0 <= i < items.len() {
        items[i]
    } else {
        HostValue::Undefined
    }
}

/// A `[key, value]` pair is an array; its first two elements are the key and
/// the value, and an element that is not there is undefined.
pub open spec fn pair_of(item: HostValue) -> Result<(HostValue, HostValue), DecodeErrorView> {
    match item {
        HostValue::Array(items) => Ok(
            (element_or_undefined(items, 0), element_or_undefined(items, 1)),
        ),
        _ => Err(invalid_type(Description::Pair, item)),
    }
}

/// The pairs of a sequence of `[key, value]` items, in order; the first item
/// that is no pair gives the error.
pub open spec fn pairs_of(items: Seq<HostValue>) -> Result<
    Seq<(HostValue, HostValue)>,
    DecodeErrorView,
>
    decreases items.len(),
{
    if items.len() == 0 {
        Ok(Seq::empty())
    } else {
        match pairs_of(items.drop_last()) {
            Err(e) => Err(e),
            Ok(pairs) => match pair_of(items.last()) {
                Err(e) => Err(e),
                Ok(pair) => Ok(pairs.push(pair)),
            },
        }
    }
}

/// The entries of an object as pairs, each key as a string value.
pub open spec fn entry_pairs(entries: Seq<HostEntry>) -> Seq<(HostValue, HostValue)> {
    Seq::new(entries.len(), |i: int| (HostValue::Str(entries[i].key), entries[i].value))
}

/// A mapping is an iterable of `[key, value]` pairs or a keyed object; both
/// decode to the same thing, a sequence of pairs in enumeration order. A byte
/// buffer iterates over numbers, so only an empty one is a mapping.
pub open spec fn decode_map(v: HostValue) -> Result<Seq<(HostValue, HostValue)>, DecodeErrorView> {
    match v {
        HostValue::Array(items) => pairs_of(items),
        HostValue::Iterable(items) => pairs_of(items),
        HostValue::Bytes(bytes) => pairs_of(byte_items(bytes)),
        HostValue::Object { class_name, entries } => Ok(entry_pairs(entries)),
        _ => Err(invalid_type(Description::Mapping, v)),
    }
}

/// An object of the named type decodes to its entries. What is no object is
/// of the wrong type; an object that reports another type name is rejected by
/// that name, whatever its entries are.
pub open spec fn decode_struct(v: HostValue, struct_name: Seq<char>) -> Result<
    Seq<HostEntry>,
    DecodeErrorView,
> {
    match v {
        HostValue::Object { class_name, entries } => if class_name == struct_name {
            Ok(entries)
        } else {
            Err(
                DecodeErrorView::InvalidNominalType {
                    expected_name: struct_name,
                    found_name: class_name,
                },
            )
        },
        _ => Err(invalid_type(Description::Object, v)),
    }
}

/// The views of decoded elements.
pub open spec fn elements_view(elements: Seq<JsDeserializer>) -> Seq<HostValue> {
    Seq::new(elements.len(), |i: int| elements[i]@)
}

/// The views of decoded pairs.
pub open spec fn pairs_view(pairs: Seq<(JsDeserializer, JsDeserializer)>) -> Seq<
    (HostValue, HostValue),
> {
    Seq::new(pairs.len(), |i: int| (pairs[i].0@, pairs[i].1@))
}

/// A read-only handle on one host value for the length of one decode.
pub struct JsDeserializer<'js> {
    value: Cow<'js, Value>,
}

impl<'js> View for JsDeserializer<'js> {
    type V = HostValue;

    closed spec fn view(&self) -> HostValue {
        self.value@
    }
}

/// What a value turns out to be when nothing particular is asked of it.
pub enum Visit<'a> {
    Str(&'a str),
    ByteBuf(&'a Vec<u8>),
    Bool(bool),
    /// A number that stands for a safe integer.
    I64(i64),
    /// Any other number.
    F64(Number),
    Sequence(&'a Vec<Value>),
    Mapping(Vec<(JsDeserializer<'a>, JsDeserializer<'a>)>),
}

/// What [`JsDeserializer::deserialize_any`] finds in a value.
pub open spec fn visit_matches(v: HostValue, visit: Visit) -> bool {
    match v {
        HostValue::Str(s) => visit matches Visit::Str(t) && t@ == s,
        HostValue::Bytes(b) => visit matches Visit::ByteBuf(c) && c@ == b,
        HostValue::Bool(b) => visit == Visit::Bool(b),
        HostValue::Number(n) => match n.safe_integer() {
            Some(i) => visit matches Visit::I64(j) && j == i,
            None => visit == Visit::F64(n),
        },
        HostValue::Array(items) => visit matches Visit::Sequence(elements) && items_view(elements@)
            == items,
        _ => visit matches Visit::Mapping(pairs) && decode_map(v) == Ok::<_, DecodeErrorView>(
            pairs_view(pairs@),
        ),
    }
}

/// The outcome of [`JsDeserializer::deserialize_any`]: strings, bytes,
/// booleans, numbers and arrays are always visited; other iterables and
/// objects are visited as mappings; the rest has no shape to visit.
pub open spec fn decode_any_fails(v: HostValue, expected: Description) -> Option<DecodeErrorView> {
    match v {
        HostValue::Str(_) | HostValue::Bytes(_) | HostValue::Bool(_) | HostValue::Number(_)
        | HostValue::Array(_) => None,
        HostValue::Iterable(_) | HostValue::Object { .. } => match decode_map(v) {
            Ok(_) => None,
            Err(e) => Some(e),
        },
        _ => Some(invalid_type(expected, v)),
    }
}

impl<'js> JsDeserializer<'js> {
    /// A decoder that borrows the value.
    pub fn from_ref(value: &'js Value) -> (r: Self)
        ensures
            r@ == value@,
    {
        Self { value: Cow::Borrowed(value) }
    }

    /// A decoder that owns the value.
    pub fn from_owned(value: Value) -> (r: Self)
        ensures
            r@ == value@,
    {
        Self { value: Cow::Owned(value) }
    }

    /// The value that is being decoded.
    pub fn value(&self) -> (r: &Value)
        ensures
            r@ == self@,
    {
        match &self.value {
            Cow::Borrowed(v) => v,
            Cow::Owned(v) => v,
        }
    }

    /// Whether the value is null or undefined.
    pub fn is_nullish(&self) -> (r: bool)
        ensures
            r == self@.is_nullish(),
    {
        self.value().is_nullish()
    }

    /// The bytes, if the value is a byte buffer.
    pub fn as_bytes(&self) -> (r: Option<Vec<u8>>)
        ensures
            match r {
                Some(b) => self@ == HostValue::Bytes(b@),
                None => !(self@ is Bytes),
            },
    {
        match self.value() {
            Value::Bytes(b) => Some(b.clone()),
            _ => None,
        }
    }

    /// The entries, if the value is a keyed object.
    pub fn as_object_entries(&self) -> (r: Option<&Vec<Entry>>)
        ensures
            match r {
                Some(entries) => self@ is Object && self@->entries == entries_view(entries@),
                None => !(self@ is Object),
            },
    {
        match self.value() {
            Value::Object { class_name, entries } => Some(entries),
            _ => None,
        }
    }

    /// The error for this value where `expected` was asked for.
    pub fn invalid_type_(&self, expected: Description) -> (r: DecodeError)
        ensures
            r@ == invalid_type(expected, self@),
    {
        DecodeError::InvalidType { expected, found: self.value().shape() }
    }

    /// The failure for this value where `expected` was asked for.
    pub fn invalid_type<T>(&self, expected: Description) -> (r: Result<T, DecodeError>)
        ensures
            r matches Err(e) && e@ == invalid_type(expected, self@),
    {
        Err(self.invalid_type_(expected))
    }

    /// The integer, if the value is a number that stands for a safe integer.
    pub fn as_safe_integer(&self) -> (r: Option<i64>)
        ensures
            match r {
                Some(n) => self@.safe_integer() == Some(n as int),
                None => self@.safe_integer() is None,
            },
    {
        self.value().as_safe_integer()
    }

    /// Decodes a safe integer that is not negative.
    pub fn deserialize_from_js_number_unsigned(&self) -> (r: Result<u64, DecodeError>)
        ensures
            match r {
                Ok(n) => decode_unsigned_integer(self@) == Ok::<int, DecodeErrorView>(n as int),
                Err(e) => decode_unsigned_integer(self@) == Err::<int, DecodeErrorView>(e@),
            },
    {
        match self.as_safe_integer() {
            Some(v) if v >= 0 => Ok(v as u64),
            _ => self.invalid_type(Description::SafeInteger),
        }
    }

    /// Decodes an unsigned integer of at most `max_bits` bits for the field
    /// named `field`.
    pub fn decode_unsigned(&self, max_bits: u32, field: &'static str) -> (r: Result<
        u64,
        DecodeError,
    >)
        ensures
            match r {
                Ok(n) => decode_unsigned(self@, max_bits as nat, field@) == Ok::<
                    int,
                    DecodeErrorView,
                >(n as int),
                Err(e) => decode_unsigned(self@, max_bits as nat, field@) == Err::<
                    int,
                    DecodeErrorView,
                >(e@),
            },
    {
        let n = self.deserialize_from_js_number_unsigned()?;
        proof {
            lemma2_to64();
            lemma2_to64_rest();
        }
        if max_bits >= 53 {
            proof {
                if max_bits > 53 {
                    lemma_pow2_strictly_increases(53, max_bits as nat);
                }
            }
            return Ok(n);
        }
        proof {
            lemma_u64_pow2_no_overflow(max_bits as nat);
            lemma_u64_shl_is_mul(1, max_bits as u64);
        }
        let limit: u64 = 1u64 << max_bits;
        if n < limit {
            Ok(n)
        } else {
            Err(DecodeError::OutOfRange { field, constraint: UNSIGNED_CONSTRAINT })
        }
    }

    /// Decodes a boolean.
    pub fn deserialize_bool(&self) -> (r: Result<bool, DecodeError>)
        ensures
            outcome(r) == decode_bool(self@),
    {
        match self.value().as_bool() {
            Some(v) => Ok(v),
            None => self.invalid_type(Description::Bool),
        }
    }

    /// Decodes an unsigned integer of eight bits for the field named `field`.
    pub fn deserialize_u8(&self, field: &'static str) -> (r: Result<u8, DecodeError>)
        ensures
            match r {
                Ok(n) => decode_unsigned(self@, 8, field@) == Ok::<int, DecodeErrorView>(n as int),
                Err(e) => decode_unsigned(self@, 8, field@) == Err::<int, DecodeErrorView>(e@),
            },
    {
        let n = self.decode_unsigned(8, field)?;
        proof {
            lemma2_to64();
        }
        Ok(n as u8)
    }

    /// Decodes an unsigned integer of thirty-two bits for the field named `field`.
    pub fn deserialize_u32(&self, field: &'static str) -> (r: Result<u32, DecodeError>)
        ensures
            match r {
                Ok(n) => decode_unsigned(self@, 32, field@) == Ok::<int, DecodeErrorView>(n as int),
                Err(e) => decode_unsigned(self@, 32, field@) == Err::<int, DecodeErrorView>(e@),
            },
    {
        let n = self.decode_unsigned(32, field)?;
        proof {
            lemma2_to64();
        }
        Ok(n as u32)
    }

    /// Decodes a number into a field of single precision. The number is
    /// handed on as the host holds it; it is narrowed where it meets the
    /// calculation.
    pub fn deserialize_f32(&self) -> (r: Result<Number, DecodeError>)
        ensures
            outcome(r) == decode_float(self@),
    {
        self.deserialize_f64()
    }

    /// Decodes a number, finite or not.
    pub fn deserialize_f64(&self) -> (r: Result<Number, DecodeError>)
        ensures
            outcome(r) == decode_float(self@),
    {
        match self.value().as_float() {
            Some(v) => Ok(v),
            None => self.invalid_type(Description::Float),
        }
    }

    /// Decodes a string, borrowed from the value.
    pub fn deserialize_str(&self) -> (r: Result<&str, DecodeError>)
        ensures
            match r {
                Ok(s) => decode_string(self@) == Ok::<_, DecodeErrorView>(s@),
                Err(e) => decode_string(self@) == Err::<Seq<char>, _>(e@),
            },
    {
        match self.value().as_utf8_string() {
            Some(v) => Ok(v),
            None => self.invalid_type(Description::Str),
        }
    }

    /// Decodes a string into a copy of its text.
    pub fn deserialize_string(&self) -> (r: Result<String, DecodeError>)
        ensures
            match r {
                Ok(s) => decode_string(self@) == Ok::<_, DecodeErrorView>(s@),
                Err(e) => decode_string(self@) == Err::<Seq<char>, _>(e@),
            },
    {
        match self.value().as_utf8_string() {
            Some(v) => Ok(String::from_str(v)),
            None => self.invalid_type(Description::Str),
        }
    }

    /// Decodes the name of a field: a string.
    pub fn deserialize_identifier(&self) -> (r: Result<&str, DecodeError>)
        ensures
            match r {
                Ok(s) => decode_string(self@) == Ok::<_, DecodeErrorView>(s@),
                Err(e) => decode_string(self@) == Err::<Seq<char>, _>(e@),
            },
    {
        self.deserialize_str()
    }

    /// Decodes a byte buffer. A string is no byte buffer here.
    pub fn deserialize_byte_buf(&self) -> (r: Result<Vec<u8>, DecodeError>)
        ensures
            match r {
                Ok(b) => decode_byte_buf(self@) == Ok::<_, DecodeErrorView>(b@),
                Err(e) => decode_byte_buf(self@) == Err::<Seq<u8>, _>(e@),
            },
    {
        match self.as_bytes() {
            Some(bytes) => Ok(bytes),
            None => self.invalid_type(Description::Bytes),
        }
    }

    /// Decodes bytes from a byte buffer or from a string.
    pub fn decode_bytes(&self) -> (r: Result<Vec<u8>, DecodeError>)
        ensures
            match r {
                Ok(b) => decode_bytes(self@) == Ok::<_, DecodeErrorView>(b@),
                Err(e) => decode_bytes(self@) == Err::<Seq<u8>, _>(e@),
            },
    {
        match self.value().as_byte_sequence() {
            Some(bytes) => Ok(bytes),
            None => self.invalid_type(Description::BytesOrString),
        }
    }

    /// Tells "no value" from a value: `None` for null and undefined.
    pub fn deserialize_option(&self) -> (r: Option<&Value>)
        ensures
            match r {
                Some(v) => decode_option(self@) == Some(v@),
                None => decode_option(self@) is None,
            },
    {
        if !self.is_nullish() {
            Some(self.value())
        } else {
            None
        }
    }

    /// Decodes a sequence into its elements, in iteration order.
    pub fn deserialize_seq<'a>(&'a self) -> (r: Result<Vec<JsDeserializer<'a>>, DecodeError>)
        ensures
            match r {
                Ok(elements) => decode_seq(self@) == Ok::<_, DecodeErrorView>(
                    elements_view(elements@),
                ),
                Err(e) => decode_seq(self@) == Err::<Seq<HostValue>, _>(e@),
            },
    {
        match self.value() {
            Value::Array(items) => Ok(elements_of(items)),
            Value::Iterable(items) => Ok(elements_of(items)),
            Value::Bytes(bytes) => {
                let mut out: Vec<JsDeserializer<'a>> = Vec::new();
                let mut i: usize = 0;
                while i < bytes.len()
                    invariant
                        i <= bytes.len(),
                        out.len() == i,
                        forall|j: int| 0 <= j < i ==> (#[trigger] out[j])@ == byte_items(bytes@)[j],
                    decreases bytes.len() - i,
                {
                    let byte: u8 = bytes[i];
                    out.push(JsDeserializer::from_owned(Value::Number(Number::from_u32(byte as u32))));
                    i = i + 1;
                }
                assert(elements_view(out@) =~= byte_items(bytes@));
                Ok(out)
            },
            _ => self.invalid_type(Description::Sequence),
        }
    }

    /// Decodes a mapping into its pairs, in enumeration order.
    pub fn deserialize_map<'a>(&'a self) -> (r: Result<
        Vec<(JsDeserializer<'a>, JsDeserializer<'a>)>,
        DecodeError,
    >)
        ensures
            match r {
                Ok(pairs) => decode_map(self@) == Ok::<_, DecodeErrorView>(pairs_view(pairs@)),
                Err(e) => decode_map(self@) == Err::<Seq<(HostValue, HostValue)>, _>(e@),
            },
    {
        match self.value() {
            Value::Array(items) => convert_pairs(items),
            Value::Iterable(items) => convert_pairs(items),
            Value::Bytes(bytes) => {
                let ghost items = byte_items(bytes@);
                if bytes.len() == 0 {
                    let out: Vec<(JsDeserializer<'a>, JsDeserializer<'a>)> = Vec::new();
                    assert(pairs_view(out@) =~= Seq::empty());
                    Ok(out)
                } else {
                    let byte: u8 = bytes[0];
                    let first = Value::Number(Number::from_u32(byte as u32));
                    proof {
                        let head = items.subrange(0, 1);
                        assert(head.drop_last() =~= Seq::empty());
                        assert(head.last() == first@);
                        assert(pairs_of(head.drop_last()) is Ok);
                        assert(pairs_of(head) is Err);
                        lemma_pairs_of_prefix_error(items, 1);
                    }
                    Err(DecodeError::InvalidType { expected: Description::Pair, found: first.shape() })
                }
            },
            Value::Object { class_name, entries } => {
                let mut out: Vec<(JsDeserializer<'a>, JsDeserializer<'a>)> = Vec::new();
                let mut i: usize = 0;
                while i < entries.len()
                    invariant
                        i <= entries.len(),
                        out.len() == i,
                        forall|j: int|
                            0 <= j < i ==> out[j].0@ == HostValue::Str(entries[j].key@) && out[j].1@
                                == entries[j].value@,
                    decreases entries.len() - i,
                {
                    let entry = &entries[i];
                    out.push(
                        (
                            JsDeserializer::from_owned(Value::Str(entry.key.clone())),
                            JsDeserializer::from_ref(&entry.value),
                        ),
                    );
                    i = i + 1;
                }
                assert(pairs_view(out@) =~= entry_pairs(entries_view(entries@)));
                Ok(out)
            },
            _ => self.invalid_type(Description::Mapping),
        }
    }

    /// Decodes an object of the type named `struct_name` into its entries.
    ///
    /// The name is read from the value's own type identity and compared
    /// exactly; the entries are not looked at.
    pub fn deserialize_struct(&self, struct_name: &'static str) -> (r: Result<
        &Vec<Entry>,
        DecodeError,
    >)
        ensures
            match r {
                Ok(entries) => decode_struct(self@, struct_name@) == Ok::<_, DecodeErrorView>(
                    entries_view(entries@),
                ),
                Err(e) => decode_struct(self@, struct_name@) == Err::<Seq<HostEntry>, _>(e@),
            },
    {
        match self.value() {
            Value::Object { class_name, entries } => {
                if str_eq(class_name.as_str(), struct_name) {
                    Ok(entries)
                } else {
                    Err(
                        DecodeError::InvalidNominalType {
                            expected_name: struct_name,
                            found_name: class_name.clone(),
                        },
                    )
                }
            },
            _ => self.invalid_type(Description::Object),
        }
    }

    /// Decodes whatever the value is: the caller says what it expected only
    /// for the case that the value has no shape to visit.
    pub fn deserialize_any<'a>(&'a self, expected: Description) -> (r: Result<
        Visit<'a>,
        DecodeError,
    >)
        ensures
            match r {
                Ok(visit) => decode_any_fails(self@, expected) is None && visit_matches(
                    self@,
                    visit,
                ),
                Err(e) => decode_any_fails(self@, expected) == Some(e@),
            },
    {
        match self.value() {
            Value::Str(s) => Ok(Visit::Str(s.as_str())),
            Value::Bytes(b) => Ok(Visit::ByteBuf(b)),
            Value::Bool(b) => Ok(Visit::Bool(*b)),
            Value::Number(n) => match n.as_safe_integer() {
                Some(i) => Ok(Visit::I64(i)),
                None => Ok(Visit::F64(*n)),
            },
            Value::Array(items) => Ok(Visit::Sequence(items)),
            Value::Iterable(_) => Ok(Visit::Mapping(self.deserialize_map()?)),
            Value::Object { .. } => Ok(Visit::Mapping(self.deserialize_map()?)),
            _ => self.invalid_type(expected),
        }
    }
}

/// The first place from `from` on whose key is present among the entries, or
/// the count of the fields where there is none.
pub open spec fn next_present(entries: Seq<HostEntry>, fields: Seq<&'static str>, from: int) -> int
    decreases fields.len() - from,
{
    if from < 0 || from >= fields.len() {
        fields.len() as int
    } else if lookup(entries, fields[from]@) is Some {
        from
    } else {
        next_present(entries, fields, from + 1)
    }
}

/// Walks the fields of a schema over the entries of an object and hands out
/// those that are present, in the order of the schema.
pub struct ObjectAccess<'js> {
    pub entries: &'js Vec<Entry>,
    pub fields: &'js [&'static str],
    /// How many fields have been passed.
    pub position: usize,
    /// The value of the field whose key was handed out last, until it is taken.
    pub next_value: Option<&'js Value>,
}

impl<'js> ObjectAccess<'js> {
    /// An access that stands before the first field.
    pub fn new(entries: &'js Vec<Entry>, fields: &'js [&'static str]) -> (r: Self)
        ensures
            r.entries == entries,
            r.fields == fields,
            r.position == 0,
            r.next_value is None,
    {
        Self { entries, fields, position: 0, next_value: None }
    }

    /// The key of the next field that is present, if there is one. Fields
    /// whose key is absent are passed over; a key that holds null or
    /// undefined is present. The value under the key is kept for
    /// [`ObjectAccess::next_value_seed`].
    pub fn next_key_seed(&mut self) -> (r: Option<&'static str>)
        requires
            old(self).position <= old(self).fields@.len(),
        ensures
            final(self).entries == old(self).entries,
            final(self).fields == old(self).fields,
            final(self).position <= final(self).fields@.len(),
            ({
                let found = next_present(
                    entries_view(old(self).entries@),
                    old(self).fields@,
                    old(self).position as int,
                );
                if found < old(self).fields@.len() {
                    &&& r == Some(old(self).fields@[found])
                    &&& final(self).position == found + 1
                    &&& final(self).next_value is Some
                    &&& lookup(entries_view(old(self).entries@), old(self).fields@[found]@) == Some(
                        final(self).next_value->Some_0@,
                    )
                } else {
                    &&& r is None
                    &&& final(self).position == old(self).fields@.len()
                    &&& final(self).next_value == old(self).next_value
                }
            }),
    {
        let ghost entries = entries_view(self.entries@);
        let ghost fields = self.fields@;
        let ghost start = self.position as int;
        while self.position < self.fields.len()
            invariant
                self.entries == old(self).entries,
                self.fields == old(self).fields,
                self.next_value == old(self).next_value,
                entries == entries_view(self.entries@),
                fields == self.fields@,
                start == old(self).position,
                start <= self.position <= fields.len(),
                next_present(entries, fields, start) == next_present(
                    entries,
                    fields,
                    self.position as int,
                ),
            decreases self.fields.len() - self.position,
        {
            let ghost here = self.position as int;
            let field = self.fields[self.position];
            self.position = self.position + 1;
            match lookup_entry(self.entries, field) {
                Some(value) => {
                    assert(next_present(entries, fields, here) == here);
                    self.next_value = Some(value);
                    return Some(field);
                },
                None => {
                    assert(next_present(entries, fields, here) == next_present(
                        entries,
                        fields,
                        here + 1,
                    ));
                },
            }
        }
        None
    }

    /// The decoder for the value of the field whose key was handed out last.
    pub fn next_value_seed(&mut self) -> (r: JsDeserializer<'js>)
        requires
            old(self).next_value is Some,
        ensures
            r@ == old(self).next_value->Some_0@,
            final(self).next_value is None,
            final(self).entries == old(self).entries,
            final(self).fields == old(self).fields,
            final(self).position == old(self).position,
    {
        let value = self.next_value.unwrap();
        self.next_value = None;
        JsDeserializer::from_ref(value)
    }
}

/// Splits a `[key, value]` item into a decoder for the key and one for the value.
pub fn convert_pair<'a>(pair: &'a Value) -> (r: Result<
    (JsDeserializer<'a>, JsDeserializer<'a>),
    DecodeError,
>)
    ensures
        match r {
            Ok(p) => pair_of(pair@) == Ok::<_, DecodeErrorView>((p.0@, p.1@)),
            Err(e) => pair_of(pair@) == Err::<(HostValue, HostValue), _>(e@),
        },
{
    match pair {
        Value::Array(items) => {
            let key = if items.len() > 0 {
                JsDeserializer::from_ref(&items[0])
            } else {
                JsDeserializer::from_owned(Value::Undefined)
            };
            let value = if items.len() > 1 {
                JsDeserializer::from_ref(&items[1])
            } else {
                JsDeserializer::from_owned(Value::Undefined)
            };
            proof {
                let views = items_view(items@);
                assert(views.len() == items.len());
                if items.len() > 0 {
                    assert(views[0] == items[0]@);
                }
                if items.len() > 1 {
                    assert(views[1] == items[1]@);
                }
            }
            Ok((key, value))
        },
        _ => Err(DecodeError::InvalidType { expected: Description::Pair, found: pair.shape() }),
    }
}

/// A decoder for each item of a sequence, in order.
pub fn elements_of<'a>(items: &'a Vec<Value>) -> (r: Vec<JsDeserializer<'a>>)
    ensures
        elements_view(r@) == items_view(items@),
{
    let mut out: Vec<JsDeserializer<'a>> = Vec::new();
    let mut i: usize = 0;
    while i < items.len()
        invariant
            i <= items.len(),
            out.len() == i,
            forall|j: int| 0 <= j < i ==> (#[trigger] out[j])@ == items[j]@,
        decreases items.len() - i,
    {
        out.push(JsDeserializer::from_ref(&items[i]));
        i = i + 1;
    }
    assert(elements_view(out@) =~= items_view(items@));
    out
}

/// Splits every item of a sequence into its pair; the first item that is no
/// pair fails the whole.
pub fn convert_pairs<'a>(items: &'a Vec<Value>) -> (r: Result<
    Vec<(JsDeserializer<'a>, JsDeserializer<'a>)>,
    DecodeError,
>)
    ensures
        match r {
            Ok(pairs) => pairs_of(items_view(items@)) == Ok::<_, DecodeErrorView>(
                pairs_view(pairs@),
            ),
            Err(e) => pairs_of(items_view(items@)) == Err::<Seq<(HostValue, HostValue)>, _>(e@),
        },
{
    let ghost all = items_view(items@);
    let mut out: Vec<(JsDeserializer<'a>, JsDeserializer<'a>)> = Vec::new();
    let mut i: usize = 0;
    assert(all.subrange(0, 0) =~= Seq::empty());
    assert(pairs_view(out@) =~= Seq::empty());
    while i < items.len()
        invariant
            i <= items.len(),
            all == items_view(items@),
            pairs_of(all.subrange(0, i as int)) == Ok::<_, DecodeErrorView>(pairs_view(out@)),
        decreases items.len() - i,
    {
        proof {
            let upto = all.subrange(0, i + 1);
            assert(upto.drop_last() =~= all.subrange(0, i as int));
            assert(upto.last() == items[i as int]@);
        }
        let ghost before = pairs_view(out@);
        match convert_pair(&items[i]) {
            Ok(pair) => {
                out.push(pair);
                assert(pairs_view(out@) =~= before.push((pair.0@, pair.1@)));
            },
            Err(e) => {
                proof {
                    lemma_pairs_of_prefix_error(all, i + 1);
                }
                return Err(e);
            },
        }
        i = i + 1;
    }
    assert(all.subrange(0, i as int) =~= all);
    Ok(out)
}

/// The decoder `f` can give `out` for some value whose view is `view`.
pub open spec fn decodes_to<T, F: Fn(&Value) -> Result<T, DecodeError>>(
    f: F,
    view: HostValue,
    out: Result<T, DecodeError>,
) -> bool {
    exists|v: Value| v@ == view && call_ensures(f, (&v,), out)
}

/// The decoder `f` can succeed on some value whose view is `view`.
pub open spec fn decodes<T, F: Fn(&Value) -> Result<T, DecodeError>>(f: F, view: HostValue) -> bool {
    exists|t: T| decodes_to(f, view, Ok(t))
}

/// The decoder `f` can fail with `e` on the element at `i` after it has
/// succeeded on every element before it.
pub open spec fn fails_first_at<T, F: Fn(&Value) -> Result<T, DecodeError>>(
    f: F,
    items: Seq<HostValue>,
    i: int,
    e: DecodeError,
) -> bool {
    &&& 0 <= i < items.len()
    &&& decodes_to(f, items[i], Err::<T, _>(e))
    &&& forall|j: int| 0 <= j < i ==> decodes(f, #[trigger] items[j])
}

/// How a sequence decode fails with `e`: the value is no sequence and `e`
/// says so, or `e` is the decoder's error on the first element that fails.
pub open spec fn sequence_fails_with<T, F: Fn(&Value) -> Result<T, DecodeError>>(
    f: F,
    v: HostValue,
    e: DecodeError,
) -> bool {
    match decode_seq(v) {
        Err(shape) => e@ == shape,
        Ok(items) => exists|i: int| #[trigger] fails_first_at(f, items, i, e),
    }
}

/// Decodes a sequence with a decoder for its elements.
///
/// The value must be an array, another iterable or a byte buffer, which
/// iterates over the numbers of its bytes. The decoder is applied to
/// each element in iteration order and the results are collected in that
/// order. The first element on which the decoder fails ends the decode with
/// the decoder's error; what was collected until then is dropped.
pub fn decode_sequence<T, F: Fn(&Value) -> Result<T, DecodeError>>(
    value: &Value,
    element_decoder: F,
) -> (r: Result<Vec<T>, DecodeError>)
    requires
        forall|v: &Value| call_requires(element_decoder, (v,)),
    ensures
        match r {
            Ok(out) => decode_seq(value@) matches Ok(items) && out.len() == items.len()
                && forall|i: int|
                0 <= i < items.len() ==> decodes_to(element_decoder, #[trigger] items[i], Ok(out[i])),
            Err(e) => sequence_fails_with(element_decoder, value@, e),
        },
{
    let deserializer = JsDeserializer::from_ref(value);
    let items = deserializer.deserialize_seq()?;
    let ghost views = elements_view(items@);
    let mut out: Vec<T> = Vec::new();
    let mut i: usize = 0;
    while i < items.len()
        invariant
            i <= items.len(),
            out.len() == i,
            views == elements_view(items@),
            decode_seq(value@) == Ok::<_, DecodeErrorView>(views),
            forall|v: &Value| call_requires(element_decoder, (v,)),
            forall|j: int|
                0 <= j < i ==> decodes_to(element_decoder, #[trigger] views[j], Ok(out[j])),
        decreases items.len() - i,
    {
        assert(views[i as int] == items[i as int]@);
        match element_decoder(items[i].value()) {
            Ok(element) => {
                out.push(element);
            },
            Err(e) => {
                proof {
                    assert(decodes_to(element_decoder, views[i as int], Err::<T, _>(e)));
                    assert forall|j: int| 0 <= j < i implies decodes(
                        element_decoder,
                        #[trigger] views[j],
                    ) by {
                        assert(decodes_to(element_decoder, views[j], Ok(out[j])));
                    }
                    let d = decode_seq(value@);
                    assert(d is Ok && d->Ok_0 == views);
                    assert(fails_first_at(element_decoder, d->Ok_0, i as int, e));
                    assert(sequence_fails_with(element_decoder, value@, e));
                }
                return Err(e);
            },
        }
        i = i + 1;
    }
    Ok(out)
}

/// The decoders can give the pair `out` for the pair of views `pair`.
pub open spec fn pair_decodes_to<
    K,
    V,
    FK: Fn(&Value) -> Result<K, DecodeError>,
    FV: Fn(&Value) -> Result<V, DecodeError>,
>(key_decoder: FK, value_decoder: FV, pair: (HostValue, HostValue), out: (K, V)) -> bool {
    decodes_to(key_decoder, pair.0, Ok(out.0)) && decodes_to(value_decoder, pair.1, Ok(out.1))
}

/// The decoders can fail with `e` on the pair of views `pair`: the key's
/// decoder fails, or it succeeds and the value's decoder fails.
pub open spec fn pair_fails_with<
    K,
    V,
    FK: Fn(&Value) -> Result<K, DecodeError>,
    FV: Fn(&Value) -> Result<V, DecodeError>,
>(key_decoder: FK, value_decoder: FV, pair: (HostValue, HostValue), e: DecodeError) -> bool {
    decodes_to(key_decoder, pair.0, Err::<K, _>(e)) || (decodes(key_decoder, pair.0) && decodes_to(
        value_decoder,
        pair.1,
        Err::<V, _>(e),
    ))
}

/// How a mapping decode fails with `e`: the value is no mapping and `e` says
/// so, or the decoders fail with `e` on one of its pairs.
pub open spec fn mapping_fails_with<
    K,
    V,
    FK: Fn(&Value) -> Result<K, DecodeError>,
    FV: Fn(&Value) -> Result<V, DecodeError>,
>(key_decoder: FK, value_decoder: FV, v: HostValue, e: DecodeError) -> bool {
    match decode_map(v) {
        Err(shape) => e@ == shape,
        Ok(pairs) => exists|i: int|
            0 <= i < pairs.len() && #[trigger] pair_fails_with(
                key_decoder,
                value_decoder,
                pairs[i],
                e,
            ),
    }
}

/// Decodes a mapping with a decoder for its keys and one for its values.
///
/// The value must be a keyed object, whose own entries are enumerated, or an
/// iterable of `[key, value]` pairs; both go the same way from there. The
/// result holds one decoded pair for each pair of the value, in enumeration
/// order. Keys are not compared: where the host hands out a key twice, both
/// pairs are there and the later one is the one that counts. The first pair on
/// which a decoder fails ends the decode with that error.
pub fn decode_mapping<
    K,
    V,
    FK: Fn(&Value) -> Result<K, DecodeError>,
    FV: Fn(&Value) -> Result<V, DecodeError>,
>(value: &Value, key_decoder: FK, value_decoder: FV) -> (r: Result<Vec<(K, V)>, DecodeError>)
    requires
        forall|v: &Value| call_requires(key_decoder, (v,)),
        forall|v: &Value| call_requires(value_decoder, (v,)),
    ensures
        match r {
            Ok(out) => decode_map(value@) matches Ok(pairs) && out.len() == pairs.len()
                && forall|i: int|
                0 <= i < pairs.len() ==> pair_decodes_to(
                    key_decoder,
                    value_decoder,
                    #[trigger] pairs[i],
                    out[i],
                ),
            Err(e) => mapping_fails_with(key_decoder, value_decoder, value@, e),
        },
{
    let deserializer = JsDeserializer::from_ref(value);
    let pairs = deserializer.deserialize_map()?;
    let ghost views = pairs_view(pairs@);
    let mut out: Vec<(K, V)> = Vec::new();
    let mut i: usize = 0;
    while i < pairs.len()
        invariant
            i <= pairs.len(),
            out.len() == i,
            views == pairs_view(pairs@),
            decode_map(value@) == Ok::<_, DecodeErrorView>(views),
            forall|v: &Value| call_requires(key_decoder, (v,)),
            forall|v: &Value| call_requires(value_decoder, (v,)),
            forall|j: int|
                0 <= j < i ==> pair_decodes_to(
                    key_decoder,
                    value_decoder,
                    #[trigger] views[j],
                    out[j],
                ),
        decreases pairs.len() - i,
    {
        assert(views[i as int] == (pairs[i as int].0@, pairs[i as int].1@));
        let key_value = pairs[i].0.value();
        let value_value = pairs[i].1.value();
        let key = match key_decoder(key_value) {
            Ok(key) => key,
            Err(e) => {
                assert(decodes_to(key_decoder, views[i as int].0, Err::<K, _>(e)));
                assert(pair_fails_with(key_decoder, value_decoder, views[i as int], e));
                assert(mapping_fails_with(key_decoder, value_decoder, value@, e));
                return Err(e);
            },
        };
        assert(decodes_to(key_decoder, views[i as int].0, Ok(key)));
        let decoded = match value_decoder(value_value) {
            Ok(decoded) => decoded,
            Err(e) => {
                assert(decodes_to(value_decoder, views[i as int].1, Err::<V, _>(e)));
                assert(decodes(key_decoder, views[i as int].0));
                assert(pair_fails_with(key_decoder, value_decoder, views[i as int], e));
                assert(mapping_fails_with(key_decoder, value_decoder, value@, e));
                return Err(e);
            },
        };
        assert(decodes_to(value_decoder, views[i as int].1, Ok(decoded)));
        out.push((key, decoded));
        i = i + 1;
    }
    Ok(out)
}

/// A prefix that fails makes the whole sequence fail with the same error.
pub proof fn lemma_pairs_of_prefix_error(items: Seq<HostValue>, n: int)
    requires
        0 <= n <= items.len(),
        pairs_of(items.subrange(0, n)) is Err,
    ensures
        pairs_of(items) == pairs_of(items.subrange(0, n)),
    decreases items.len() - n,
{
    if n == items.len() {
        assert(items.subrange(0, n) =~= items);
    } else {
        let next = items.subrange(0, n + 1);
        assert(next.drop_last() =~= items.subrange(0, n));
        lemma_pairs_of_prefix_error(items, n + 1);
    }
}

} // verus!
