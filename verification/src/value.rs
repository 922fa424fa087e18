//! Host values.
//!
//! A [`Value`] is one value of the dynamically typed host, held as plain data:
//! what a decoder can read of it and nothing else. Its view, [`HostValue`], is
//! the same tree over mathematical sequences; every contract of the decoders
//! is stated over that view.
//!
//! The probes of this module answer what shape a value has without committing
//! to an interpretation: each returns "no match" rather than an error.

use crate::error::Description;
use crate::number::Number;
use crate::util::str_eq;
use vstd::prelude::*;
use vstd::string::{StringExecFns, StrSliceExecFns};
use vstd::utf8::encode_utf8;

verus! {

/// One named entry of a keyed object.
#[derive(Debug, PartialEq, Eq)]
pub struct Entry {
    pub key: String,
    pub value: Value,
}

/// One host value.
#[derive(Debug, PartialEq, Eq)]
pub enum Value {
    Undefined,
    Null,
    Bool(bool),
    Number(Number),
    Str(String),
    /// A byte buffer.
    Bytes(Vec<u8>),
    /// An array, with its elements in index order.
    Array(Vec<Value>),
    /// An iterable that is no array, with what it yields in iteration order.
    Iterable(Vec<Value>),
    /// A keyed object: the name that its type reports, and its own entries in
    /// the host's enumeration order.
    Object { class_name: String, entries: Vec<Entry> },
    /// Anything else the host can hold.
    Other,
}

/// The view of an [`Entry`].
pub ghost struct HostEntry {
    pub key: Seq<char>,
    pub value: HostValue,
}

/// The view of a [`Value`].
pub ghost enum HostValue {
    Undefined,
    Null,
    Bool(bool),
    Number(Number),
    Str(Seq<char>),
    Bytes(Seq<u8>),
    Array(Seq<HostValue>),
    Iterable(Seq<HostValue>),
    Object { class_name: Seq<char>, entries: Seq<HostEntry> },
    Other,
}

/// The views of a sequence of values, in the same order.
pub open spec fn items_view(items: Seq<Value>) -> Seq<HostValue>
    decreases items,
{
    Seq::new(
        items.len(),
        |i: int|
            if 0 <= i < items.len() {
                items[i]@
            } else {
                HostValue::Undefined
            },
    )
}

/// The views of a sequence of entries, in the same order.
pub open spec fn entries_view(entries: Seq<Entry>) -> Seq<HostEntry>
    decreases entries,
{
    Seq::new(
        entries.len(),
        |i: int|
            if 0 <= i < entries.len() {
                entries[i]@
            } else {
                HostEntry { key: Seq::empty(), value: HostValue::Undefined }
            },
    )
}

impl View for Entry {
    type V = HostEntry;

    open spec fn view(&self) -> HostEntry
        decreases self,
    {
        HostEntry { key: self.key@, value: self.value@ }
    }
}

impl View for Value {
    type V = HostValue;

    open spec fn view(&self) -> HostValue
        decreases self,
    {
        match self {
            Value::Undefined => HostValue::Undefined,
            Value::Null => HostValue::Null,
            Value::Bool(b) => HostValue::Bool(*b),
            Value::Number(n) => HostValue::Number(*n),
            Value::Str(s) => HostValue::Str(s@),
            Value::Bytes(b) => HostValue::Bytes(b@),
            Value::Array(items) => HostValue::Array(items_view(items@)),
            Value::Iterable(items) => HostValue::Iterable(items_view(items@)),
            Value::Object { class_name, entries } => HostValue::Object {
                class_name: class_name@,
                entries: entries_view(entries@),
            },
            Value::Other => HostValue::Other,
        }
    }
}

/// The value of the last entry with the key `name`, if the key is there.
///
/// A later entry with the same key overwrites an earlier one.
pub open spec fn lookup(entries: Seq<HostEntry>, name: Seq<char>) -> Option<HostValue>
    decreases entries.len(),
{
    if entries.len() == 0 {
        None
    } else if entries.last().key == name {
        Some(entries.last().value)
    } else {
        lookup(entries.drop_last(), name)
    }
}

impl HostValue {
    /// Null or undefined.
    pub open spec fn is_nullish(self) -> bool {
        self is Null || self is Undefined
    }

    /// What a probe of the value finds: the best-matching description among
    /// unit, boolean, float, string, bytes and other.
    pub open spec fn shape(self) -> Description {
        match self {
            HostValue::Undefined => Description::Unit,
            HostValue::Null => Description::Unit,
            HostValue::Bool(_) => Description::Bool,
            HostValue::Number(_) => Description::Float,
            HostValue::Str(_) => Description::Str,
            HostValue::Bytes(_) => Description::Bytes,
            _ => Description::Other,
        }
    }

    /// The safe integer that the value stands for, if it is a number that
    /// stands for one.
    pub open spec fn safe_integer(self) -> Option<int> {
        match self {
            HostValue::Number(n) => n.safe_integer(),
            _ => None,
        }
    }

    /// The bytes of a byte buffer, or the UTF-8 encoding of a string.
    pub open spec fn byte_sequence(self) -> Option<Seq<u8>> {
        match self {
            HostValue::Bytes(b) => Some(b),
            HostValue::Str(s) => Some(encode_utf8(s)),
            _ => None,
        }
    }
}

impl Entry {
    /// The entry `key: value`.
    pub fn new(key: &str, value: Value) -> (r: Entry)
        ensures
            r@ == (HostEntry { key: key@, value: value@ }),
    {
        Entry { key: String::from_str(key), value }
    }
}

impl Value {
    /// A string value.
    pub fn string(text: &str) -> (r: Value)
        ensures
            r@ == HostValue::Str(text@),
    {
        Value::Str(String::from_str(text))
    }

    /// A plain keyed object with the given entries.
    pub fn object(entries: Vec<Entry>) -> (r: Value)
        ensures
            r@ == (HostValue::Object { class_name: "Object"@, entries: entries_view(entries@) }),
    {
        Value::Object { class_name: String::from_str("Object"), entries }
    }

    /// An object of the named type with the given entries.
    pub fn instance(class_name: &str, entries: Vec<Entry>) -> (r: Value)
        ensures
            r@ == (HostValue::Object { class_name: class_name@, entries: entries_view(entries@) }),
    {
        Value::Object { class_name: String::from_str(class_name), entries }
    }

    /// Whether the value is null or undefined.
    pub fn is_nullish(&self) -> (r: bool)
        ensures
            r == self@.is_nullish(),
    {
        match self {
            Value::Undefined => true,
            Value::Null => true,
            _ => false,
        }
    }

    /// The boolean, if the value is one.
    pub fn as_bool(&self) -> (r: Option<bool>)
        ensures
            match r {
                Some(b) => self@ == HostValue::Bool(b),
                None => !(self@ is Bool),
            },
    {
        match self {
            Value::Bool(b) => Some(*b),
            _ => None,
        }
    }

    /// The number, if the value is one: finite or not.
    pub fn as_float(&self) -> (r: Option<Number>)
        ensures
            match r {
                Some(n) => self@ == HostValue::Number(n),
                None => !(self@ is Number),
            },
    {
        match self {
            Value::Number(n) => Some(*n),
            _ => None,
        }
    }

    /// The integer, if the value is a number that stands for a safe integer.
    pub fn as_safe_integer(&self) -> (r: Option<i64>)
        ensures
            match r {
                Some(n) => self@.safe_integer() == Some(n as int),
                None => self@.safe_integer() is None,
            },
    {
        match self {
            Value::Number(n) => n.as_safe_integer(),
            _ => None,
        }
    }

    /// The text, if the value is a string.
    pub fn as_utf8_string(&self) -> (r: Option<&str>)
        ensures
            match r {
                Some(s) => self@ == HostValue::Str(s@),
                None => !(self@ is Str),
            },
    {
        match self {
            Value::Str(s) => Some(s.as_str()),
            _ => None,
        }
    }

    /// The bytes of a byte buffer as they are, or a string's UTF-8 encoding.
    pub fn as_byte_sequence(&self) -> (r: Option<Vec<u8>>)
        ensures
            match r {
                Some(b) => self@.byte_sequence() == Some(b@),
                None => self@.byte_sequence() is None,
            },
    {
        match self {
            Value::Bytes(b) => Some(b.clone()),
            Value::Str(s) => Some(s.as_str().as_bytes_vec()),
            _ => None,
        }
    }

    /// Whether the value is an array.
    pub fn is_array_like(&self) -> (r: bool)
        ensures
            r == (self@ is Array),
    {
        match self {
            Value::Array(_) => true,
            _ => false,
        }
    }

    /// Whether the value can be iterated: an array, another iterable, or a
    /// byte buffer, which iterates over the numbers of its bytes.
    pub fn is_iterable(&self) -> (r: bool)
        ensures
            r == (self@ is Array || self@ is Iterable || self@ is Bytes),
    {
        match self {
            Value::Array(_) => true,
            Value::Iterable(_) => true,
            Value::Bytes(_) => true,
            _ => false,
        }
    }

    /// Whether the value is a keyed object.
    pub fn is_keyed_object(&self) -> (r: bool)
        ensures
            r == (self@ is Object),
    {
        match self {
            Value::Object { .. } => true,
            _ => false,
        }
    }

    /// What a probe of the value finds.
    pub fn shape(&self) -> (r: Description)
        ensures
            r == self@.shape(),
            r.is_found_shape(),
    {
        match self {
            Value::Undefined => Description::Unit,
            Value::Null => Description::Unit,
            Value::Bool(_) => Description::Bool,
            Value::Number(_) => Description::Float,
            Value::Str(_) => Description::Str,
            Value::Bytes(_) => Description::Bytes,
            _ => Description::Other,
        }
    }
}

/// A copy of every value of `items`, in the same order.
pub fn clone_items(items: &Vec<Value>) -> (r: Vec<Value>)
    ensures
        items_view(r@) == items_view(items@),
    decreases items,
{
    let mut out: Vec<Value> = Vec::new();
    let mut i: usize = 0;
    while i < items.len()
        invariant
            i <= items.len(),
            out.len() == i,
            forall|j: int| 0 <= j < i ==> out[j]@ == items[j]@,
        decreases items.len() - i,
    {
        out.push(clone_value(&items[i]));
        i = i + 1;
    }
    assert(items_view(out@) =~= items_view(items@));
    out
}

/// A copy of every entry of `entries`, in the same order.
pub fn clone_entries(entries: &Vec<Entry>) -> (r: Vec<Entry>)
    ensures
        entries_view(r@) == entries_view(entries@),
    decreases entries,
{
    let mut out: Vec<Entry> = Vec::new();
    let mut i: usize = 0;
    while i < entries.len()
        invariant
            i <= entries.len(),
            out.len() == i,
            forall|j: int| 0 <= j < i ==> out[j]@ == entries[j]@,
        decreases entries.len() - i,
    {
        let entry = &entries[i];
        out.push(Entry { key: entry.key.clone(), value: clone_value(&entry.value) });
        i = i + 1;
    }
    assert(entries_view(out@) =~= entries_view(entries@));
    out
}

/// A copy of the whole tree below `value`.
pub fn clone_value(value: &Value) -> (r: Value)
    ensures
        r@ == value@,
    decreases value,
{
    match value {
        Value::Undefined => Value::Undefined,
        Value::Null => Value::Null,
        Value::Bool(b) => Value::Bool(*b),
        Value::Number(n) => Value::Number(*n),
        Value::Str(s) => Value::Str(s.clone()),
        Value::Bytes(b) => Value::Bytes(b.clone()),
        Value::Array(items) => Value::Array(clone_items(items)),
        Value::Iterable(items) => Value::Iterable(clone_items(items)),
        Value::Object { class_name, entries } => Value::Object {
            class_name: class_name.clone(),
            entries: clone_entries(entries),
        },
        Value::Other => Value::Other,
    }
}

impl Clone for Value {
    fn clone(&self) -> (r: Value)
        ensures
            r@ == self@,
    {
        clone_value(self)
    }
}

impl Clone for Entry {
    fn clone(&self) -> (r: Entry)
        ensures
            r@ == self@,
    {
        Entry { key: self.key.clone(), value: clone_value(&self.value) }
    }
}

/// The value of the last entry with the key `name`, if the key is there.
///
/// Presence is containment of the key: an entry whose value is null or
/// undefined is present.
pub fn lookup_entry<'a>(entries: &'a Vec<Entry>, name: &str) -> (r: Option<&'a Value>)
    ensures
        match r {
            Some(v) => lookup(entries_view(entries@), name@) == Some(v@),
            None => lookup(entries_view(entries@), name@) is None,
        },
{
    let ghost all = entries_view(entries@);
    let mut i: usize = entries.len();
    assert(all.subrange(0, i as int) =~= all);
    while i > 0
        invariant
            i <= entries.len(),
            all == entries_view(entries@),
            lookup(all, name@) == lookup(all.subrange(0, i as int), name@),
        decreases i,
    {
        i = i - 1;
        proof {
            let upto = all.subrange(0, i + 1);
            assert(upto.drop_last() =~= all.subrange(0, i as int));
            assert(upto.last() == entries[i as int]@);
        }
        if str_eq(entries[i].key.as_str(), name) {
            return Some(&entries[i].value);
        }
    }
    assert(all.subrange(0, 0).len() == 0);
    None
}

} // verus!
