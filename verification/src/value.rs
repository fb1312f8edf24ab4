//! Ordered key-value representation of encoded payloads.
//!
//! The platform's schemas fix which keys an object carries and in what order
//! they appear, so an encoded object is a sequence of fields, not an
//! unordered map. Absence of a key is meaningful and distinct from an
//! explicit null value.

use vstd::prelude::*;

verus! {

/// A value as it stands in an encoded payload.
#[derive(Debug, PartialEq, Eq)]
pub enum Value {
    /// An explicit null, distinct from an absent field.
    Null,
    Bool(bool),
    /// An unsigned integer, wide enough for every integer code the schemas
    /// here use.
    UInt(u64),
    Str(String),
    /// A nested object: fields in emission order.
    Object(Vec<Field>),
}

/// One key-value pair of an encoded object.
#[derive(Debug, PartialEq, Eq)]
pub struct Field {
    pub key: String,
    pub value: Value,
}

/// A decode failure, carrying the identity of the offending field.
///
/// An unrecognized integer code is never an error: only a structurally
/// non-conforming payload fails to decode.
#[derive(Clone, Copy, Debug, PartialEq, Eq)]
pub enum DecodeError<F> {
    /// An always-required key is absent.
    Missing(F),
    /// A key is present but holds a value of the wrong shape.
    WrongType(F),
}

/// The pair a field contributes to the mathematical view of an object: the
/// key as its characters beside the value itself.
pub open spec fn field_view(f: Field) -> (Seq<char>, Value) {
    (f.key@, f.value)
}

/// Mathematical view of an encoded object: its fields in order.
pub open spec fn fields_view(fields: Seq<Field>) -> Seq<(Seq<char>, Value)> {
    fields.map_values(|f: Field| field_view(f))
}

/// The first value bound to `key`, if any; later duplicates do not shadow
/// the first occurrence.
pub open spec fn lookup(fields: Seq<(Seq<char>, Value)>, key: Seq<char>) -> Option<Value>
    decreases fields.len(),
{
    if fields.len() == 0 {
        None
    } else if fields[0].0 == key {
        Some(fields[0].1)
    } else {
        lookup(fields.skip(1), key)
    }
}

/// An optional string attribute accepts an absent key, a null, or a string.
pub open spec fn opt_string_ok(v: Option<Value>) -> bool {
    match v {
        None => true,
        Some(Value::Null) => true,
        Some(Value::Str(_)) => true,
        _ => false,
    }
}

/// The decoded form of an optional string attribute: absent unless a string
/// is present.
pub open spec fn opt_string_of(v: Option<Value>) -> Option<String> {
    match v {
        Some(Value::Str(s)) => Some(s),
        _ => None,
    }
}

/// A key that occurs nowhere in the object has no binding.
pub proof fn lemma_lookup_absent(fields: Seq<(Seq<char>, Value)>, key: Seq<char>)
    requires
        forall|j: int| 0 <= j < fields.len() ==> fields[j].0 != key,
    ensures
        lookup(fields, key) is None,
    decreases fields.len(),
{
    if fields.len() > 0 {
        assert(forall|j: int| 0 <= j < fields.skip(1).len() ==> fields.skip(1)[j] == fields[j + 1]);
        lemma_lookup_absent(fields.skip(1), key);
    }
}

/// The binding of a key is the value beside its first occurrence.
pub proof fn lemma_lookup_found(fields: Seq<(Seq<char>, Value)>, key: Seq<char>, i: int)
    requires
        0 <= i < fields.len(),
        fields[i].0 == key,
        forall|j: int| 0 <= j < i ==> fields[j].0 != key,
    ensures
        lookup(fields, key) == Some(fields[i].1),
    decreases i,
{
    if i > 0 {
        assert(forall|j: int| 0 <= j < fields.skip(1).len() ==> fields.skip(1)[j] == fields[j + 1]);
        lemma_lookup_found(fields.skip(1), key, i - 1);
    }
}

/// Find the first field bound to `key`, as `lookup` describes.
pub fn find_field<'a>(fields: &'a Vec<Field>, key: &String) -> (r: Option<&'a Value>)
    ensures
        match r {
            Some(v) => lookup(fields_view(fields@), key@) == Some(*v),
            None => lookup(fields_view(fields@), key@) is None,
        },
{
    let ghost view = fields_view(fields@);
    let mut i: usize = 0;
    while i < fields.len()
        invariant
            0 <= i <= fields.len(),
            view == fields_view(fields@),
            forall|j: int| 0 <= j < i ==> view[j].0 != key@,
        decreases fields.len() - i,
    {
        proof {
            assert(view[i as int] == field_view(fields@[i as int]));
        }
        if fields[i].key == *key {
            proof {
                lemma_lookup_found(view, key@, i as int);
            }
            return Some(&fields[i].value);
        }
        i = i + 1;
    }
    proof {
        lemma_lookup_absent(view, key@);
    }
    None
}

} // verus!
