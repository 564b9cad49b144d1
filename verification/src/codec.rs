//! The conversion contract between a tri-state field and the plain optional
//! representation a serialization layer works with.
//!
//! The representation is a doubly-nested option. The outer layer is the
//! presence channel: `None` there means the field's key does not appear in the
//! encoded record at all (on encode, a layer told to skip the field's empty
//! state omits the key; on decode, a layer told to fall back to the type's
//! default supplies `None` when the key is absent). The inner layer is the
//! null channel: `Some(None)` is an explicit null, `Some(Some(v))` a concrete
//! value.

use crate::field::Field;
use vstd::prelude::*;

verus! {

/// The field a representation decodes to: outer-absence always wins and gives
/// `Missing`, whatever the inner state would have been.
pub open spec fn decoding<T>(repr: Option<Option<T>>) -> Field<T> {
    match repr {
        None => Field::Missing,
        Some(inner) => Field::Present(inner),
    }
}

/// The representation a field encodes to: `Missing` goes out through the
/// omitted-key channel, a present field carries its inner option.
pub open spec fn encoding<T>(f: Field<T>) -> Option<Option<T>> {
    match f {
        Field::Missing => None,
        Field::Present(inner) => Some(inner),
    }
}

/// Reads a plain optional representation into a field.
pub fn decode<T>(repr: Option<Option<T>>) -> (r: Field<T>)
    ensures
        r == decoding(repr),
{
    match repr {
        None => Field::Missing,
        Some(inner) => Field::Present(inner),
    }
}

/// Writes a field out as a plain optional representation; a `None` result
/// means the field's key is omitted entirely.
pub fn encode<T>(f: Field<T>) -> (r: Option<Option<T>>)
    ensures
        r == encoding(f),
{
    match f {
        Field::Missing => None,
        Field::Present(inner) => Some(inner),
    }
}

/// Decoding what a field encoded to reproduces the field exactly. `Missing`
/// comes back only because its encoding is the omitted-key channel itself;
/// no literal encoded form maps to `Missing`.
pub proof fn lemma_decode_of_encode<T>(f: Field<T>)
    ensures
        decoding(encoding(f)) == f,
{
}

/// Encoding what a representation decoded to reproduces the representation
/// exactly: the two conversions are mutually inverse.
pub proof fn lemma_encode_of_decode<T>(repr: Option<Option<T>>)
    ensures
        encoding(decoding(repr)) == repr,
{
}

} // verus!
