//! Trusted boundary to the outside CBOR reader.
//!
//! The outside crate's `Deserializer` holds the encoded bytes and a read
//! position.  Verus sees it as an opaque type; `remaining` names the bytes
//! it has not yet consumed, and each read the decoder makes goes through a
//! wrapper here whose contract states, over `remaining` and the byte-level
//! model in `format`, exactly what the outside source shows the call does.

use vstd::prelude::*;

use crate::error::DeserializeFailure;
use crate::format::{arg_of, major_of, major_type_of, parse_head, Head, LengthEncoding, MajorType};

verus! {

#[verifier::external_type_specification]
#[verifier::external_body]
pub struct ExDeserializer(cbor_event::de::Deserializer);

/// The bytes the reader has not yet consumed, from its current read
/// position to the end of its buffer.
pub uninterp spec fn remaining(raw: cbor_event::de::Deserializer) -> Seq<u8>;

/// What peeking the next item's major type does: `s` the bytes before the
/// call, `r` its result, `t` the bytes after.  Nothing is consumed, and the
/// peek fails exactly when no bytes remain.
pub open spec fn peek_type_post(
    s: Seq<u8>,
    r: Result<MajorType, DeserializeFailure>,
    t: Seq<u8>,
) -> bool {
    &&& t == s
    &&& s.len() == 0 ==> (r matches Err(f) && f == DeserializeFailure::UnexpectedEndOfStream)
    &&& s.len() > 0 ==> (r matches Ok(m) && m == major_type_of(s[0]))
}

/// What consuming a definite head of major type `major` does: `s` the bytes
/// before the call, `r` its result, `t` the bytes after.  On the expected
/// major type with a well-formed definite head, exactly the head is
/// consumed and its argument returned; every failure consumes nothing.
pub open spec fn definite_head_read_post(
    major: u8,
    s: Seq<u8>,
    r: Result<u64, DeserializeFailure>,
    t: Seq<u8>,
) -> bool {
    &&& s.len() == 0 ==> (r matches Err(f) && f == DeserializeFailure::UnexpectedEndOfStream && t
        == s)
    &&& s.len() > 0 && major_of(s[0]) != major ==> (r matches Err(f) && f
        == DeserializeFailure::UnexpectedType && t == s)
    &&& s.len() > 0 && major_of(s[0]) == major ==> match parse_head(s) {
        Head::Definite { value, size } => r matches Ok(v) && v == value && t == s.skip(size),
        Head::Indefinite => r matches Err(f) && f == DeserializeFailure::MalformedLengthHeader && t
            == s,
        Head::Reserved => r matches Err(f) && f == DeserializeFailure::MalformedLengthHeader && t
            == s,
        Head::Truncated => r matches Err(f) && f == DeserializeFailure::UnexpectedEndOfStream && t
            == s,
    }
}

/// What consuming a sequence-length header does: `s` the bytes before the
/// call, `r` its result, `t` the bytes after.  On a sequence header, the
/// head alone is consumed and its form reported; every failure consumes
/// nothing.
pub open spec fn array_len_read_post(
    s: Seq<u8>,
    r: Result<LengthEncoding, DeserializeFailure>,
    t: Seq<u8>,
) -> bool {
    &&& s.len() == 0 ==> (r matches Err(f) && f == DeserializeFailure::UnexpectedEndOfStream && t
        == s)
    &&& s.len() > 0 && major_of(s[0]) != 4 ==> (r matches Err(f) && f
        == DeserializeFailure::UnexpectedType && t == s)
    &&& s.len() > 0 && major_of(s[0]) == 4 ==> match parse_head(s) {
        Head::Definite { value, size } => r matches Ok(l) && l == LengthEncoding::Fixed(value) && t
            == s.skip(size),
        Head::Indefinite => r matches Ok(l) && l == LengthEncoding::Indefinite && t == s.skip(1),
        Head::Reserved => r matches Err(f) && f == DeserializeFailure::MalformedLengthHeader && t
            == s,
        Head::Truncated => r matches Err(f) && f == DeserializeFailure::UnexpectedEndOfStream && t
            == s,
    }
}

/// What testing for a break marker does: `s` the bytes before the call, `r`
/// its result, `t` the bytes after.  On a special-category item, the break
/// marker is consumed and reported `true`, any other special item is left
/// unconsumed and reported `false`; on anything else the call fails and
/// consumes nothing.
pub open spec fn special_break_read_post(
    s: Seq<u8>,
    r: Result<bool, DeserializeFailure>,
    t: Seq<u8>,
) -> bool {
    &&& s.len() == 0 ==> (r matches Err(f) && f == DeserializeFailure::UnexpectedEndOfStream && t
        == s)
    &&& s.len() > 0 && major_of(s[0]) != 7 ==> (r matches Err(f) && f
        == DeserializeFailure::UnexpectedType && t == s)
    &&& s.len() > 0 && major_of(s[0]) == 7 && arg_of(s[0]) == 31 ==> (r matches Ok(b) && b == true
        && t == s.skip(1))
    &&& s.len() > 0 && major_of(s[0]) == 7 && arg_of(s[0]) != 31 ==> (r matches Ok(b) && b == false
        && t == s)
}

/// Relies on cbor_event's `Deserializer::cbor_type`: reports the major type
/// of the next item from its initial byte, consuming nothing, and fails
/// exactly when no bytes remain.
#[verifier::external_body]
pub(crate) fn peek_type(raw: &mut cbor_event::de::Deserializer) -> (r: Result<
    MajorType,
    DeserializeFailure,
>)
    ensures
        peek_type_post(remaining(*old(raw)), r, remaining(*final(raw))),
{
    match raw.cbor_type() {
        Ok(cbor_event::Type::UnsignedInteger) => Ok(MajorType::UnsignedInteger),
        Ok(cbor_event::Type::NegativeInteger) => Ok(MajorType::NegativeInteger),
        Ok(cbor_event::Type::Bytes) => Ok(MajorType::Bytes),
        Ok(cbor_event::Type::Text) => Ok(MajorType::Text),
        Ok(cbor_event::Type::Array) => Ok(MajorType::Array),
        Ok(cbor_event::Type::Map) => Ok(MajorType::Mapping),
        Ok(cbor_event::Type::Tag) => Ok(MajorType::Tag),
        Ok(cbor_event::Type::Special) => Ok(MajorType::Special),
        Err(_) => Err(DeserializeFailure::UnexpectedEndOfStream),
    }
}

/// Relies on cbor_event's `Deserializer::tag`: when the next item is a
/// semantic tag with a well-formed definite head, consumes exactly the head
/// and returns the tag number; on any failure it consumes nothing.
#[verifier::external_body]
pub(crate) fn read_tag(raw: &mut cbor_event::de::Deserializer) -> (r: Result<
    u64,
    DeserializeFailure,
>)
    ensures
        definite_head_read_post(6, remaining(*old(raw)), r, remaining(*final(raw))),
{
    match raw.tag() {
        Ok(v) => Ok(v),
        Err(cbor_event::Error::NotEnough(_, _)) => Err(DeserializeFailure::UnexpectedEndOfStream),
        Err(cbor_event::Error::Expected(_, _)) => Err(DeserializeFailure::UnexpectedType),
        Err(_) => Err(DeserializeFailure::MalformedLengthHeader),
    }
}

/// Relies on cbor_event's `Deserializer::array`: when the next item is a
/// sequence header, consumes exactly the head and reports its form — a
/// fixed count, or the indefinite marker; on any failure it consumes
/// nothing.
#[verifier::external_body]
pub(crate) fn read_array_len(raw: &mut cbor_event::de::Deserializer) -> (r: Result<
    LengthEncoding,
    DeserializeFailure,
>)
    ensures
        array_len_read_post(remaining(*old(raw)), r, remaining(*final(raw))),
{
    match raw.array() {
        Ok(cbor_event::Len::Len(n)) => Ok(LengthEncoding::Fixed(n)),
        Ok(cbor_event::Len::Indefinite) => Ok(LengthEncoding::Indefinite),
        Err(cbor_event::Error::NotEnough(_, _)) => Err(DeserializeFailure::UnexpectedEndOfStream),
        Err(cbor_event::Error::Expected(_, _)) => Err(DeserializeFailure::UnexpectedType),
        Err(_) => Err(DeserializeFailure::MalformedLengthHeader),
    }
}

/// Relies on cbor_event's `Deserializer::special_break`: when the next item
/// is of the special category, consumes it and returns `true` if it is the
/// break marker, and returns `false` consuming nothing otherwise.
#[verifier::external_body]
pub(crate) fn read_special_break(raw: &mut cbor_event::de::Deserializer) -> (r: Result<
    bool,
    DeserializeFailure,
>)
    ensures
        special_break_read_post(remaining(*old(raw)), r, remaining(*final(raw))),
{
    match raw.special_break() {
        Ok(b) => Ok(b),
        Err(cbor_event::Error::NotEnough(_, _)) => Err(DeserializeFailure::UnexpectedEndOfStream),
        Err(_) => Err(DeserializeFailure::UnexpectedType),
    }
}

/// Relies on cbor_event's `Deserializer::unsigned_integer`: when the next
/// item is an unsigned integer with a well-formed definite head, consumes
/// exactly the head and returns its value; on any failure it consumes
/// nothing.
#[verifier::external_body]
pub(crate) fn read_unsigned_integer(raw: &mut cbor_event::de::Deserializer) -> (r: Result<
    u64,
    DeserializeFailure,
>)
    ensures
        definite_head_read_post(0, remaining(*old(raw)), r, remaining(*final(raw))),
{
    match raw.unsigned_integer() {
        Ok(v) => Ok(v),
        Err(cbor_event::Error::NotEnough(_, _)) => Err(DeserializeFailure::UnexpectedEndOfStream),
        Err(cbor_event::Error::Expected(_, _)) => Err(DeserializeFailure::UnexpectedType),
        Err(_) => Err(DeserializeFailure::MalformedLengthHeader),
    }
}

} // verus!
