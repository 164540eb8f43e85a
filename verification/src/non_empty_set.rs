//! The sequence decoder.
//!
//! A set-like sequence is an array of elements, written either bare or
//! wrapped in semantic tag 258, with its length header in the fixed-count
//! or the indefinite form.  `spec_parse_set` is the specification-level
//! decoder on byte sequences; `NonemptySet::deserialize` is the executable
//! decoder, proved to return exactly what `spec_parse_set` says for the
//! bytes the reader held.

use vstd::prelude::*;

use crate::error::{names_this_component, DeserializeError, DeserializeFailure};
use crate::format::{arg_of, major_of, parse_head, Head, LengthEncoding, MajorType};
use crate::reader::{
    peek_type, read_array_len, read_special_break, read_tag, read_unsigned_integer, remaining,
};

verus! {

/// An element type the decoder can read from the stream.
///
/// `spec_parse` is the specification of the type's own encoding: the value
/// at the front of `s` and the number of bytes it occupies, or `None` where
/// the bytes do not hold one.  `deserialize` must consume exactly those
/// bytes and return that value, and must fail where `spec_parse` is `None`.
pub trait Deserialize: Sized {
    /// The parse this type's decoder performs, stated on bytes.
    spec fn spec_parse(s: Seq<u8>) -> Option<(Self, int)>;

    /// A successful parse covers at least one byte and at most the input.
    proof fn lemma_spec_parse_len(s: Seq<u8>)
        ensures
            Self::spec_parse(s) matches Some((v, n)) ==> 1 <= n <= s.len(),
    ;

    /// Consume one encoded value of this type from the reader.
    fn deserialize(raw: &mut cbor_event::de::Deserializer) -> (r: Result<Self, DeserializeError>)
        ensures
            match Self::spec_parse(remaining(*old(raw))) {
                Some((v, n)) => r matches Ok(x) && x == v && remaining(*final(raw)) == remaining(
                    *old(raw),
                ).skip(n),
                None => r is Err,
            },
    ;
}

/// Outcome of the element loop on a byte sequence.
pub enum ElemsParse<T> {
    /// The loop ended; `elems` are all elements read (those accumulated
    /// before the loop included), `rest` the bytes after the sequence.
    Done { elems: Seq<T>, rest: Seq<u8> },
    /// The loop itself failed, with `rest` the bytes from the point of
    /// failure onward.
    Fail { failure: DeserializeFailure, rest: Seq<u8> },
    /// An element failed to decode; the element type's own error is
    /// propagated, so neither it nor the remaining bytes are determined
    /// here.
    ElemFail,
}

/// Outcome of decoding one whole set-like sequence from a byte sequence.
pub enum SetParse<T> {
    /// Success: the elements in wire order, the header form observed, and
    /// the bytes following the value.
    Parsed { elems: Seq<T>, style: LengthEncoding, rest: Seq<u8> },
    /// A failure of the sequence's own framing, with the bytes from the
    /// point of failure onward.
    Fail { failure: DeserializeFailure, rest: Seq<u8> },
    /// An element failed to decode; the element type's own error is
    /// propagated.
    ElemFail,
}

/// The element loop: with `acc` the elements already read, keep reading
/// elements from `s` until a fixed count is reached or a break marker is
/// met.  A break marker ends the loop whichever form the header had; any
/// other special-category item at an element position is refused.
pub open spec fn spec_parse_elems<T: Deserialize>(
    s: Seq<u8>,
    style: LengthEncoding,
    acc: Seq<T>,
) -> ElemsParse<T>
    decreases s.len(),
{
    let more = match style {
        LengthEncoding::Fixed(n) => acc.len() < n,
        LengthEncoding::Indefinite => true,
    };
    if !more {
        ElemsParse::Done { elems: acc, rest: s }
    } else if s.len() == 0 {
        ElemsParse::Fail { failure: DeserializeFailure::UnexpectedEndOfStream, rest: s }
    } else if major_of(s[0]) == 7 {
        if arg_of(s[0]) == 31 {
            ElemsParse::Done { elems: acc, rest: s.skip(1) }
        } else {
            ElemsParse::Fail { failure: DeserializeFailure::UnexpectedSpecial, rest: s }
        }
    } else {
        match T::spec_parse(s) {
            Some((v, n)) => {
                if 1 <= n <= s.len() {
                    spec_parse_elems::<T>(s.skip(n), style, acc.push(v))
                } else {
                    ElemsParse::ElemFail
                }
            },
            None => ElemsParse::ElemFail,
        }
    }
}

/// Lift the element loop's outcome to the whole value's outcome.
pub open spec fn from_elems<T>(style: LengthEncoding, p: ElemsParse<T>) -> SetParse<T> {
    match p {
        ElemsParse::Done { elems, rest } => SetParse::Parsed { elems, style, rest },
        ElemsParse::Fail { failure, rest } => SetParse::Fail { failure, rest },
        ElemsParse::ElemFail => SetParse::ElemFail,
    }
}

/// Decode the untagged part of a set-like sequence: a length header, the
/// elements, and — for the indefinite form — the closing break marker.
pub open spec fn spec_parse_set_body<T: Deserialize>(s: Seq<u8>) -> SetParse<T> {
    if s.len() == 0 {
        SetParse::Fail { failure: DeserializeFailure::UnexpectedEndOfStream, rest: s }
    } else if major_of(s[0]) != 4 {
        SetParse::Fail { failure: DeserializeFailure::UnexpectedType, rest: s }
    } else {
        match parse_head(s) {
            Head::Definite { value, size } => from_elems(
                LengthEncoding::Fixed(value),
                spec_parse_elems::<T>(s.skip(size), LengthEncoding::Fixed(value), Seq::empty()),
            ),
            Head::Indefinite => from_elems(
                LengthEncoding::Indefinite,
                spec_parse_elems::<T>(s.skip(1), LengthEncoding::Indefinite, Seq::empty()),
            ),
            Head::Reserved => SetParse::Fail {
                failure: DeserializeFailure::MalformedLengthHeader,
                rest: s,
            },
            Head::Truncated => SetParse::Fail {
                failure: DeserializeFailure::UnexpectedEndOfStream,
                rest: s,
            },
        }
    }
}

/// Decode one whole set-like sequence from the front of `s`: an optional
/// leading semantic tag — which must be 258 — then the untagged body.  A
/// tag other than 258 is refused after its own head alone is consumed.
pub open spec fn spec_parse_set<T: Deserialize>(s: Seq<u8>) -> SetParse<T> {
    if s.len() == 0 {
        SetParse::Fail { failure: DeserializeFailure::UnexpectedEndOfStream, rest: s }
    } else if major_of(s[0]) == 6 {
        match parse_head(s) {
            Head::Definite { value, size } => {
                if value == 258 {
                    spec_parse_set_body::<T>(s.skip(size))
                } else {
                    SetParse::Fail {
                        failure: DeserializeFailure::TagMismatch { found: value, expected: 258 },
                        rest: s.skip(size),
                    }
                }
            },
            Head::Indefinite => SetParse::Fail {
                failure: DeserializeFailure::MalformedLengthHeader,
                rest: s,
            },
            Head::Reserved => SetParse::Fail {
                failure: DeserializeFailure::MalformedLengthHeader,
                rest: s,
            },
            Head::Truncated => SetParse::Fail {
                failure: DeserializeFailure::UnexpectedEndOfStream,
                rest: s,
            },
        }
    } else {
        spec_parse_set_body::<T>(s)
    }
}

/// A decoded set-like sequence: the elements in wire order, and the form
/// the length header had on the wire.  Despite the name, an empty sequence
/// is accepted; nothing here enforces non-emptiness.
#[derive(Debug, Clone)]
pub struct NonemptySet<T> {
    pub elems: Vec<T>,
    pub len_encoding: LengthEncoding,
}

impl<T: Deserialize> NonemptySet<T> {
    /// Consume one whole set-like sequence from the reader: an optional
    /// tag 258, a length header of either form, the elements, and — for
    /// the indefinite form — the closing break marker.
    ///
    /// The result is exactly what `spec_parse_set` says of the bytes the
    /// reader held: on success the elements in wire order and the header
    /// form, the reader left just past the value; on a framing failure
    /// that failure, the reader left at the failing item; on an element
    /// failure the element's own error.  Every error is annotated with
    /// this component's name.
    pub fn deserialize(raw: &mut cbor_event::de::Deserializer) -> (r: Result<
        Self,
        DeserializeError,
    >)
        ensures
            match spec_parse_set::<T>(remaining(*old(raw))) {
                SetParse::Parsed { elems, style, rest } => r matches Ok(set) && set.elems@ == elems
                    && set.len_encoding == style && remaining(*final(raw)) == rest,
                SetParse::Fail { failure, rest } => r matches Err(e) && e.failure == failure
                    && names_this_component(e) && remaining(*final(raw)) == rest,
                SetParse::ElemFail => r matches Err(e) && names_this_component(e),
            },
    {
        let ghost s0 = remaining(*raw);
        let mut elems: Vec<T> = Vec::new();
        let mt = match peek_type(raw) {
            Ok(m) => m,
            Err(f) => {
                return Err(DeserializeError::new(f).annotate("NonemptySet"));
            },
        };
        if mt == MajorType::Tag {
            let tag = match read_tag(raw) {
                Ok(t) => t,
                Err(f) => {
                    return Err(DeserializeError::new(f).annotate("NonemptySet"));
                },
            };
            if tag != 258 {
                return Err(
                    DeserializeError::new(
                        DeserializeFailure::TagMismatch { found: tag, expected: 258 },
                    ).annotate("NonemptySet"),
                );
            }
        }
        let len_encoding = match read_array_len(raw) {
            Ok(l) => l,
            Err(f) => {
                return Err(DeserializeError::new(f).annotate("NonemptySet"));
            },
        };
        loop
            invariant_except_break
                s0 == remaining(*old(raw)),
                spec_parse_set::<T>(s0) == from_elems::<T>(
                    len_encoding,
                    spec_parse_elems::<T>(remaining(*raw), len_encoding, elems@),
                ),
            ensures
                spec_parse_set::<T>(s0) == (SetParse::Parsed {
                    elems: elems@,
                    style: len_encoding,
                    rest: remaining(*raw),
                }),
            decreases remaining(*raw).len(),
        {
            let more = match len_encoding {
                LengthEncoding::Fixed(n) => (elems.len() as u64) < n,
                LengthEncoding::Indefinite => true,
            };
            if !more {
                break ;
            }
            let mt_elem = match peek_type(raw) {
                Ok(m) => m,
                Err(f) => {
                    return Err(DeserializeError::new(f).annotate("NonemptySet"));
                },
            };
            if mt_elem == MajorType::Special {
                match read_special_break(raw) {
                    Ok(true) => {
                        break ;
                    },
                    Ok(false) => {
                        return Err(
                            DeserializeError::new(DeserializeFailure::UnexpectedSpecial).annotate(
                                "NonemptySet",
                            ),
                        );
                    },
                    Err(f) => {
                        return Err(DeserializeError::new(f).annotate("NonemptySet"));
                    },
                }
            }
            let ghost before_elem = remaining(*raw);
            let elem = match T::deserialize(raw) {
                Ok(v) => v,
                Err(e) => {
                    return Err(e.annotate("NonemptySet"));
                },
            };
            proof {
                T::lemma_spec_parse_len(before_elem);
            }
            elems.push(elem);
        }
        Ok(NonemptySet { elems, len_encoding })
    }
}

impl<T> From<NonemptySet<T>> for Vec<T> {
    /// The lossless projection to the elements alone, discarding how the
    /// length header was written.
    fn from(set: NonemptySet<T>) -> (r: Vec<T>)
        ensures
            r == set.elems,
    {
        set.elems
    }
}

impl<T> vstd::std_specs::convert::FromSpecImpl<NonemptySet<T>> for Vec<T> {
    open spec fn obeys_from_spec() -> bool {
        true
    }

    open spec fn from_spec(set: NonemptySet<T>) -> Vec<T> {
        set.elems
    }
}

impl Deserialize for u64 {
    /// An unsigned integer: its major type and a definite head whose
    /// argument is the value itself.
    open spec fn spec_parse(s: Seq<u8>) -> Option<(u64, int)> {
        if s.len() > 0 && major_of(s[0]) == 0 {
            match parse_head(s) {
                Head::Definite { value, size } => Some((value, size)),
                _ => None,
            }
        } else {
            None
        }
    }

    proof fn lemma_spec_parse_len(s: Seq<u8>) {
    }

    fn deserialize(raw: &mut cbor_event::de::Deserializer) -> (r: Result<u64, DeserializeError>) {
        match read_unsigned_integer(raw) {
            Ok(v) => Ok(v),
            Err(f) => Err(DeserializeError::new(f)),
        }
    }
}

} // verus!
