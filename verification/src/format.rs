//! Byte-level model of the wire encoding: major types, length/argument
//! heads, and the two header shapes a sequence may carry.  Everything here
//! is specification-level; the executable reads are in `reader`.

use vstd::prelude::*;

verus! {

/// The major type of an encoded item, read from the top three bits of its
/// initial byte.
#[derive(Debug, Clone, Copy, PartialEq, Eq, Structural)]
pub enum MajorType {
    UnsignedInteger,
    NegativeInteger,
    Bytes,
    Text,
    Array,
    Mapping,
    Tag,
    Special,
}

/// How the length header of a decoded sequence was written on the wire:
/// with an up-front element count, or in the indefinite form that runs
/// until a break marker.  Metadata only; it lets a later re-encode choose
/// the same header shape.
#[derive(Debug, Clone, Copy, PartialEq, Eq, Structural)]
pub enum LengthEncoding {
    Fixed(u64),
    Indefinite,
}

/// The major type encoded in an initial byte: its top three bits.
pub open spec fn major_of(b: u8) -> u8 {
    b / 32
}

/// The additional-information field of an initial byte: its low five bits.
pub open spec fn arg_of(b: u8) -> u8 {
    b % 32
}

/// The major type of an initial byte as a `MajorType` value.
pub open spec fn major_type_of(b: u8) -> MajorType {
    if major_of(b) == 0 {
        MajorType::UnsignedInteger
    } else if major_of(b) == 1 {
        MajorType::NegativeInteger
    } else if major_of(b) == 2 {
        MajorType::Bytes
    } else if major_of(b) == 3 {
        MajorType::Text
    } else if major_of(b) == 4 {
        MajorType::Array
    } else if major_of(b) == 5 {
        MajorType::Mapping
    } else if major_of(b) == 6 {
        MajorType::Tag
    } else {
        MajorType::Special
    }
}

/// The big-endian value of a byte string.
pub open spec fn be_val(s: Seq<u8>) -> nat
    decreases s.len(),
{
    if s.len() == 0 {
        0
    } else {
        (be_val(s.drop_last()) * 256 + s.last()) as nat
    }
}

/// 256 to the power `k`: the number of values `k` bytes can hold.
pub open spec fn pow256(k: nat) -> nat
    decreases k,
{
    if k == 0 {
        1nat
    } else {
        256 * pow256((k - 1) as nat)
    }
}

/// The `k` big-endian bytes of `v` (low bytes of `v` if it does not fit).
pub open spec fn be_bytes(v: nat, k: nat) -> Seq<u8>
    decreases k,
{
    if k == 0 {
        Seq::empty()
    } else {
        be_bytes(v / 256, (k - 1) as nat).push((v % 256) as u8)
    }
}

/// Outcome of reading the head (initial byte plus argument bytes) of an
/// encoded item from the front of `s`.
pub enum Head {
    /// A definite argument `value`, the head occupying `size` bytes.
    Definite { value: u64, size: int },
    /// The indefinite-length marker (argument field 31).
    Indefinite,
    /// A reserved argument field (28 through 30): not well-formed.
    Reserved,
    /// Fewer bytes than the head announces.
    Truncated,
}

/// Read the head of the item at the front of `s`: the initial byte and,
/// depending on its argument field, zero to eight following argument bytes.
pub open spec fn parse_head(s: Seq<u8>) -> Head {
    if s.len() == 0 {
        Head::Truncated
    } else {
        let a: u8 = arg_of(s[0]);
        if a < 24 {
            Head::Definite { value: a as u64, size: 1 }
        } else if a == 24 {
            if s.len() >= 2 {
                Head::Definite { value: s[1] as u64, size: 2 }
            } else {
                Head::Truncated
            }
        } else if a == 25 {
            if s.len() >= 3 {
                Head::Definite { value: be_val(s.subrange(1, 3)) as u64, size: 3 }
            } else {
                Head::Truncated
            }
        } else if a == 26 {
            if s.len() >= 5 {
                Head::Definite { value: be_val(s.subrange(1, 5)) as u64, size: 5 }
            } else {
                Head::Truncated
            }
        } else if a == 27 {
            if s.len() >= 9 {
                Head::Definite { value: be_val(s.subrange(1, 9)) as u64, size: 9 }
            } else {
                Head::Truncated
            }
        } else if a <= 30 {
            Head::Reserved
        } else {
            Head::Indefinite
        }
    }
}

/// The widths in which a definite head argument can be written.
pub enum HeadWidth {
    /// Argument below 24, stored in the initial byte itself.
    Inline,
    /// One argument byte.
    One,
    /// Two argument bytes.
    Two,
    /// Four argument bytes.
    Four,
    /// Eight argument bytes.
    Eight,
}

/// How many argument bytes follow the initial byte for a width.
pub open spec fn width_bytes(w: HeadWidth) -> nat {
    match w {
        HeadWidth::Inline => 0,
        HeadWidth::One => 1,
        HeadWidth::Two => 2,
        HeadWidth::Four => 4,
        HeadWidth::Eight => 8,
    }
}

/// Whether argument `v` can be written in width `w`.
pub open spec fn arg_fits(w: HeadWidth, v: u64) -> bool {
    match w {
        HeadWidth::Inline => v < 24,
        HeadWidth::One => v < 256,
        HeadWidth::Two => v < 65536,
        HeadWidth::Four => v < 4294967296,
        HeadWidth::Eight => true,
    }
}

/// The argument field of the initial byte for a definite head of width `w`.
pub open spec fn width_arg(w: HeadWidth, v: u64) -> u8 {
    match w {
        HeadWidth::Inline => v as u8,
        HeadWidth::One => 24,
        HeadWidth::Two => 25,
        HeadWidth::Four => 26,
        HeadWidth::Eight => 27,
    }
}

/// The head bytes for major type `major` with definite argument `v`
/// written in width `w`: one initial byte, then the argument big-endian.
pub open spec fn encode_head(major: u8, w: HeadWidth, v: u64) -> Seq<u8> {
    seq![(major * 32 + width_arg(w, v)) as u8] + be_bytes(v as nat, width_bytes(w))
}

/// The big-endian bytes of a value occupy exactly the width asked for.
pub proof fn lemma_be_bytes_len(v: nat, k: nat)
    ensures
        be_bytes(v, k).len() == k,
    decreases k,
{
    if k > 0 {
        lemma_be_bytes_len(v / 256, (k - 1) as nat);
    }
}

/// A value that fits `k` bytes is read back from its `k` big-endian bytes.
pub proof fn lemma_be_bytes_val(v: nat, k: nat)
    requires
        v < pow256(k),
    ensures
        be_val(be_bytes(v, k)) == v,
    decreases k,
{
    if k > 0 {
        let p = pow256((k - 1) as nat);
        if v / 256 >= p {
            vstd::arithmetic::div_mod::lemma_fundamental_div_mod(v as int, 256);
            vstd::arithmetic::mul::lemma_mul_inequality(p as int, (v as int) / 256, 256);
            assert(false);
        }
        lemma_be_bytes_val(v / 256, (k - 1) as nat);
        let x = be_bytes(v / 256, (k - 1) as nat);
        let b = (v % 256) as u8;
        assert(x.push(b).drop_last() =~= x);
        vstd::arithmetic::div_mod::lemma_fundamental_div_mod(v as int, 256);
    }
}

/// Reading the head back from `encode_head`'s bytes, whatever follows
/// them: the same major type, the same argument, exactly the head
/// consumed.
pub proof fn lemma_parse_encode_head(major: u8, w: HeadWidth, v: u64, rest: Seq<u8>)
    requires
        major < 8,
        arg_fits(w, v),
    ensures
        encode_head(major, w, v).len() == 1 + width_bytes(w),
        (encode_head(major, w, v) + rest).len() >= 1,
        major_of((encode_head(major, w, v) + rest)[0]) == major,
        arg_of((encode_head(major, w, v) + rest)[0]) == width_arg(w, v),
        parse_head(encode_head(major, w, v) + rest) == (Head::Definite {
            value: v,
            size: 1 + width_bytes(w) as int,
        }),
        (encode_head(major, w, v) + rest).skip(1 + width_bytes(w) as int) == rest,
{
    let a = width_arg(w, v);
    let k = width_bytes(w);
    lemma_be_bytes_len(v as nat, k);
    let h = encode_head(major, w, v);
    let s = h + rest;
    assert(a < 32);
    let b0: u8 = (major * 32 + a) as u8;
    assert(s[0] == b0);
    vstd::arithmetic::div_mod::lemma_fundamental_div_mod_converse(
        b0 as int,
        32,
        major as int,
        a as int,
    );
    assert(pow256(0) == 1);
    assert(pow256(1) == 256);
    assert(pow256(2) == 65536);
    assert(pow256(3) == 16777216);
    assert(pow256(4) == 4294967296);
    assert(pow256(5) == 1099511627776);
    assert(pow256(6) == 281474976710656);
    assert(pow256(7) == 72057594037927936);
    assert(pow256(8) == 18446744073709551616);
    if k > 0 {
        assert forall|i: int| 0 <= i < k implies s.subrange(1, 1 + k as int)[i] == be_bytes(
            v as nat,
            k,
        )[i] by {
            assert(s[1 + i] == h[1 + i]);
            assert(h[1 + i] == be_bytes(v as nat, k)[i]);
        }
        assert(s.subrange(1, 1 + k as int) =~= be_bytes(v as nat, k));
        lemma_be_bytes_val(v as nat, k);
    }
    match w {
        HeadWidth::Inline => {
        },
        HeadWidth::One => {
            assert(be_bytes(v as nat, 1) == be_bytes((v as nat) / 256, 0).push(
                ((v as nat) % 256) as u8,
            ));
            assert(s[1] == be_bytes(v as nat, 1)[0]);
        },
        HeadWidth::Two => {
            assert(s.subrange(1, 3) == be_bytes(v as nat, 2));
        },
        HeadWidth::Four => {
            assert(s.subrange(1, 5) == be_bytes(v as nat, 4));
        },
        HeadWidth::Eight => {
            assert(s.subrange(1, 9) == be_bytes(v as nat, 8));
        },
    }
    assert(s.skip(1 + k as int) =~= rest);
}

/// The single head byte that opens an indefinite-length sequence.
pub open spec fn indefinite_array_header() -> u8 {
    159
}

/// The single byte of the break marker that closes an indefinite sequence.
pub open spec fn break_marker() -> u8 {
    255
}

} // verus!
