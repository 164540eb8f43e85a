//! Laws of the decoder, stated over the specification-level parse.
//!
//! Each law quantifies over element byte chunks `es` and their values
//! `vs`: `chunks_parse_to` says every chunk parses to its value, consuming
//! exactly the chunk, whatever bytes follow it — which is what an encoder
//! for the element type produces.

use vstd::prelude::*;

use crate::error::DeserializeFailure;
use crate::format::{
    arg_fits, break_marker, encode_head, indefinite_array_header, lemma_parse_encode_head,
    major_of, width_bytes, HeadWidth, LengthEncoding,
};
use crate::non_empty_set::{
    spec_parse_elems, spec_parse_set, Deserialize, ElemsParse, SetParse,
};

verus! {

/// All the chunks in order, as one byte sequence.
pub open spec fn cat_all(es: Seq<Seq<u8>>) -> Seq<u8>
    decreases es.len(),
{
    if es.len() == 0 {
        Seq::empty()
    } else {
        es.first() + cat_all(es.drop_first())
    }
}

/// Every chunk `es[i]` is one well-formed encoded element with value
/// `vs[i]`: nonempty, not of the special category, and parsed to exactly
/// `vs[i]` over exactly the chunk's bytes, whatever follows it.
pub open spec fn chunks_parse_to<T: Deserialize>(es: Seq<Seq<u8>>, vs: Seq<T>) -> bool {
    &&& es.len() == vs.len()
    &&& forall|i: int| 0 <= i < es.len() ==> #[trigger] es[i].len() >= 1
    &&& forall|i: int| 0 <= i < es.len() ==> major_of(#[trigger] es[i][0]) != 7
    &&& forall|i: int, rest: Seq<u8>|
        0 <= i < es.len() ==> #[trigger] T::spec_parse(es[i] + rest) == Some(
            (vs[i], es[i].len() as int),
        )
}

/// The element loop walks a run of well-formed chunks: it reads their
/// values in order and goes on into whatever follows the run.
pub proof fn lemma_elems_loop<T: Deserialize>(
    es: Seq<Seq<u8>>,
    vs: Seq<T>,
    tail: Seq<u8>,
    style: LengthEncoding,
    acc: Seq<T>,
)
    requires
        chunks_parse_to::<T>(es, vs),
        style matches LengthEncoding::Fixed(n) ==> acc.len() + es.len() <= n,
    ensures
        spec_parse_elems::<T>(cat_all(es) + tail, style, acc) == spec_parse_elems::<T>(
            tail,
            style,
            acc + vs,
        ),
    decreases es.len(),
{
    if es.len() == 0 {
        assert(cat_all(es) + tail =~= tail);
        assert(acc + vs =~= acc);
    } else {
        let s = cat_all(es) + tail;
        let rest1 = cat_all(es.drop_first()) + tail;
        assert(s =~= es.first() + rest1);
        assert(s[0] == es.first()[0]);
        assert(T::spec_parse(es.first() + rest1) == Some((vs.first(), es.first().len() as int)));
        assert(s.skip(es.first().len() as int) =~= rest1);
        assert forall|i: int| 0 <= i < es.drop_first().len() implies #[trigger] es.drop_first()[i].len()
            >= 1 by {
            assert(es.drop_first()[i] == es[i + 1]);
        }
        assert forall|i: int| 0 <= i < es.drop_first().len() implies major_of(
            #[trigger] es.drop_first()[i][0],
        ) != 7 by {
            assert(es.drop_first()[i] == es[i + 1]);
        }
        assert forall|i: int, rest: Seq<u8>| 0 <= i < es.drop_first().len() implies #[trigger] T::spec_parse(
            es.drop_first()[i] + rest,
        ) == Some((vs.drop_first()[i], es.drop_first()[i].len() as int)) by {
            assert(es.drop_first()[i] == es[i + 1]);
            assert(vs.drop_first()[i] == vs[i + 1]);
            assert(T::spec_parse(es[i + 1] + rest) == Some((vs[i + 1], es[i + 1].len() as int)));
        }
        lemma_elems_loop::<T>(es.drop_first(), vs.drop_first(), tail, style, acc.push(vs.first()));
        assert(acc.push(vs.first()) + vs.drop_first() =~= acc + vs);
    }
}

/// A sequence written with a fixed-count header over `n` well-formed
/// element chunks decodes to exactly those `n` values, in wire order, with
/// the style `Fixed(n)`, leaving the bytes after the run untouched.
pub proof fn lemma_fixed_round_trip<T: Deserialize>(
    w: HeadWidth,
    es: Seq<Seq<u8>>,
    vs: Seq<T>,
    rest: Seq<u8>,
)
    requires
        chunks_parse_to::<T>(es, vs),
        es.len() <= u64::MAX,
        arg_fits(w, es.len() as u64),
    ensures
        spec_parse_set::<T>(encode_head(4, w, es.len() as u64) + (cat_all(es) + rest))
            == (SetParse::Parsed {
            elems: vs,
            style: LengthEncoding::Fixed(es.len() as u64),
            rest,
        }),
{
    let n = es.len() as u64;
    let body = cat_all(es) + rest;
    lemma_parse_encode_head(4, w, n, body);
    let s = encode_head(4, w, n) + body;
    lemma_elems_loop::<T>(es, vs, rest, LengthEncoding::Fixed(n), Seq::empty());
    assert(Seq::<T>::empty() + vs =~= vs);
}

/// The same element chunks written with an indefinite header and a closing
/// break marker decode to the same values, in the same order, with the
/// style `Indefinite`.
pub proof fn lemma_indefinite_round_trip<T: Deserialize>(
    es: Seq<Seq<u8>>,
    vs: Seq<T>,
    rest: Seq<u8>,
)
    requires
        chunks_parse_to::<T>(es, vs),
    ensures
        spec_parse_set::<T>(
            seq![indefinite_array_header()] + (cat_all(es) + (seq![break_marker()] + rest)),
        ) == (SetParse::Parsed { elems: vs, style: LengthEncoding::Indefinite, rest }),
{
    let closing = seq![break_marker()] + rest;
    let s = seq![indefinite_array_header()] + (cat_all(es) + closing);
    assert(s[0] == indefinite_array_header());
    assert(s.skip(1) =~= cat_all(es) + closing);
    lemma_elems_loop::<T>(es, vs, closing, LengthEncoding::Indefinite, Seq::empty());
    assert(Seq::<T>::empty() + vs =~= vs);
    assert(closing[0] == break_marker());
    assert(closing.skip(1) =~= rest);
}

/// Both header forms over the same well-formed element chunks decode to
/// the same elements in the same order; only the recorded length style
/// tells them apart.
pub proof fn lemma_forms_agree<T: Deserialize>(
    w: HeadWidth,
    es: Seq<Seq<u8>>,
    vs: Seq<T>,
    rest: Seq<u8>,
)
    requires
        chunks_parse_to::<T>(es, vs),
        es.len() <= u64::MAX,
        arg_fits(w, es.len() as u64),
    ensures
        spec_parse_set::<T>(encode_head(4, w, es.len() as u64) + (cat_all(es) + rest))
            == (SetParse::Parsed {
            elems: vs,
            style: LengthEncoding::Fixed(es.len() as u64),
            rest,
        }),
        spec_parse_set::<T>(
            seq![indefinite_array_header()] + (cat_all(es) + (seq![break_marker()] + rest)),
        ) == (SetParse::Parsed { elems: vs, style: LengthEncoding::Indefinite, rest }),
{
    lemma_fixed_round_trip::<T>(w, es, vs, rest);
    lemma_indefinite_round_trip::<T>(es, vs, rest);
}

/// Emptiness is not rejected, despite the type's name: a fixed count of
/// zero, and an indefinite header followed at once by the break marker,
/// both decode to a sequence of no elements.
pub proof fn lemma_empty_sequences_accepted<T: Deserialize>(w: HeadWidth, rest: Seq<u8>)
    requires
        arg_fits(w, 0),
    ensures
        spec_parse_set::<T>(encode_head(4, w, 0) + rest) == (SetParse::<T>::Parsed {
            elems: Seq::empty(),
            style: LengthEncoding::Fixed(0),
            rest,
        }),
        spec_parse_set::<T>(seq![indefinite_array_header()] + (seq![break_marker()] + rest))
            == (SetParse::<T>::Parsed {
            elems: Seq::empty(),
            style: LengthEncoding::Indefinite,
            rest,
        }),
{
    let es = Seq::<Seq<u8>>::empty();
    let vs = Seq::<T>::empty();
    lemma_forms_agree::<T>(w, es, vs, rest);
    assert(cat_all(es) + rest =~= rest);
    assert(encode_head(4, w, 0) + (cat_all(es) + rest) =~= encode_head(4, w, 0) + rest);
    assert(cat_all(es) + (seq![break_marker()] + rest) =~= seq![break_marker()] + rest);
    assert(seq![indefinite_array_header()] + (cat_all(es) + (seq![break_marker()] + rest))
        =~= seq![indefinite_array_header()] + (seq![break_marker()] + rest));
}

/// A leading tag 258 is transparent: decoding the tagged bytes gives
/// exactly what decoding the bare body gives, elements and style included.
pub proof fn lemma_tag_transparent<T: Deserialize>(w: HeadWidth, body: Seq<u8>)
    requires
        arg_fits(w, 258),
        body.len() > 0 ==> major_of(body[0]) != 6,
    ensures
        spec_parse_set::<T>(encode_head(6, w, 258) + body) == spec_parse_set::<T>(body),
{
    lemma_parse_encode_head(6, w, 258, body);
}

/// A leading tag other than 258 is refused with a `TagMismatch` naming the
/// tag found and the tag expected, leaving every byte after the tag's own
/// head unread.
pub proof fn lemma_tag_mismatch<T: Deserialize>(w: HeadWidth, t: u64, rest: Seq<u8>)
    requires
        arg_fits(w, t),
        t != 258,
    ensures
        spec_parse_set::<T>(encode_head(6, w, t) + rest) == (SetParse::<T>::Fail {
            failure: DeserializeFailure::TagMismatch { found: t, expected: 258 },
            rest,
        }),
{
    lemma_parse_encode_head(6, w, t, rest);
}

/// When one element of the run is malformed, the whole decode fails: a
/// fixed-count header expecting more elements, a run of well-formed
/// chunks, and then bytes no element parse accepts end in an element
/// failure, not in a decoded sequence.
pub proof fn lemma_element_failure<T: Deserialize>(
    w: HeadWidth,
    n: u64,
    es: Seq<Seq<u8>>,
    vs: Seq<T>,
    bad: Seq<u8>,
)
    requires
        chunks_parse_to::<T>(es, vs),
        es.len() < n,
        arg_fits(w, n),
        bad.len() > 0,
        major_of(bad[0]) != 7,
        T::spec_parse(bad) is None,
    ensures
        spec_parse_set::<T>(encode_head(4, w, n) + (cat_all(es) + bad)) is ElemFail,
{
    let body = cat_all(es) + bad;
    lemma_parse_encode_head(4, w, n, body);
    lemma_elems_loop::<T>(es, vs, bad, LengthEncoding::Fixed(n), Seq::empty());
    assert(Seq::<T>::empty() + vs =~= vs);
}

} // verus!
