use cbor_event::de::Deserializer;
use nonempty_set::{DeserializeFailure, LengthEncoding, NonemptySet};

#[test]
fn tagged_fixed_pair_decodes() {
    // tag(258) + fixed-array-header(2) + integers 7 and 9
    let mut raw = Deserializer::from(vec![0xd9, 0x01, 0x02, 0x82, 0x07, 0x09]);
    let set = NonemptySet::<u64>::deserialize(&mut raw).unwrap();
    assert_eq!(set.elems, vec![7, 9]);
    assert_eq!(set.len_encoding, LengthEncoding::Fixed(2));
    assert_eq!(raw.position(), 6);
}

#[test]
fn indefinite_single_element_decodes() {
    // indefinite-array-header + integer 3 + break marker
    let mut raw = Deserializer::from(vec![0x9f, 0x03, 0xff]);
    let set = NonemptySet::<u64>::deserialize(&mut raw).unwrap();
    assert_eq!(set.elems, vec![3]);
    assert_eq!(set.len_encoding, LengthEncoding::Indefinite);
    assert_eq!(raw.position(), 3);
}

#[test]
fn untagged_form_decodes_same_elements_as_tagged() {
    let mut tagged = Deserializer::from(vec![0xd9, 0x01, 0x02, 0x82, 0x07, 0x09]);
    let mut bare = Deserializer::from(vec![0x82, 0x07, 0x09]);
    let with_tag = NonemptySet::<u64>::deserialize(&mut tagged).unwrap();
    let without_tag = NonemptySet::<u64>::deserialize(&mut bare).unwrap();
    assert_eq!(with_tag.elems, without_tag.elems);
    assert_eq!(with_tag.len_encoding, without_tag.len_encoding);
}

#[test]
fn indefinite_form_decodes_same_elements_as_fixed() {
    let mut fixed = Deserializer::from(vec![0x83, 0x01, 0x02, 0x03]);
    let mut indefinite = Deserializer::from(vec![0x9f, 0x01, 0x02, 0x03, 0xff]);
    let fixed_set = NonemptySet::<u64>::deserialize(&mut fixed).unwrap();
    let indefinite_set = NonemptySet::<u64>::deserialize(&mut indefinite).unwrap();
    assert_eq!(fixed_set.elems, indefinite_set.elems);
    assert_eq!(fixed_set.len_encoding, LengthEncoding::Fixed(3));
    assert_eq!(indefinite_set.len_encoding, LengthEncoding::Indefinite);
}

#[test]
fn wrong_tag_is_rejected_before_any_element() {
    // tag(24), then a well-formed pair that must stay unread
    let mut raw = Deserializer::from(vec![0xd8, 0x18, 0x82, 0x07, 0x09]);
    let err = NonemptySet::<u64>::deserialize(&mut raw).unwrap_err();
    assert_eq!(err.failure, DeserializeFailure::TagMismatch { found: 24, expected: 258 });
    assert_eq!(err.annotations, vec!["NonemptySet".to_string()]);
    // only the two bytes of the tag's own head were consumed
    assert_eq!(raw.position(), 2);
}

#[test]
fn empty_fixed_sequence_is_accepted() {
    let mut raw = Deserializer::from(vec![0x80]);
    let set = NonemptySet::<u64>::deserialize(&mut raw).unwrap();
    assert_eq!(set.elems, Vec::<u64>::new());
    assert_eq!(set.len_encoding, LengthEncoding::Fixed(0));
}

#[test]
fn empty_indefinite_sequence_is_accepted() {
    let mut raw = Deserializer::from(vec![0x9f, 0xff]);
    let set = NonemptySet::<u64>::deserialize(&mut raw).unwrap();
    assert_eq!(set.elems, Vec::<u64>::new());
    assert_eq!(set.len_encoding, LengthEncoding::Indefinite);
}

#[test]
fn malformed_third_element_fails_whole_decode() {
    // fixed-array-header(5); third item is a negative integer, which the
    // u64 element decoder refuses
    let mut raw = Deserializer::from(vec![0x85, 0x01, 0x02, 0x20, 0x04, 0x05]);
    let err = NonemptySet::<u64>::deserialize(&mut raw).unwrap_err();
    assert_eq!(err.failure, DeserializeFailure::UnexpectedType);
    assert_eq!(err.annotations.last().map(String::as_str), Some("NonemptySet"));
}

#[test]
fn truncated_stream_reports_end_of_stream() {
    // fixed-array-header(2) but only one element present
    let mut raw = Deserializer::from(vec![0x82, 0x07]);
    let err = NonemptySet::<u64>::deserialize(&mut raw).unwrap_err();
    assert_eq!(err.failure, DeserializeFailure::UnexpectedEndOfStream);
    assert_eq!(err.annotations, vec!["NonemptySet".to_string()]);
}

#[test]
fn reserved_length_header_is_malformed() {
    // array initial byte with reserved argument field 28
    let mut raw = Deserializer::from(vec![0x9c, 0x00]);
    let err = NonemptySet::<u64>::deserialize(&mut raw).unwrap_err();
    assert_eq!(err.failure, DeserializeFailure::MalformedLengthHeader);
}

#[test]
fn indefinite_tag_head_is_malformed() {
    // tag initial byte with the indefinite argument field, which a tag
    // cannot carry
    let mut raw = Deserializer::from(vec![0xdf, 0x80]);
    let err = NonemptySet::<u64>::deserialize(&mut raw).unwrap_err();
    assert_eq!(err.failure, DeserializeFailure::MalformedLengthHeader);
}

#[test]
fn non_sequence_item_is_wrong_type() {
    // an unsigned integer where the sequence must start
    let mut raw = Deserializer::from(vec![0x07]);
    let err = NonemptySet::<u64>::deserialize(&mut raw).unwrap_err();
    assert_eq!(err.failure, DeserializeFailure::UnexpectedType);
}

#[test]
fn non_break_special_at_element_position_is_rejected() {
    // indefinite-array-header + the boolean `true`, a special-category
    // item that is not the break marker
    let mut raw = Deserializer::from(vec![0x9f, 0xf5, 0xff]);
    let err = NonemptySet::<u64>::deserialize(&mut raw).unwrap_err();
    assert_eq!(err.failure, DeserializeFailure::UnexpectedSpecial);
}

#[test]
fn empty_input_reports_end_of_stream() {
    let mut raw = Deserializer::from(Vec::new());
    let err = NonemptySet::<u64>::deserialize(&mut raw).unwrap_err();
    assert_eq!(err.failure, DeserializeFailure::UnexpectedEndOfStream);
    assert_eq!(err.annotations, vec!["NonemptySet".to_string()]);
}

#[test]
fn wider_count_headers_decode_like_inline_ones() {
    // the same two elements under one-byte and four-byte count arguments
    let mut one_byte = Deserializer::from(vec![0x98, 0x02, 0x07, 0x09]);
    let mut four_byte = Deserializer::from(vec![0x9a, 0x00, 0x00, 0x00, 0x02, 0x07, 0x09]);
    let a = NonemptySet::<u64>::deserialize(&mut one_byte).unwrap();
    let b = NonemptySet::<u64>::deserialize(&mut four_byte).unwrap();
    assert_eq!(a.elems, vec![7, 9]);
    assert_eq!(b.elems, vec![7, 9]);
    assert_eq!(a.len_encoding, LengthEncoding::Fixed(2));
    assert_eq!(b.len_encoding, LengthEncoding::Fixed(2));
}

#[test]
fn wide_tag_head_still_matches() {
    // tag 258 written in a four-byte argument, then one element
    let mut raw = Deserializer::from(vec![0xda, 0x00, 0x00, 0x01, 0x02, 0x81, 0x07]);
    let set = NonemptySet::<u64>::deserialize(&mut raw).unwrap();
    assert_eq!(set.elems, vec![7]);
    assert_eq!(set.len_encoding, LengthEncoding::Fixed(1));
}

#[test]
fn multi_byte_integer_elements_decode() {
    // 42 in a one-byte argument, 256 in a two-byte argument
    let mut raw = Deserializer::from(vec![0x82, 0x18, 0x2a, 0x19, 0x01, 0x00]);
    let set = NonemptySet::<u64>::deserialize(&mut raw).unwrap();
    assert_eq!(set.elems, vec![42, 256]);
}

#[test]
fn widest_heads_decode() {
    // tag 258 in an eight-byte argument, then the largest integer element
    let mut raw = Deserializer::from(vec![
        0xdb, 0x00, 0x00, 0x00, 0x00, 0x00, 0x00, 0x01, 0x02, // tag 258
        0x81, // fixed-array-header(1)
        0x1b, 0xff, 0xff, 0xff, 0xff, 0xff, 0xff, 0xff, 0xff, // u64::MAX
    ]);
    let set = NonemptySet::<u64>::deserialize(&mut raw).unwrap();
    assert_eq!(set.elems, vec![u64::MAX]);
    assert_eq!(set.len_encoding, LengthEncoding::Fixed(1));
}

#[test]
fn break_ends_fixed_sequence_early() {
    // the loop's break check runs for fixed counts too: a break marker
    // after one of three announced elements ends the sequence there
    let mut raw = Deserializer::from(vec![0x83, 0x01, 0xff]);
    let set = NonemptySet::<u64>::deserialize(&mut raw).unwrap();
    assert_eq!(set.elems, vec![1]);
    assert_eq!(set.len_encoding, LengthEncoding::Fixed(3));
}

#[test]
fn projection_returns_elements_in_order() {
    let mut raw = Deserializer::from(vec![0x83, 0x03, 0x01, 0x02]);
    let set = NonemptySet::<u64>::deserialize(&mut raw).unwrap();
    let elems: Vec<u64> = Vec::from(set);
    assert_eq!(elems, vec![3, 1, 2]);
}

#[test]
fn decoder_stops_at_end_of_value() {
    // trailing bytes after the value stay unread
    let mut raw = Deserializer::from(vec![0x81, 0x07, 0x63, 0x61, 0x62, 0x63]);
    let set = NonemptySet::<u64>::deserialize(&mut raw).unwrap();
    assert_eq!(set.elems, vec![7]);
    assert_eq!(raw.position(), 2);
}
