use prover::codec::{decode_atom, decode_list, encode_list, encode_text, DecodeError};
use prover::noun::{atom_bytes_to_u64, u64_to_atom_bytes, Noun};

#[test]
fn round_trip_empty_text() {
    let n = encode_text("");
    assert_eq!(decode_atom(&n), Ok(String::new()));
}

#[test]
fn round_trip_ascii_text() {
    let n = encode_text("hello");
    assert_eq!(decode_atom(&n), Ok("hello".to_string()));
}

#[test]
fn round_trip_multibyte_text() {
    let s = "héllo → 日本語";
    let n = encode_text(s);
    assert_eq!(decode_atom(&n), Ok(s.to_string()));
}

#[test]
fn empty_text_is_zero_atom() {
    assert_eq!(encode_text(""), Noun::Atom(vec![]));
}

#[test]
fn text_atom_holds_utf8_bytes() {
    assert_eq!(encode_text("ab"), Noun::Atom(vec![0x61, 0x62]));
    assert_eq!(encode_text("é"), Noun::Atom(vec![0xC3, 0xA9]));
}

#[test]
fn distinct_texts_encode_to_distinct_atoms() {
    assert_ne!(encode_text("a"), encode_text("b"));
    assert_ne!(encode_text(""), encode_text("\u{0}"));
    assert_ne!(encode_text("ab"), encode_text("a"));
}

#[test]
fn decode_atom_rejects_cell() {
    let n = Noun::Cell(Box::new(Noun::Atom(vec![])), Box::new(Noun::Atom(vec![])));
    assert_eq!(decode_atom(&n), Err(DecodeError::ExpectedAtom));
}

#[test]
fn decode_atom_rejects_invalid_utf8() {
    let n = Noun::Atom(vec![0xFF, 0xFE]);
    assert_eq!(decode_atom(&n), Err(DecodeError::InvalidText));
}

#[test]
fn round_trip_list() {
    let items = vec!["alpha".to_string(), "beta".to_string(), "".to_string()];
    let n = encode_list(&items);
    assert_eq!(decode_list(&n), Ok(items));
}

#[test]
fn round_trip_empty_list() {
    let items: Vec<String> = vec![];
    let n = encode_list(&items);
    assert_eq!(n, Noun::Atom(vec![]));
    assert_eq!(decode_list(&n), Ok(items));
}

#[test]
fn list_structure_is_right_nested() {
    let items = vec!["a".to_string(), "b".to_string()];
    let expected = Noun::Cell(
        Box::new(Noun::Atom(vec![0x61])),
        Box::new(Noun::Cell(
            Box::new(Noun::Atom(vec![0x62])),
            Box::new(Noun::Atom(vec![])),
        )),
    );
    assert_eq!(encode_list(&items), expected);
}

#[test]
fn decode_list_rejects_bad_terminator() {
    let n = Noun::Atom(vec![1]);
    assert_eq!(decode_list(&n), Err(DecodeError::BadTerminator));
}

#[test]
fn decode_list_rejects_cell_head() {
    let inner = Noun::Cell(Box::new(Noun::Atom(vec![])), Box::new(Noun::Atom(vec![])));
    let n = Noun::Cell(Box::new(inner), Box::new(Noun::Atom(vec![])));
    assert_eq!(decode_list(&n), Err(DecodeError::ExpectedAtom));
}

#[test]
fn u64_atom_bytes_are_minimal_big_endian() {
    assert_eq!(u64_to_atom_bytes(0), Vec::<u8>::new());
    assert_eq!(u64_to_atom_bytes(7), vec![7]);
    assert_eq!(u64_to_atom_bytes(999999), vec![0x0F, 0x42, 0x3F]);
    assert_eq!(
        u64_to_atom_bytes(u64::MAX),
        vec![0xFF, 0xFF, 0xFF, 0xFF, 0xFF, 0xFF, 0xFF, 0xFF]
    );
}

#[test]
fn u64_atom_round_trips() {
    for id in [0u64, 1, 255, 256, 999999, u64::MAX] {
        let bytes = u64_to_atom_bytes(id);
        assert_eq!(atom_bytes_to_u64(&bytes), Some(id));
    }
}

#[test]
fn u64_atom_rejects_leading_zero_and_overflow() {
    assert_eq!(atom_bytes_to_u64(&vec![0, 1]), None);
    assert_eq!(atom_bytes_to_u64(&vec![1, 0, 0, 0, 0, 0, 0, 0, 0]), None);
}
