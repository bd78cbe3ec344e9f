//! The atom codec: arbitrary UTF-8 text becomes a text atom (its bytes,
//! most significant first), an ordered sequence of texts becomes
//! right-nested cells of text atoms terminated by the zero atom, and
//! both decode back exactly.  Decoding is total: a noun that this codec
//! did not produce yields a `DecodeError`, never garbled text.

use crate::noun::{Noun, NounV};
use vstd::prelude::*;
use vstd::string::StrSliceExecFns;
use vstd::utf8::{decode_utf8, encode_utf8, encode_utf8_decode_utf8, encode_utf8_valid_utf8,
    valid_utf8};

verus! {

/// Why a noun from the ledger could not be read back.
#[derive(Debug, PartialEq, Eq)]
pub enum DecodeError {
    /// A text atom was expected but a cell was found.
    ExpectedAtom,
    /// An atom's bytes are not valid UTF-8.
    InvalidText,
    /// A list ended in an atom other than the empty-list atom.
    BadTerminator,
}

/// The atom that encodes a text: its UTF-8 bytes.
pub open spec fn spec_encode_text(s: Seq<char>) -> NounV {
    NounV::Atom(encode_utf8(s))
}

/// The text that a noun decodes to: the atom's bytes read as UTF-8.
pub open spec fn spec_decode_atom(n: NounV) -> Result<Seq<char>, DecodeError> {
    match n {
        NounV::Atom(b) => if valid_utf8(b) {
            Ok(decode_utf8(b))
        } else {
            Err(DecodeError::InvalidText)
        },
        NounV::Cell(_, _) => Err(DecodeError::ExpectedAtom),
    }
}

/// The noun that encodes an ordered sequence of texts.
pub open spec fn spec_encode_list(l: Seq<Seq<char>>) -> NounV
    decreases l.len(),
{
    if l.len() == 0 {
        NounV::Atom(Seq::empty())
    } else {
        NounV::Cell(
            Box::new(spec_encode_text(l.first())),
            Box::new(spec_encode_list(l.drop_first())),
        )
    }
}

/// The sequence of texts that a noun decodes to: heads of right-nested
/// cells down to the empty-list atom, each read as a text atom.
pub open spec fn spec_decode_list(n: NounV) -> Result<Seq<Seq<char>>, DecodeError>
    decreases n,
{
    match n {
        NounV::Atom(b) => if b.len() == 0 {
            Ok(Seq::empty())
        } else {
            Err(DecodeError::BadTerminator)
        },
        NounV::Cell(h, t) => match spec_decode_atom(*h) {
            Err(e) => Err(e),
            Ok(s) => match spec_decode_list(*t) {
                Err(e) => Err(e),
                Ok(rest) => Ok(seq![s] + rest),
            },
        },
    }
}

/// Relies on `String::from_utf8`: it succeeds exactly on valid UTF-8
/// bytes, and the string it returns is carried by those same bytes.
#[verifier::external_body]
fn bytes_to_string(v: &Vec<u8>) -> (r: Option<String>)
    ensures
        match r {
            Some(s) => valid_utf8(v@) && encode_utf8(s@) == v@,
            None => !valid_utf8(v@),
        },
{
    String::from_utf8(v.clone()).ok()
}

/// Encode a text into a text atom.  The empty text gives the zero atom.
pub fn encode_text(s: &str) -> (n: Noun)
    ensures
        n@ == spec_encode_text(s@),
        spec_decode_atom(n@) == Ok::<Seq<char>, DecodeError>(s@),
{
    proof {
        lemma_text_round_trip(s@);
    }
    Noun::Atom(s.as_bytes_vec())
}

/// Decode a text atom back into its text.
pub fn decode_atom(n: &Noun) -> (r: Result<String, DecodeError>)
    ensures
        match (r, spec_decode_atom(n@)) {
            (Ok(s), Ok(t)) => s@ == t,
            (Err(e1), Err(e2)) => e1 == e2,
            _ => false,
        },
{
    match n {
        Noun::Cell(_, _) => Err(DecodeError::ExpectedAtom),
        Noun::Atom(b) => match bytes_to_string(b) {
            Some(s) => {
                proof {
                    encode_utf8_decode_utf8(s@);
                }
                Ok(s)
            },
            None => Err(DecodeError::InvalidText),
        },
    }
}

/// Encode an ordered sequence of texts, built from the last element to
/// the first.  The empty sequence gives the empty-list atom.
pub fn encode_list(items: &Vec<String>) -> (n: Noun)
    ensures
        n@ == spec_encode_list(items.deep_view()),
        spec_decode_list(n@) == Ok::<Seq<Seq<char>>, DecodeError>(items.deep_view()),
{
    let ghost l: Seq<Seq<char>> = items.deep_view();
    let mut n = Noun::Atom(Vec::new());
    let mut i: usize = items.len();
    proof {
        assert(l.skip(i as int).len() == 0);
    }
    while i > 0
        invariant
            i <= items.len(),
            l == items.deep_view(),
            n@ == spec_encode_list(l.skip(i as int)),
        decreases i,
    {
        i = i - 1;
        n = Noun::Cell(Box::new(encode_text(items[i].as_str())), Box::new(n));
        proof {
            assert(l.skip(i as int).first() == l[i as int]);
            assert(l.skip(i as int).drop_first() =~~= l.skip(i as int + 1));
        }
    }
    proof {
        assert(l.skip(0) =~~= l);
        lemma_list_round_trip(l);
    }
    n
}

/// Decode a list noun back into its ordered sequence of texts.
pub fn decode_list(n: &Noun) -> (r: Result<Vec<String>, DecodeError>)
    ensures
        match (r, spec_decode_list(n@)) {
            (Ok(v), Ok(l)) => v.deep_view() == l,
            (Err(e1), Err(e2)) => e1 == e2,
            _ => false,
        },
    decreases *n,
{
    match n {
        Noun::Atom(b) => if b.len() == 0 {
            let r: Vec<String> = Vec::new();
            proof {
                assert(r.deep_view() =~~= Seq::<Seq<char>>::empty());
            }
            Ok(r)
        } else {
            Err(DecodeError::BadTerminator)
        },
        Noun::Cell(h, t) => match decode_atom(h) {
            Err(e) => Err(e),
            Ok(s) => match decode_list(t) {
                Err(e) => Err(e),
                Ok(v) => {
                    let ghost rest = v.deep_view();
                    let mut v = v;
                    v.insert(0, s);
                    proof {
                        assert(v.deep_view() =~~= seq![s@] + rest);
                    }
                    Ok(v)
                },
            },
        },
    }
}

/// Round trip: the atom of any text — empty or with multi-byte UTF-8 —
/// decodes back to exactly that text.
pub proof fn lemma_text_round_trip(s: Seq<char>)
    ensures
        spec_decode_atom(spec_encode_text(s)) == Ok::<Seq<char>, DecodeError>(s),
{
    encode_utf8_valid_utf8(s);
    encode_utf8_decode_utf8(s);
}

/// Injectivity: distinct texts encode to distinct atoms.
pub proof fn lemma_encode_text_injective(s1: Seq<char>, s2: Seq<char>)
    requires
        s1 != s2,
    ensures
        spec_encode_text(s1) != spec_encode_text(s2),
{
    lemma_text_round_trip(s1);
    lemma_text_round_trip(s2);
}

/// Round trip: the noun of any finite ordered sequence of texts decodes
/// back to exactly that sequence, in order.
pub proof fn lemma_list_round_trip(l: Seq<Seq<char>>)
    ensures
        spec_decode_list(spec_encode_list(l)) == Ok::<Seq<Seq<char>>, DecodeError>(l),
    decreases l.len(),
{
    if l.len() == 0 {
        assert(l =~~= Seq::<Seq<char>>::empty());
    } else {
        lemma_text_round_trip(l.first());
        lemma_list_round_trip(l.drop_first());
        assert(seq![l.first()] + l.drop_first() =~~= l);
    }
}

/// The empty text encodes to the zero atom, the empty byte string.
pub proof fn lemma_empty_text_zero_atom()
    ensures
        spec_encode_text(Seq::empty()) == NounV::Atom(Seq::<u8>::empty()),
{
    assert(encode_utf8(Seq::<char>::empty()) =~= Seq::<u8>::empty());
}

} // verus!
