//! The ledger's native data model: a noun is either an atom — an
//! unbounded unsigned integer, held here as its big-endian bytes — or a
//! cell, an ordered pair of nouns.

use vstd::arithmetic::div_mod::{
    lemma_div_decreases, lemma_fundamental_div_mod, lemma_fundamental_div_mod_converse,
};
use vstd::prelude::*;

verus! {

/// A value in the ledger's data model.  An atom's bytes are most
/// significant first and carry no leading zero byte, so the empty byte
/// string is the atom zero.
#[derive(Debug, PartialEq, Eq)]
pub enum Noun {
    Atom(Vec<u8>),
    Cell(Box<Noun>, Box<Noun>),
}

/// Mathematical model of a noun; atoms carry their byte sequence.
pub enum NounV {
    Atom(Seq<u8>),
    Cell(Box<NounV>, Box<NounV>),
}

/// The model of a noun: each atom's `Vec` becomes its byte sequence.
pub open spec fn noun_view(n: Noun) -> NounV
    decreases n,
{
    match n {
        Noun::Atom(b) => NounV::Atom(b@),
        Noun::Cell(h, t) => NounV::Cell(Box::new(noun_view(*h)), Box::new(noun_view(*t))),
    }
}

impl View for Noun {
    type V = NounV;

    open spec fn view(&self) -> NounV {
        noun_view(*self)
    }
}

/// The unsigned value that a big-endian byte string denotes.
pub open spec fn be_value(bytes: Seq<u8>) -> nat
    decreases bytes.len(),
{
    if bytes.len() == 0 {
        0
    } else {
        be_value(bytes.drop_last()) * 256 + bytes.last() as nat
    }
}

/// The canonical big-endian byte string of an unsigned value: no
/// leading zero byte, and zero is the empty string.
pub open spec fn be_bytes(n: nat) -> Seq<u8>
    decreases n,
    via be_bytes_decreases
{
    if n == 0 {
        Seq::empty()
    } else {
        be_bytes(n / 256).push((n % 256) as u8)
    }
}

#[via_fn]
proof fn be_bytes_decreases(n: nat) {
    if n != 0 {
        lemma_div_decreases(n as int, 256);
    }
}

/// 256 raised to the power `k`: the number of byte strings of length `k`.
pub open spec fn pow256(k: nat) -> nat
    decreases k,
{
    if k == 0 {
        1
    } else {
        256 * pow256((k - 1) as nat)
    }
}

/// Appending a byte multiplies the denoted value by 256 and adds the byte.
pub proof fn lemma_be_value_push(bytes: Seq<u8>, b: u8)
    ensures
        be_value(bytes.push(b)) == be_value(bytes) * 256 + b,
{
    assert(bytes.push(b).drop_last() =~= bytes);
    assert(bytes.push(b).last() == b);
}

/// A nonempty byte string without a leading zero denotes a nonzero value.
pub proof fn lemma_be_value_positive(bytes: Seq<u8>)
    requires
        bytes.len() > 0,
        bytes[0] != 0,
    ensures
        be_value(bytes) > 0,
    decreases bytes.len(),
{
    if bytes.len() > 1 {
        assert(bytes.drop_last()[0] == bytes[0]);
        lemma_be_value_positive(bytes.drop_last());
    }
}

/// A byte string of length `k` denotes a value below 256^k.
pub proof fn lemma_be_value_bound(bytes: Seq<u8>)
    ensures
        be_value(bytes) < pow256(bytes.len()),
    decreases bytes.len(),
{
    if bytes.len() > 0 {
        lemma_be_value_bound(bytes.drop_last());
    }
}

/// The canonical bytes of `n` denote `n`, are empty only for zero, and
/// never start with a zero byte.
pub proof fn lemma_be_bytes_form(n: nat)
    ensures
        be_value(be_bytes(n)) == n,
        n == 0 ==> be_bytes(n).len() == 0,
        n > 0 ==> be_bytes(n).len() > 0 && be_bytes(n)[0] != 0,
    decreases n,
{
    if n > 0 {
        lemma_div_decreases(n as int, 256);
        lemma_fundamental_div_mod(n as int, 256);
        let q = n / 256;
        lemma_be_bytes_form(q);
        lemma_be_value_push(be_bytes(q), (n % 256) as u8);
        if q == 0 {
            assert(be_bytes(n) =~= seq![(n % 256) as u8]);
            assert(n % 256 == n);
            assert(be_bytes(n)[0] != 0);
        } else {
            assert(be_bytes(n)[0] == be_bytes(q)[0]);
        }
    }
}

/// A byte string without a leading zero is the canonical form of its value.
pub proof fn lemma_be_bytes_of_value(bytes: Seq<u8>)
    requires
        bytes.len() == 0 || bytes[0] != 0,
    ensures
        be_bytes(be_value(bytes)) == bytes,
    decreases bytes.len(),
{
    if bytes.len() == 0 {
        assert(be_bytes(0) =~= bytes);
    } else {
        let front = bytes.drop_last();
        let last = bytes.last();
        let v = be_value(bytes);
        assert(v == be_value(front) * 256 + last);
        lemma_fundamental_div_mod_converse(v as int, 256, be_value(front) as int, last as int);
        if bytes.len() == 1 {
            assert(front.len() == 0);
            assert(v == last);
            lemma_be_value_positive(bytes);
            assert(v / 256 == 0);
            assert(be_bytes(0) =~= Seq::<u8>::empty());
            assert(be_bytes(v) =~= seq![(v % 256) as u8]);
            assert(be_bytes(v) =~= bytes);
        } else {
            assert(front[0] == bytes[0]);
            lemma_be_value_positive(front);
            lemma_be_bytes_of_value(front);
            assert(be_bytes(v) =~= front.push(last));
            assert(front.push(last) =~= bytes);
        }
    }
}

/// Values below 256^k have canonical byte strings no longer than `k`.
pub proof fn lemma_be_bytes_len(n: nat, k: nat)
    requires
        n < pow256(k),
    ensures
        be_bytes(n).len() <= k,
    decreases k,
{
    if n > 0 {
        lemma_div_decreases(n as int, 256);
        lemma_fundamental_div_mod(n as int, 256);
        assert(k > 0);
        assert(n / 256 < pow256((k - 1) as nat));
        lemma_be_bytes_len(n / 256, (k - 1) as nat);
    }
}

/// The `u64` that a byte string denotes, where it is the canonical form
/// of a value that fits: at most eight bytes, no leading zero byte.
pub open spec fn spec_atom_u64(bytes: Seq<u8>) -> Option<u64> {
    if bytes.len() <= 8 && (bytes.len() == 0 || bytes[0] != 0) {
        Some(be_value(bytes) as u64)
    } else {
        None
    }
}

/// An atom that reads as a `u64` is that `u64`'s canonical atom: the
/// id encoding is unambiguous in both directions.
pub proof fn lemma_atom_u64_canonical(bytes: Seq<u8>, v: u64)
    requires
        spec_atom_u64(bytes) == Some(v),
    ensures
        be_bytes(v as nat) == bytes,
{
    lemma_pow256_8();
    lemma_be_value_bound(bytes);
    lemma_pow256_mono(bytes.len() as nat, 8);
    lemma_be_bytes_of_value(bytes);
}

/// Reading back the canonical bytes of a `u64` gives that `u64`.
pub proof fn lemma_atom_u64_round_trip(n: u64)
    ensures
        spec_atom_u64(be_bytes(n as nat)) == Some(n),
{
    lemma_be_bytes_form(n as nat);
    lemma_pow256_8();
    lemma_be_bytes_len(n as nat, 8);
}

/// 256^8 is one more than the largest `u64`.
pub proof fn lemma_pow256_8()
    ensures
        pow256(8) == 0x1_0000_0000_0000_0000,
{
    reveal_with_fuel(pow256, 9);
}

/// The canonical big-endian atom bytes of a `u64`.
pub fn u64_to_atom_bytes(n: u64) -> (r: Vec<u8>)
    ensures
        r@ == be_bytes(n as nat),
    decreases n,
{
    if n == 0 {
        Vec::new()
    } else {
        proof {
            lemma_div_decreases(n as int, 256);
        }
        let mut r = u64_to_atom_bytes(n / 256);
        r.push((n % 256) as u8);
        r
    }
}

/// The `u64` denoted by canonical atom bytes, or `None` where the bytes
/// are not the canonical form of a value that fits in a `u64`.
pub fn atom_bytes_to_u64(bytes: &Vec<u8>) -> (r: Option<u64>)
    ensures
        r == spec_atom_u64(bytes@),
{
    if bytes.len() > 8 {
        return None;
    }
    if bytes.len() > 0 && bytes[0] == 0 {
        return None;
    }
    let mut v: u64 = 0;
    let mut i: usize = 0;
    proof {
        lemma_pow256_8();
    }
    while i < bytes.len()
        invariant
            i <= bytes.len() <= 8,
            v == be_value(bytes@.take(i as int)),
            pow256(8) == 0x1_0000_0000_0000_0000,
        decreases bytes.len() - i,
    {
        proof {
            lemma_be_value_bound(bytes@.take(i as int));
            lemma_pow256_mono(i as nat, 7);
            lemma_be_value_push(bytes@.take(i as int), bytes@[i as int]);
            assert(bytes@.take(i + 1) =~= bytes@.take(i as int).push(bytes@[i as int]));
        }
        v = v * 256 + bytes[i] as u64;
        i += 1;
    }
    proof {
        assert(bytes@.take(bytes@.len() as int) =~= bytes@);
        lemma_be_value_bound(bytes@);
        lemma_pow256_mono(bytes@.len() as nat, 8);
    }
    Some(v)
}

/// 256^j divides into 256^k whenever j is at most k.
pub proof fn lemma_pow256_mono(j: nat, k: nat)
    requires
        j <= k,
    ensures
        pow256(j) <= pow256(k),
    decreases k,
{
    if j < k {
        lemma_pow256_mono(j, (k - 1) as nat);
        assert(pow256(k) == 256 * pow256((k - 1) as nat));
    }
}

} // verus!
