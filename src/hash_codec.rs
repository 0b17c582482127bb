//! Decomposition of a 64-byte digest into eight little-endian 64-bit words.
use vstd::arithmetic::div_mod::lemma_fundamental_div_mod_converse;
use vstd::prelude::*;

verus! {

/// A cryptographic digest of fixed size, opaque but for its bytes. The array
/// type fixes its length at 64, so no conversion has to check it.
#[derive(Clone, Copy, Debug, PartialEq, Eq)]
pub struct HashValue {
    pub bytes: [u8; 64],
}

impl HashValue {
    pub open spec fn view(&self) -> Seq<u8> {
        self.bytes@
    }

    pub fn new(bytes: [u8; 64]) -> (r: HashValue)
        ensures
            r@ == bytes@,
    {
        HashValue { bytes }
    }

    pub fn as_bytes(&self) -> (r: &[u8; 64])
        ensures
            r@ == self@,
    {
        &self.bytes
    }
}

/// The unsigned integer that the bytes `s` spell in little-endian order.
pub open spec fn le_value(s: Seq<u8>) -> nat
    decreases s.len(),
{
    if s.len() == 0 {
        0
    } else {
        s[0] as nat + 256 * le_value(s.drop_first())
    }
}

/// `256` raised to the power `n`.
pub open spec fn pow256(n: nat) -> nat
    decreases n,
{
    if n == 0 {
        1
    } else {
        256 * pow256((n - 1) as nat)
    }
}

/// The `n` little-endian bytes of `v`, least significant first.
pub open spec fn le_bytes(v: nat, n: nat) -> Seq<u8>
    decreases n,
{
    if n == 0 {
        Seq::empty()
    } else {
        seq![(v % 256) as u8] + le_bytes(v / 256, (n - 1) as nat)
    }
}

/// The `i`-th 64-bit word of a digest: bytes `8 * i .. 8 * i + 8`, little-endian.
pub open spec fn word_at(b: Seq<u8>, i: int) -> u64 {
    le_value(b.subrange(8 * i, 8 * i + 8)) as u64
}

/// The eight words a digest decomposes into, in order.
pub open spec fn encode_words(b: Seq<u8>) -> Seq<u64> {
    Seq::new(8, |i: int| word_at(b, i))
}

/// The bytes of a word sequence laid end to end, each word little-endian.
pub open spec fn decode_words(w: Seq<u64>) -> Seq<u8>
    decreases w.len(),
{
    if w.len() == 0 {
        Seq::empty()
    } else {
        le_bytes(w[0] as nat, 8) + decode_words(w.drop_first())
    }
}

pub proof fn lemma_le_value_bound(s: Seq<u8>)
    ensures
        le_value(s) < pow256(s.len()),
    decreases s.len(),
{
    if s.len() > 0 {
        lemma_le_value_bound(s.drop_first());
        let a = s[0] as nat;
        let l = le_value(s.drop_first());
        let p = pow256(s.drop_first().len());
        assert(a + 256 * l < 256 * p) by (nonlinear_arith)
            requires
                a < 256,
                l < p,
        ;
    }
}

pub proof fn lemma_pow256_8()
    ensures
        pow256(8) == 0x1_0000_0000_0000_0000,
{
    reveal_with_fuel(pow256, 9);
}

/// Reading `n` bytes as a little-endian integer and writing it back gives the bytes.
pub proof fn lemma_le_bytes_of_value(s: Seq<u8>)
    ensures
        le_bytes(le_value(s), s.len()) == s,
    decreases s.len(),
{
    if s.len() > 0 {
        let rest = s.drop_first();
        lemma_le_bytes_of_value(rest);
        let v = le_value(s);
        lemma_fundamental_div_mod_converse(v as int, 256, le_value(rest) as int, s[0] as int);
        assert(le_bytes(v, s.len()) =~= s);
    }
}

/// Splitting a digest into its eight words and laying their little-endian
/// bytes end to end gives back the digest exactly.
pub proof fn lemma_hash_round_trip(b: Seq<u8>)
    requires
        b.len() == 64,
    ensures
        decode_words(encode_words(b)) == b,
{
    let w = encode_words(b);
    lemma_pow256_8();
    assert forall|i: int| 0 <= i < 8 implies le_bytes(w[i] as nat, 8) == b.subrange(
        8 * i,
        8 * i + 8,
    ) by {
        let s = b.subrange(8 * i, 8 * i + 8);
        lemma_le_value_bound(s);
        lemma_le_bytes_of_value(s);
    }
    reveal_with_fuel(decode_words, 9);
    assert(decode_words(w) =~= b);
}

/// Reads the eight bytes at `start` as a little-endian word.
pub fn le_word(bytes: &[u8; 64], start: usize) -> (r: u64)
    requires
        start + 8 <= 64,
    ensures
        r as nat == le_value(bytes@.subrange(start as int, start + 8)),
{
    let ghost b = bytes@;
    let mut acc: u64 = 0;
    let mut k: usize = 8;
    proof {
        assert(b.subrange(start + 8, start + 8) =~= Seq::<u8>::empty());
    }
    while k > 0
        invariant
            k <= 8,
            start + 8 <= 64,
            b == bytes@,
            acc as nat == le_value(b.subrange(start + k, start + 8)),
        decreases k,
    {
        let ghost tail = b.subrange(start + k, start + 8);
        let ghost next = b.subrange(start + k - 1, start + 8);
        proof {
            assert(next.drop_first() =~= tail);
            lemma_le_value_bound(next);
            lemma_pow256_le_8(next.len());
        }
        acc = bytes[start + k - 1] as u64 + 256 * acc;
        k = k - 1;
    }
    acc
}

proof fn lemma_pow256_le_8(n: nat)
    requires
        n <= 8,
    ensures
        pow256(n) <= 0x1_0000_0000_0000_0000,
    decreases 8 - n,
{
    if n < 8 {
        lemma_pow256_le_8(n + 1);
        assert(pow256(n + 1) == 256 * pow256(n));
    } else {
        lemma_pow256_8();
    }
}

/// The eight words of a digest, in order: word `i` is bytes `8 * i .. 8 * i + 8`
/// read little-endian.
pub fn hash_words(h: &HashValue) -> (r: [u64; 8])
    ensures
        r@ == encode_words(h@),
{
    let b = h.as_bytes();
    let r = [
        le_word(b, 0),
        le_word(b, 8),
        le_word(b, 16),
        le_word(b, 24),
        le_word(b, 32),
        le_word(b, 40),
        le_word(b, 48),
        le_word(b, 56),
    ];
    proof {
        assert forall|i: int| 0 <= i < 8 implies #[trigger] le_value(b@.subrange(8 * i, 8 * i + 8)) < pow256(8) by {
            lemma_le_value_bound(b@.subrange(8 * i, 8 * i + 8));
        }
        lemma_pow256_8();
        assert(r@ =~= encode_words(h@));
    }
    r
}

} // verus!
