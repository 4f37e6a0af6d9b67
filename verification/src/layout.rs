//! How account data hold values: integers least significant byte first, one after another.

use vstd::prelude::*;
use vstd::arithmetic::power::{lemma_pow0, lemma_pow1, lemma_pow_adds, pow};

verus! {

/// The number that the bytes of `s` stand for, the first byte being the least significant.
pub open spec fn le_value(s: Seq<u8>) -> nat
    decreases s.len(),
{
    if s.len() == 0 {
        0
    } else {
        s[0] as nat + 256 * le_value(s.skip(1))
    }
}

/// The `n` least significant bytes of `v`, the least significant first.
pub open spec fn le_bytes(v: nat, n: nat) -> Seq<u8>
    decreases n,
{
    if n == 0 {
        Seq::empty()
    } else {
        seq![(v % 256) as u8] + le_bytes(v / 256, (n - 1) as nat)
    }
}

/// A flag is one byte, 0 or 1.
pub open spec fn bool_bytes(b: bool) -> Seq<u8> {
    seq![if b { 1u8 } else { 0u8 }]
}

/// An optional number is the byte 0, or the byte 1 and then the number.
pub open spec fn option_u16_bytes(v: Option<u16>) -> Seq<u8> {
    match v {
        None => seq![0u8],
        Some(n) => seq![1u8] + le_bytes(n as nat, 2),
    }
}

/// `n` bytes come out.
pub broadcast proof fn lemma_le_bytes_len(v: nat, n: nat)
    ensures
        #[trigger] le_bytes(v, n).len() == n,
    decreases n,
{
    if n > 0 {
        lemma_le_bytes_len(v / 256, (n - 1) as nat);
    }
}

/// Writing the number that bytes stand for gives the bytes back.
pub proof fn lemma_le_bytes_of_value(s: Seq<u8>)
    ensures
        le_bytes(le_value(s), s.len()) == s,
    decreases s.len(),
{
    if s.len() > 0 {
        let v = le_value(s);
        let tail = le_value(s.skip(1));
        lemma_le_bytes_of_value(s.skip(1));
        assert(v % 256 == s[0] as nat && v / 256 == tail);
        assert(seq![s[0]] + s.skip(1) =~= s);
    } else {
        assert(s =~= Seq::empty());
    }
}

/// A number that fits in `n` bytes is read back from them.
pub proof fn lemma_le_value_of_bytes(v: nat, n: nat)
    requires
        v < pow(256, n),
    ensures
        le_value(le_bytes(v, n)) == v,
    decreases n,
{
    if n == 0 {
        lemma_pow0(256);
    } else {
        let m = (n - 1) as nat;
        lemma_pow_adds(256, 1, m);
        lemma_pow1(256);
        lemma_le_value_of_bytes(v / 256, m);
        assert(le_bytes(v, n).skip(1) =~= le_bytes(v / 256, m));
    }
}

/// `n` bytes stand for a number that fits in them.
pub proof fn lemma_le_value_bound(s: Seq<u8>)
    ensures
        le_value(s) < pow(256, s.len()),
    decreases s.len(),
{
    if s.len() == 0 {
        lemma_pow0(256);
    } else {
        lemma_le_value_bound(s.skip(1));
        lemma_pow_adds(256, 1, (s.len() - 1) as nat);
        lemma_pow1(256);
    }
}

/// Different numbers of the same width have different bytes.
pub proof fn lemma_le_bytes_injective(a: nat, b: nat, n: nat)
    requires
        a < pow(256, n),
        b < pow(256, n),
        le_bytes(a, n) == le_bytes(b, n),
    ensures
        a == b,
{
    lemma_le_value_of_bytes(a, n);
    lemma_le_value_of_bytes(b, n);
}

/// How many numbers two, eight and sixteen bytes can hold.
pub proof fn lemma_byte_powers()
    ensures
        pow(256, 2) == 0x1_0000,
        pow(256, 8) == 0x1_0000_0000_0000_0000,
        pow(256, 16) == 0x1_0000_0000_0000_0000_0000_0000_0000_0000,
{
    lemma_pow1(256);
    lemma_pow_adds(256, 1, 1);
    assert(pow(256, 2) == 0x1_0000);
    lemma_pow_adds(256, 2, 2);
    assert(pow(256, 4) == 0x1_0000 * 0x1_0000);
    lemma_pow_adds(256, 4, 4);
    assert(pow(256, 8) == 0x1_0000_0000 * 0x1_0000_0000);
    lemma_pow_adds(256, 8, 8);
    assert(pow(256, 16) == 0x1_0000_0000_0000_0000 * 0x1_0000_0000_0000_0000);
}

/// Two equal sequences split at the same place into equal parts.
pub proof fn lemma_split_equal(a1: Seq<u8>, b1: Seq<u8>, a2: Seq<u8>, b2: Seq<u8>)
    requires
        a1 + b1 == a2 + b2,
        a1.len() == a2.len() || b1.len() == b2.len(),
    ensures
        a1 == a2,
        b1 == b2,
{
    assert((a1 + b1).len() == (a2 + b2).len());
    assert(a1 =~= (a1 + b1).take(a1.len() as int));
    assert(a2 =~= (a2 + b2).take(a2.len() as int));
    assert(b1 =~= (a1 + b1).skip(a1.len() as int));
    assert(b2 =~= (a2 + b2).skip(a2.len() as int));
}

} // verus!
