//! Decoding of claimed plaintext amounts.
//!
//! A claimed plaintext is a variable-length little-endian byte buffer.  Its
//! first eight bytes (zero-padded on the high-order side when fewer are
//! given) are read as an unsigned 64-bit quantity; bytes past the eighth are
//! ignored by deliberate truncation policy, not as an error.

use vstd::prelude::*;

use crate::errors::DacError;

verus! {

/// `256^k`, the number of values a `k`-byte buffer can encode.
pub open spec fn pow256(k: nat) -> nat
    decreases k,
{
    if k == 0 {
        1
    } else {
        256 * pow256((k - 1) as nat)
    }
}

/// The unsigned little-endian reading of a byte sequence: the first byte is
/// the least significant.
pub open spec fn le_word(bytes: Seq<u8>) -> nat
    decreases bytes.len(),
{
    if bytes.len() == 0 {
        0
    } else {
        (bytes[0] as nat) + 256 * le_word(bytes.drop_first())
    }
}

/// What a claimed plaintext buffer decodes to: the little-endian reading of
/// its first eight bytes, all of them when there are fewer.
pub open spec fn decode_plaintext(bytes: Seq<u8>) -> nat {
    if bytes.len() <= 8 {
        le_word(bytes)
    } else {
        le_word(bytes.take(8))
    }
}

pub proof fn lemma_pow256_increases(a: nat, b: nat)
    requires
        a <= b,
    ensures
        pow256(a) <= pow256(b),
    decreases b,
{
    if a < b {
        lemma_pow256_increases(a, (b - 1) as nat);
    }
}

pub proof fn lemma_le_word_bound(bytes: Seq<u8>)
    ensures
        le_word(bytes) < pow256(bytes.len()),
    decreases bytes.len(),
{
    if bytes.len() > 0 {
        lemma_le_word_bound(bytes.drop_first());
    }
}

/// Whatever the buffer, the decoded quantity fits in an unsigned 64-bit
/// word: at most eight bytes are ever read.
pub proof fn lemma_decode_fits_u64(bytes: Seq<u8>)
    ensures
        decode_plaintext(bytes) < 0x1_0000_0000_0000_0000,
{
    reveal_with_fuel(pow256, 9);
    if bytes.len() <= 8 {
        lemma_le_word_bound(bytes);
        lemma_pow256_increases(bytes.len(), 8);
    } else {
        lemma_le_word_bound(bytes.take(8));
    }
}

/// Appending a zero byte on the high-order side does not change the reading:
/// short buffers decode as if zero-padded up to eight bytes.
pub proof fn lemma_le_word_push_zero(bytes: Seq<u8>)
    ensures
        le_word(bytes.push(0)) == le_word(bytes),
    decreases bytes.len(),
{
    if bytes.len() == 0 {
        assert(bytes.push(0).drop_first() =~= Seq::<u8>::empty());
        assert(bytes.push(0)[0] == 0);
        assert(le_word(bytes.push(0)) == 0 + 256 * le_word(Seq::<u8>::empty()));
    } else {
        assert(bytes.push(0).drop_first() =~= bytes.drop_first().push(0));
        lemma_le_word_push_zero(bytes.drop_first());
        assert(bytes.push(0)[0] == bytes[0]);
        assert(le_word(bytes.push(0)) == (bytes[0] as nat) + 256 * le_word(
            bytes.drop_first().push(0),
        ));
    }
}

/// High-order zero padding is invisible to the decoder.
pub proof fn lemma_decode_zero_pad(bytes: Seq<u8>)
    requires
        bytes.len() < 8,
    ensures
        decode_plaintext(bytes.push(0)) == decode_plaintext(bytes),
{
    lemma_le_word_push_zero(bytes);
}

/// An empty buffer decodes to zero.
pub proof fn lemma_decode_empty()
    ensures
        decode_plaintext(Seq::<u8>::empty()) == 0,
{
}

/// Bytes past the eighth never influence the decoded quantity.
pub proof fn lemma_decode_truncates(bytes: Seq<u8>)
    requires
        bytes.len() > 8,
    ensures
        decode_plaintext(bytes) == decode_plaintext(bytes.take(8)),
{
}

/// The `k`-byte little-endian encoding of `v`, least significant byte first.
pub open spec fn le_bytes_of(v: nat, k: nat) -> Seq<u8>
    decreases k,
{
    if k == 0 {
        Seq::empty()
    } else {
        seq![(v % 256) as u8] + le_bytes_of(v / 256, (k - 1) as nat)
    }
}

/// Round trip: reading back the little-endian encoding of any value that
/// fits in `k` bytes reproduces the value.
pub proof fn lemma_le_word_round_trip(v: nat, k: nat)
    requires
        v < pow256(k),
    ensures
        le_bytes_of(v, k).len() == k,
        le_word(le_bytes_of(v, k)) == v,
    decreases k,
{
    if k > 0 {
        assert(v == 256 * (v / 256) + v % 256) by (nonlinear_arith);
        lemma_le_word_round_trip(v / 256, (k - 1) as nat);
        assert(le_bytes_of(v, k).drop_first() =~= le_bytes_of(v / 256, (k - 1) as nat));
    }
}

/// Round trip through the plaintext decoder for buffers of up to eight bytes.
pub proof fn lemma_decode_round_trip(v: nat, k: nat)
    requires
        k <= 8,
        v < pow256(k),
    ensures
        decode_plaintext(le_bytes_of(v, k)) == v,
{
    lemma_le_word_round_trip(v, k);
}

/// Read the claimed plaintext buffer as an unsigned 64-bit quantity.
pub fn parse_plaintext_to_u64(plaintext: &Vec<u8>) -> (r: Result<u64, DacError>)
    ensures
        r matches Ok(v) && v as nat == decode_plaintext(plaintext@),
{
    let n: usize = if plaintext.len() < 8 {
        plaintext.len()
    } else {
        8
    };
    let mut value: u64 = 0;
    let mut j: usize = n;
    proof {
        assert(plaintext@.subrange(n as int, n as int) =~= Seq::<u8>::empty());
    }
    while j > 0
        invariant
            j <= n,
            n <= 8,
            n <= plaintext@.len(),
            plaintext@.len() < 8 ==> n == plaintext@.len(),
            plaintext@.len() >= 8 ==> n == 8,
            value as nat == le_word(plaintext@.subrange(j as int, n as int)),
            value < pow256((n - j) as nat),
        decreases j,
    {
        j = j - 1;
        let b = plaintext[j];
        proof {
            lemma_pow256_increases((n - j) as nat, 8);
            reveal_with_fuel(pow256, 9);
            assert(pow256(8) == 0x1_0000_0000_0000_0000);
            assert(plaintext@.subrange(j as int, n as int).drop_first() =~= plaintext@.subrange(
                j as int + 1,
                n as int,
            ));
        }
        value = value * 256 + (b as u64);
    }
    proof {
        if plaintext@.len() <= 8 {
            assert(plaintext@.subrange(0, n as int) =~= plaintext@);
        } else {
            assert(plaintext@.subrange(0, n as int) =~= plaintext@.take(8));
        }
    }
    Ok(value)
}

} // verus!
