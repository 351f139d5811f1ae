//! Little-endian encoding of unsigned 128-bit integers.

use vstd::arithmetic::div_mod::lemma_mod_breakdown;
use vstd::arithmetic::div_mod::lemma_small_mod;
use vstd::prelude::*;

verus! {

/// Number of bytes that encode a `u128`.
pub const U128_LEN: usize = 16;

/// 256 to the power `n`.
pub open spec fn pow256(n: nat) -> nat
    decreases n,
{
    if n == 0 {
        1
    } else {
        256 * pow256((n - 1) as nat)
    }
}

/// The number that `bytes` spell in base 256, least significant byte first.
pub open spec fn le_value(bytes: Seq<u8>) -> nat
    decreases bytes.len(),
{
    if bytes.len() == 0 {
        0
    } else {
        bytes[0] as nat + 256 * le_value(bytes.drop_first())
    }
}

/// The `len` least significant base-256 digits of `value`, least significant first.
pub open spec fn le_bytes(value: nat, len: nat) -> Seq<u8>
    decreases len,
{
    if len == 0 {
        Seq::empty()
    } else {
        seq![(value % 256) as u8].add(le_bytes(value / 256, (len - 1) as nat))
    }
}

/// `le_bytes` gives as many bytes as it is asked for.
pub proof fn lemma_le_bytes_len(value: nat, len: nat)
    ensures
        le_bytes(value, len).len() == len,
    decreases len,
{
    if len > 0 {
        lemma_le_bytes_len(value / 256, (len - 1) as nat);
    }
}

/// A sequence of `n` bytes spells a number below 256 to the power `n`.
pub proof fn lemma_le_value_bound(bytes: Seq<u8>)
    ensures
        le_value(bytes) < pow256(bytes.len()),
    decreases bytes.len(),
{
    if bytes.len() > 0 {
        lemma_le_value_bound(bytes.drop_first());
    }
}

/// Sixteen base-256 digits span exactly the range of `u128`.
pub proof fn lemma_pow256_sixteen()
    ensures
        pow256(16) == u128::MAX + 1,
{
    reveal_with_fuel(pow256, 17);
}

/// Reading back the digits of a number gives the number, reduced modulo the range
/// that the digits span.
pub proof fn lemma_le_value_of_le_bytes(value: nat, len: nat)
    ensures
        pow256(len) > 0,
        le_value(le_bytes(value, len)) == value % pow256(len),
    decreases len,
{
    if len > 0 {
        let rest = le_bytes(value / 256, (len - 1) as nat);
        let all = le_bytes(value, len);
        lemma_le_value_of_le_bytes(value / 256, (len - 1) as nat);
        assert(all.drop_first() =~= rest);
        lemma_mod_breakdown(value as int, 256, pow256((len - 1) as nat) as int);
    }
}

/// A `u128` is recovered exactly from its sixteen little-endian bytes.
pub proof fn lemma_u128_round_trip(value: u128)
    ensures
        le_bytes(value as nat, 16).len() == 16,
        le_value(le_bytes(value as nat, 16)) == value,
{
    lemma_le_bytes_len(value as nat, 16);
    lemma_le_value_of_le_bytes(value as nat, 16);
    lemma_pow256_sixteen();
    lemma_small_mod(value as nat, pow256(16));
}

/// Reads the sixteen bytes of `bytes` that start at `start` as a little-endian
/// `u128`.
pub fn read_u128_le(bytes: &Vec<u8>, start: usize) -> (value: u128)
    requires
        start + 16 <= bytes.len(),
    ensures
        value == le_value(bytes@.subrange(start as int, start + 16)),
{
    let end: usize = start + U128_LEN;
    let mut value: u128 = 0;
    let mut i: usize = end;
    while i > start
        invariant
            start <= i <= end,
            end == start + 16,
            end <= bytes.len(),
            value == le_value(bytes@.subrange(i as int, end as int)),
        decreases i,
    {
        proof {
            let tail = bytes@.subrange(i as int, end as int);
            let longer = bytes@.subrange(i - 1, end as int);
            assert(longer.drop_first() =~= tail);
            lemma_le_value_bound(tail);
            lemma_le_value_bound(longer);
            lemma_pow256_monotonic(longer.len(), 16);
            lemma_pow256_sixteen();
        }
        i = i - 1;
        value = value * 256 + (bytes[i] as u128);
    }
    value
}

/// The powers of 256 do not decrease with the exponent.
pub proof fn lemma_pow256_monotonic(low: nat, high: nat)
    requires
        low <= high,
    ensures
        0 < pow256(low) <= pow256(high),
    decreases high,
{
    if low < high {
        lemma_pow256_monotonic(low, (high - 1) as nat);
    } else if low > 0 {
        lemma_pow256_monotonic((low - 1) as nat, (high - 1) as nat);
    }
}

/// Encodes `value` as its sixteen little-endian bytes.
pub fn encode_u128(value: u128) -> (bytes: Vec<u8>)
    ensures
        bytes@ == le_bytes(value as nat, 16),
{
    let mut bytes: Vec<u8> = Vec::new();
    let mut rest: u128 = value;
    let mut i: usize = 0;
    while i < U128_LEN
        invariant
            i <= 16,
            bytes@.len() == i,
            bytes@.add(le_bytes(rest as nat, (16 - i) as nat)) == le_bytes(value as nat, 16),
        decreases 16 - i,
    {
        let digit: u8 = (rest % 256) as u8;
        proof {
            let before = bytes@;
            let tail = le_bytes((rest / 256) as nat, (16 - i - 1) as nat);
            assert(le_bytes(rest as nat, (16 - i) as nat) == seq![digit].add(tail));
            assert(before.push(digit).add(tail) =~= before.add(seq![digit].add(tail)));
        }
        bytes.push(digit);
        rest = rest / 256;
        i = i + 1;
    }
    assert(bytes@.add(Seq::<u8>::empty()) =~= bytes@);
    bytes
}

} // verus!
