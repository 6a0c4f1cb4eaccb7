//! Deterministic salted selection: the hash every random-looking
//! choice in the mod is drawn from, so a roll is unpredictable but
//! replays identically for the same inputs.

use vstd::prelude::*;

verus! {

/// Multiplier applied to the first input (the golden-ratio constant).
pub const MIX_K1: u64 = 0x9E37_79B9_7F4A_7C15;

/// Multiplier applied to the salt.
pub const MIX_K2: u64 = 0xD1B5_4A32_D192_ED03;

/// `x * k` modulo 2^64.
pub open spec fn wrap_mul(x: u64, k: u64) -> u64 {
    ((x as nat * k as nat) % 0x1_0000_0000_0000_0000nat) as u64
}

/// The scrambled 64-bit value before it is reduced to a range.
pub open spec fn spec_mix(x: u64, y: u64) -> u64 {
    let h = wrap_mul(x, MIX_K1) ^ wrap_mul(y, MIX_K2);
    h ^ (h >> 29u64)
}

/// A range of `n` values; an empty range counts as one value.
pub open spec fn range_of(n: u64) -> u64 {
    if n == 0 { 1 } else { n }
}

/// The value in `[0, max(n, 1))` drawn from `x` and salt `y`.
pub open spec fn spec_scramble(x: u64, y: u64, n: u64) -> u64 {
    spec_mix(x, y) % range_of(n)
}

/// Draw a value in `[0, max(n, 1))` from `x` and the salt `y`.
pub fn scramble(x: u64, y: u64, n: u64) -> (r: u64)
    ensures
        r == spec_scramble(x, y, n),
        r < range_of(n),
{
    let mut h = x.wrapping_mul(MIX_K1) ^ y.wrapping_mul(MIX_K2);
    h = h ^ (h >> 29);
    let m: u64 = if n == 0 { 1 } else { n };
    h % m
}

/// The roll of the off-map loop: a hash of the fire time (the bits of
/// the game clock) and a salt, so successive rolls in one pass differ.
pub open spec fn spec_rng(now_bits: u32, salt: u64, n: u64) -> u64 {
    spec_scramble(now_bits as u64, salt, n)
}

/// A pseudo-random value in `[0, max(n, 1))` from the clock bits and a salt.
pub fn rng(now_bits: u32, salt: u64, n: u64) -> (r: u64)
    ensures
        r == spec_rng(now_bits, salt, n),
        r < range_of(n),
{
    scramble(now_bits as u64, salt, n)
}

/// The roll of an encounter: a hash of a stable id and the bits of a
/// salt, so a band's roll is unpredictable but its lines stay consistent.
pub open spec fn spec_hash_pick(id: i64, salt_bits: u32, n: u64) -> u64 {
    spec_scramble(id as u64, salt_bits as u64, n)
}

/// A pseudo-random value in `[0, max(n, 1))` from an id and salt bits.
pub fn hash_pick(id: i64, salt_bits: u32, n: u64) -> (r: u64)
    ensures
        r == spec_hash_pick(id, salt_bits, n),
        r < range_of(n),
{
    scramble(id as u64, salt_bits as u64, n)
}

} // verus!
