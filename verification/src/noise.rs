//! Pure deterministic hash noise.
//!
//! `uhash` combines two 32-bit integers with two fixed odd multiplicative
//! constants under wraparound multiplication and then runs an avalanche
//! finalizer over the XOR of the products.  `hash_noise_bits` folds a
//! `(x, y, z)` coordinate triple into a single hash by packing `y` and `z`
//! into one channel id, `(y << 11) + z`, before hashing it against `x`.
//!
//! Both functions are total and stateless: the result is pinned, bit for
//! bit, to a spec function of the arguments alone, so identical inputs
//! give identical outputs in every call, process and machine.  Note that
//! channel ids alias once `z` reaches `2048`, since `z` then carries into
//! the shifted `y` bits; callers keep their channel ids small.
//!
//! The hash output is uniform over `u32`.  Consumers that want a value in
//! the unit interval divide the pattern by `u32::MAX` in floating point;
//! that remap is the caller's, not this module's, so that everything here
//! stays exact.

use vstd::prelude::*;

verus! {

/// Multiplier folded into the first hash input.
pub const INPUT_MUL_A: u32 = 1597334673;

/// Multiplier folded into the second hash input.
pub const INPUT_MUL_B: u32 = 3812015801;

/// First multiplier of the avalanche finalizer.
pub const AVALANCHE_MUL_1: u32 = 0x7feb352d;

/// Second multiplier of the avalanche finalizer.
pub const AVALANCHE_MUL_2: u32 = 0x846ca68b;

/// The avalanche finalizer: three xor-shifts around two wraparound
/// multiplications, spreading every input bit over the whole word.
pub open spec fn spec_avalanche(v: u32) -> u32 {
    let x1 = v ^ (v >> 16);
    let x2 = x1.wrapping_mul(AVALANCHE_MUL_1);
    let x3 = x2 ^ (x2 >> 15);
    let x4 = x3.wrapping_mul(AVALANCHE_MUL_2);
    x4 ^ (x4 >> 16)
}

/// What `uhash` returns: the avalanche finalizer applied to the XOR of the
/// two products.
pub open spec fn spec_uhash(a: u32, b: u32) -> u32 {
    spec_avalanche(a.wrapping_mul(INPUT_MUL_A) ^ b.wrapping_mul(INPUT_MUL_B))
}

/// The channel id that packs `y` and `z` into one hash input.  Ids alias
/// once `z` reaches `2048`.
pub open spec fn spec_channel_id(y: u32, z: u32) -> u32 {
    (y << 11u32).wrapping_add(z)
}

/// What `hash_noise_bits` returns.
pub open spec fn spec_hash_noise_bits(x: u32, y: u32, z: u32) -> u32 {
    spec_uhash(x, spec_channel_id(y, z))
}

/// Combine two 32-bit integers into one well-mixed hash word.
///
/// All multiplications wrap mod 2^32; saturating or checked arithmetic
/// would change the results and must not be substituted.
pub fn uhash(a: u32, b: u32) -> (r: u32)
    ensures
        r == spec_uhash(a, b),
{
    let mut x = a.wrapping_mul(INPUT_MUL_A) ^ b.wrapping_mul(INPUT_MUL_B);
    x = x ^ (x >> 16);
    x = x.wrapping_mul(AVALANCHE_MUL_1);
    x = x ^ (x >> 15);
    x = x.wrapping_mul(AVALANCHE_MUL_2);
    x = x ^ (x >> 16);
    x
}

/// Hash a coordinate triple into one word, packing `y` and `z` into a
/// single channel id first.
pub fn hash_noise_bits(x: u32, y: u32, z: u32) -> (r: u32)
    ensures
        r == spec_hash_noise_bits(x, y, z),
{
    uhash(x, (y << 11u32).wrapping_add(z))
}

/// Determinism of the hash noise: any two results that the contract of
/// [`hash_noise_bits`] admits for the same coordinate triple are the
/// same word.  The hash reads no state, so this holds across repeated
/// calls, call orders and process restarts alike.
pub proof fn lemma_hash_noise_deterministic(x: u32, y: u32, z: u32, r1: u32, r2: u32)
    requires
        r1 == spec_hash_noise_bits(x, y, z),
        r2 == spec_hash_noise_bits(x, y, z),
    ensures
        r1 == r2,
{
}

} // verus!
