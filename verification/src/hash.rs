//! Deterministic integer mixing utility used for fingerprinting.

use vstd::prelude::*;

verus! {

/// One xorshift-multiply round: fold the high bits into the low bits, then
/// multiply (wrapping) by an odd constant to spread them back out.
pub open spec fn spec_mix_round(x: u64) -> u64 {
    ((x >> 16) ^ x).wrapping_mul(0x45d9f3b)
}

/// The mathematical value of [`hash_me`]: two xorshift-multiply rounds
/// followed by a final xorshift fold.
pub open spec fn spec_hash_me(x: u64) -> u64 {
    let a = spec_mix_round(x);
    let b = spec_mix_round(a);
    ((b >> 16) ^ b) ^ b
}

/// Mix a 64-bit value with a 3-round xorshift-multiply mixer.
///
/// The result is a pure total function of the input: the same input gives the
/// same output on every call, in every process. The mixing is meant for
/// fingerprinting, not for cryptographic integrity.
pub fn hash_me(x: u64) -> (r: u64)
    ensures
        r == spec_hash_me(x),
{
    let a = ((x >> 16) ^ x).wrapping_mul(0x45d9f3b);
    let b = ((a >> 16) ^ a).wrapping_mul(0x45d9f3b);
    ((b >> 16) ^ b) ^ b
}

} // verus!
