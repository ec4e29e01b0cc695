//! A stable, non-cryptographic 64-bit hash of volume-split seed strings.
//!
//! Seeded volume splits must pick the same winner for the same seed on every
//! run and every machine, so the seed hash is computed here instead of
//! leaning on a hasher whose algorithm may change between releases. The
//! function is the classic FNV-1a fold over the seed's characters.

use vstd::prelude::*;

verus! {

pub const FNV_OFFSET: u64 = 0xcbf29ce484222325;

pub const FNV_PRIME: u64 = 0x100000001b3;

/// One FNV-1a step: fold one character into the running hash.
pub open spec fn fnv_step(h: u64, c: char) -> u64 {
    (h ^ (c as u64)).wrapping_mul(FNV_PRIME)
}

/// The FNV-1a hash of the first `n` characters of `s`.
pub open spec fn seed_hash_prefix(s: Seq<char>, n: int) -> u64
    decreases n,
{
    if n <= 0 {
        FNV_OFFSET
    } else {
        fnv_step(seed_hash_prefix(s, n - 1), s[n - 1])
    }
}

/// The stable 64-bit hash of a seed string.
pub open spec fn seed_hash(s: Seq<char>) -> u64 {
    seed_hash_prefix(s, s.len() as int)
}

pub fn hash_seed(seed: &str) -> (h: u64)
    ensures
        h == seed_hash(seed@),
{
    let n = seed.unicode_len();
    let mut h: u64 = FNV_OFFSET;
    let mut i: usize = 0;
    while i < n
        invariant
            i <= n,
            n == seed@.len(),
            h == seed_hash_prefix(seed@, i as int),
        decreases n - i,
    {
        let c = seed.get_char(i);
        h = (h ^ (c as u64)).wrapping_mul(FNV_PRIME);
        i += 1;
    }
    h
}

} // verus!
