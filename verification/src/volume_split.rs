//! Weighted random selection over a list of `(choice, weight)` pairs.
//!
//! The selected choice moves to index 0 and the losers keep their original
//! relative order, so the caller can still treat the result as a priority
//! list: the split winner is primary and the rest are deterministic
//! fallbacks. With a seed the draw is reproducible; without one it comes
//! from a thread-local generator.

use vstd::prelude::*;
use crate::errors::RoutingError;
use crate::hashing::{hash_seed, seed_hash};
use crate::types::{ConnectorVolumeSplit, RoutableConnectorChoice};
use rand::distributions::Distribution;
use rand::SeedableRng;

verus! {

/// The index that the seeded weighted draw picks for given weights and
/// seed. The draw is a fixed function of the two: rand_chacha's generator
/// and rand's weighted distribution are reproducible.
pub uninterp spec fn seeded_pick(weights: Seq<u64>, seed: u64) -> usize;

pub open spec fn sum_weights(s: Seq<u64>) -> int
    decreases s.len(),
{
    if s.len() == 0 {
        0
    } else {
        sum_weights(s.drop_last()) + s.last()
    }
}

pub proof fn lemma_sum_weights_nonneg(s: Seq<u64>)
    ensures
        sum_weights(s) >= 0,
    decreases s.len(),
{
    if s.len() > 0 {
        lemma_sum_weights_nonneg(s.drop_last());
    }
}

pub proof fn lemma_sum_weights_prefix(s: Seq<u64>, i: int)
    requires
        0 <= i <= s.len(),
    ensures
        sum_weights(s.subrange(0, i)) <= sum_weights(s),
    decreases s.len() - i,
{
    if i < s.len() {
        lemma_sum_weights_prefix(s, i + 1);
        assert(s.subrange(0, i + 1).drop_last() =~= s.subrange(0, i));
        assert(sum_weights(s.subrange(0, i)) <= sum_weights(s.subrange(0, i + 1)));
    } else {
        assert(s.subrange(0, i) =~= s);
    }
}

/// Relies on rand's `WeightedIndex::<u64>::new` and `sample`, driven by
/// rand_chacha's `ChaCha8Rng::seed_from_u64`: with a positive total weight
/// that fits in a u64 the draw succeeds, lands in range, never picks a
/// zero weight, and is a function of the weights and the seed alone
/// (ChaCha is a portable, reproducible generator).
#[verifier::external_body]
fn pick_weighted_seeded(weights: &Vec<u64>, seed: u64) -> (idx: usize)
    requires
        0 < sum_weights(weights@) <= u64::MAX,
    ensures
        idx < weights@.len(),
        weights@[idx as int] > 0,
        idx == seeded_pick(weights@, seed),
{
    let dist = rand::distributions::WeightedIndex::new(weights).unwrap();
    let mut rng = rand_chacha::ChaCha8Rng::seed_from_u64(seed);
    dist.sample(&mut rng)
}

/// Relies on rand's `WeightedIndex::<u64>::new` and `sample`, driven by
/// `rand::thread_rng`: with a positive total weight that fits in a u64 the
/// draw succeeds, lands in range and never picks a zero weight. Nothing is
/// claimed about which index comes back.
#[verifier::external_body]
fn pick_weighted_unseeded(weights: &Vec<u64>) -> (idx: usize)
    requires
        0 < sum_weights(weights@) <= u64::MAX,
    ensures
        idx < weights@.len(),
        weights@[idx as int] > 0,
{
    let dist = rand::distributions::WeightedIndex::new(weights).unwrap();
    let mut rng = rand::thread_rng();
    dist.sample(&mut rng)
}

pub open spec fn split_weights(s: Seq<ConnectorVolumeSplit>) -> Seq<u64> {
    s.map_values(|v: ConnectorVolumeSplit| v.split as u64)
}

pub open spec fn split_connectors(s: Seq<ConnectorVolumeSplit>) -> Seq<RoutableConnectorChoice> {
    s.map_values(|v: ConnectorVolumeSplit| v.connector)
}

/// The total weight of a splits list.
pub open spec fn volume_split_total(s: Seq<ConnectorVolumeSplit>) -> int {
    sum_weights(split_weights(s))
}

/// `s` with the element at `i` moved to the front; the rest keep their
/// relative order.
pub open spec fn move_to_front<T>(s: Seq<T>, i: int) -> Seq<T> {
    seq![s[i]] + s.subrange(0, i) + s.subrange(i + 1, s.len() as int)
}

pub proof fn lemma_move_front_connectors(s: Seq<ConnectorVolumeSplit>, i: int)
    requires
        0 <= i < s.len(),
    ensures
        split_connectors(move_to_front(s, i)) =~= move_to_front(split_connectors(s), i),
{
    assert forall|k: int| 0 <= k < s.len() implies split_connectors(move_to_front(s, i))[k]
        == move_to_front(split_connectors(s), i)[k] by {
        assert(split_connectors(move_to_front(s, i))[k] == move_to_front(s, i)[k].connector);
    };
}

/// The outcome a successful volume split reports: the winner's index had
/// positive weight and was moved to the front of the connector list.
pub open spec fn is_split_outcome(
    splits: Seq<ConnectorVolumeSplit>,
    i: int,
    out: Seq<RoutableConnectorChoice>,
) -> bool {
    0 <= i < splits.len() && splits[i].split > 0 && out == move_to_front(split_connectors(splits), i)
}

/// A successful volume split moved some positively weighted winner to the
/// front and kept the rest in their original order.
pub open spec fn volume_split_ok(
    splits: Seq<ConnectorVolumeSplit>,
    out: Seq<RoutableConnectorChoice>,
) -> bool {
    exists|i: int| is_split_outcome(splits, i, out)
}

/// Weighted selection over `splits`. The selected choice moves to index 0;
/// the remaining choices keep their original order. Fails exactly when no
/// positive weight can be drawn from (an empty list or all-zero weights)
/// or when the total weight does not fit in a u64.
pub fn perform_volume_split(
    splits: Vec<ConnectorVolumeSplit>,
    rng_seed: Option<&str>,
) -> (r: Result<Vec<RoutableConnectorChoice>, RoutingError>)
    ensures
        r is Ok <==> 0 < volume_split_total(splits@) <= u64::MAX,
        r matches Err(e) ==> e is VolumeSplitFailed,
        r matches Ok(out) ==> volume_split_ok(splits@, out@),
        r matches Ok(out) ==> (rng_seed matches Some(seed) ==> is_split_outcome(
            splits@,
            seeded_pick(split_weights(splits@), seed_hash(seed@)) as int,
            out@,
        )),
{
    let ghost orig = splits@;
    let mut weights: Vec<u64> = Vec::new();
    let mut total: u64 = 0;
    let mut i: usize = 0;
    let n = splits.len();
    while i < n
        invariant
            i <= n,
            n == orig.len(),
            splits@ == orig,
            weights@ =~= split_weights(orig.subrange(0, i as int)),
            total == sum_weights(weights@),
        decreases n - i,
    {
        let w: u64 = splits[i].split as u64;
        if total > u64::MAX - w {
            proof {
                assert(split_weights(orig.subrange(0, i as int + 1)).drop_last() =~= weights@);
                assert(sum_weights(split_weights(orig.subrange(0, i as int + 1))) > u64::MAX);
                assert(split_weights(orig).subrange(0, i as int + 1) =~= split_weights(
                    orig.subrange(0, i as int + 1),
                ));
                lemma_sum_weights_prefix(split_weights(orig), i as int + 1);
            }
            return Err(RoutingError::VolumeSplitFailed);
        }
        total = total + w;
        weights.push(w);
        i += 1;
        proof {
            assert(weights@ =~= split_weights(orig.subrange(0, i as int)));
            assert(weights@.drop_last() =~= split_weights(orig.subrange(0, i as int - 1)));
        }
    }
    proof {
        assert(orig.subrange(0, n as int) =~= orig);
    }
    if total == 0 {
        return Err(RoutingError::VolumeSplitFailed);
    }
    let idx = match rng_seed {
        Some(seed) => pick_weighted_seeded(&weights, hash_seed(seed)),
        None => pick_weighted_unseeded(&weights),
    };
    let ghost gi = idx as int;
    proof {
        assert(0 <= gi < orig.len());
    }
    let mut splits = splits;
    let removed = splits.remove(idx);
    splits.insert(0, removed);
    proof {
        assert(splits@ =~= move_to_front(orig, gi));
    }
    let mut out: Vec<RoutableConnectorChoice> = Vec::new();
    let mut j: usize = 0;
    let m = splits.len();
    while j < m
        invariant
            j <= m,
            m == splits@.len(),
            splits@ == move_to_front(orig, gi),
            0 <= gi < orig.len(),
            out@ =~= split_connectors(splits@.subrange(0, j as int)),
        decreases m - j,
    {
        out.push(splits[j].connector.clone());
        j += 1;
        proof {
            assert(out@ =~= split_connectors(splits@.subrange(0, j as int)));
        }
    }
    proof {
        assert(splits@.subrange(0, m as int) =~= splits@);
        lemma_move_front_connectors(orig, gi);
        assert(is_split_outcome(orig, gi, out@));
        assert(volume_split_ok(orig, out@));
    }
    Ok(out)
}

} // verus!
