//! The general guarantees of the routing core, each stated and proved over
//! the contracts of the functions it speaks of.

use vstd::prelude::*;
use vstd::seq_lib::group_to_multiset_ensures;
use crate::algorithm::CachedAlgorithm;
use crate::cgraph::CompiledCGraph;
use crate::dsl::BackendInput;
use crate::errors::RoutingError;
use crate::json::JsonVal;
use crate::orchestrator::{
    spec_backend_input_matches, spec_dedup_append, spec_dispatch_matches, spec_filter_pred_fn,
    spec_filtered, spec_metadata_matches, PaymentData, PaymentIntentRecord, TransactionData,
};
use crate::types::{choice_in, ConnectorVolumeSplit, RoutableConnectorChoice};
use crate::volume_split::{
    is_split_outcome, move_to_front, perform_volume_split, split_connectors,
};

verus! {

/// Volume-split determinism: two calls with the same splits and the same
/// seed succeed alike, and when they succeed they return the same
/// ordering.
pub proof fn volume_split_determinism(
    splits1: Vec<ConnectorVolumeSplit>,
    splits2: Vec<ConnectorVolumeSplit>,
    seed1: &str,
    seed2: &str,
    r1: Result<Vec<RoutableConnectorChoice>, RoutingError>,
    r2: Result<Vec<RoutableConnectorChoice>, RoutingError>,
)
    requires
        splits1@ == splits2@,
        seed1@ == seed2@,
        call_ensures(perform_volume_split, (splits1, Some(seed1)), r1),
        call_ensures(perform_volume_split, (splits2, Some(seed2)), r2),
    ensures
        r1 is Ok <==> r2 is Ok,
        r1 matches Ok(o1) ==> (r2 matches Ok(o2) ==> o1@ == o2@),
{
}

/// Moving one element to the front permutes a sequence: the multiset of
/// elements is unchanged.
pub proof fn lemma_move_front_multiset<A>(s: Seq<A>, i: int)
    requires
        0 <= i < s.len(),
    ensures
        move_to_front(s, i).to_multiset() =~= s.to_multiset(),
{
    broadcast use group_to_multiset_ensures;

    let target = move_to_front(s, i);
    let removed = s.remove(i);
    assert(target =~= removed.insert(0, s[i]));
    assert(target.remove(0) =~= removed);
    assert(target[0] == s[i]);
    assert(target.contains(s[i]));
    assert(s.contains(s[i]));
    assert(target.remove(0).to_multiset() =~= target.to_multiset().remove(target[0]));
    assert(removed.to_multiset() =~= s.to_multiset().remove(s[i]));
    assert forall|a: A| target.to_multiset().count(a) == s.to_multiset().count(a) by {
        if a == s[i] {
            assert(target.to_multiset().count(a) > 0);
            assert(s.to_multiset().count(a) > 0);
            assert(target.to_multiset().remove(a).count(a) == target.to_multiset().count(a) - 1);
            assert(s.to_multiset().remove(a).count(a) == s.to_multiset().count(a) - 1);
        } else {
            assert(target.to_multiset().remove(s[i]).count(a) == target.to_multiset().count(a));
            assert(s.to_multiset().remove(s[i]).count(a) == s.to_multiset().count(a));
        }
    };
}

/// Volume-split permutation: a successful split returns a permutation of
/// the input's connector list, with the selected element at index 0 and
/// the others in their original relative order.
pub proof fn volume_split_permutation(
    splits: Vec<ConnectorVolumeSplit>,
    rng_seed: Option<&str>,
    r: Result<Vec<RoutableConnectorChoice>, RoutingError>,
)
    requires
        call_ensures(perform_volume_split, (splits, rng_seed), r),
    ensures
        r matches Ok(out) ==> out@.to_multiset() == split_connectors(splits@).to_multiset(),
        r matches Ok(out) ==> exists|i: int| is_split_outcome(splits@, i, out@),
{
    if r is Ok {
        let out = r.unwrap();
        let i = choose|i: int| is_split_outcome(splits@, i, out@);
        lemma_move_front_multiset(split_connectors(splits@), i);
    }
}

/// Priority preservation: when the compiled algorithm is a priority list,
/// a dispatch returns exactly that list, before eligibility filtering.
pub proof fn priority_preservation(
    v: CachedAlgorithm,
    txd: TransactionData,
    out: Seq<RoutableConnectorChoice>,
    l: Vec<RoutableConnectorChoice>,
)
    requires
        v == CachedAlgorithm::Priority(l),
        spec_dispatch_matches(v, txd, out),
    ensures
        out == l@,
{
}

/// `a` occurs inside `b` in order.
pub open spec fn is_subsequence<A>(a: Seq<A>, b: Seq<A>) -> bool
    decreases b.len(),
{
    if a.len() == 0 {
        true
    } else if b.len() == 0 {
        false
    } else {
        (a.last() == b.last() && is_subsequence(a.drop_last(), b.drop_last())) || is_subsequence(
            a,
            b.drop_last(),
        )
    }
}

pub proof fn lemma_filter_is_subsequence<A>(s: Seq<A>, pred: spec_fn(A) -> bool)
    ensures
        is_subsequence(s.filter(pred), s),
    decreases s.len(),
{
    reveal(Seq::filter);
    if s.len() > 0 {
        lemma_filter_is_subsequence(s.drop_last(), pred);
        if pred(s.last()) {
            assert(s.filter(pred) == s.drop_last().filter(pred).push(s.last()));
            assert(s.filter(pred).last() == s.last());
            assert(s.filter(pred).drop_last() =~= s.drop_last().filter(pred));
        }
    }
}

/// Filter stability: eligibility filtering returns its input's surviving
/// candidates in their original order.
pub proof fn filter_stability(
    g: CompiledCGraph,
    inp: BackendInput,
    allowed: Option<Vec<String>>,
    s: Seq<RoutableConnectorChoice>,
)
    ensures
        is_subsequence(spec_filtered(g, inp, allowed, s), s),
{
    lemma_filter_is_subsequence(s, spec_filter_pred_fn(g, inp, allowed));
}

/// Fallback shape: the combined selection starts with the primary
/// segment unchanged, and nothing in the appended fallback segment
/// already occurs in the primary segment.
pub proof fn fallback_no_duplicates(
    primary: Seq<RoutableConnectorChoice>,
    fb: Seq<RoutableConnectorChoice>,
)
    ensures
        spec_dedup_append(primary, fb).len() >= primary.len(),
        spec_dedup_append(primary, fb).subrange(0, primary.len() as int) == primary,
        forall|k: int|
            primary.len() <= k < spec_dedup_append(primary, fb).len() ==> !choice_in(
                primary,
                #[trigger] spec_dedup_append(primary, fb)[k],
            ),
    decreases fb.len(),
{
    let out = spec_dedup_append(primary, fb);
    if fb.len() == 0 {
        assert(out.subrange(0, primary.len() as int) =~= primary);
    } else if choice_in(primary, fb[0]) {
        fallback_no_duplicates(primary, fb.drop_first());
    } else {
        let p2 = primary.push(fb[0]);
        fallback_no_duplicates(p2, fb.drop_first());
        let out2 = spec_dedup_append(p2, fb.drop_first());
        assert(out == out2);
        assert(out2.subrange(0, p2.len() as int) == p2);
        assert(out.subrange(0, primary.len() as int) =~= p2.subrange(0, primary.len() as int));
        assert(p2.subrange(0, primary.len() as int) =~= primary);
        assert forall|k: int| primary.len() <= k < out.len() implies !choice_in(
            primary,
            #[trigger] out[k],
        ) by {
            if k == primary.len() {
                assert(out[k] == p2.subrange(0, p2.len() as int)[k]);
                assert(out[k] == fb[0]);
            } else {
                assert(!choice_in(p2, out[k]));
                if choice_in(primary, out[k]) {
                    let w = choose|w: int|
                        0 <= w < primary.len() && crate::types::choice_eq(primary[w], out[k]);
                    assert(crate::types::choice_eq(p2[w], out[k]));
                }
            }
        };
    }
}

/// Fallback idempotence: the combined selection is a function of the two
/// filtered segments, so two runs over the same graph and inputs return
/// the same list.
pub proof fn fallback_idempotence(
    primary1: Seq<RoutableConnectorChoice>,
    primary2: Seq<RoutableConnectorChoice>,
    fb1: Seq<RoutableConnectorChoice>,
    fb2: Seq<RoutableConnectorChoice>,
)
    requires
        primary1 == primary2,
        fb1 == fb2,
    ensures
        spec_dedup_append(primary1, fb1) == spec_dedup_append(primary2, fb2),
{
}

/// `pd` with its metadata replaced.
pub open spec fn with_metadata(pd: PaymentData, m: Option<JsonVal>) -> PaymentData {
    PaymentData {
        payment_intent: PaymentIntentRecord { metadata: m, ..pd.payment_intent },
        ..pd
    }
}

/// Metadata tolerance: a payment whose metadata does not decode as
/// routing parameters builds exactly the inputs a payment without
/// metadata builds, so the returned connector list is unaltered.
pub proof fn metadata_tolerance(pd: PaymentData, bad: JsonVal, inp: BackendInput)
    requires
        !crate::decode::spec_metadata_decodable(bad),
    ensures
        spec_backend_input_matches(with_metadata(pd, Some(bad)), inp) == spec_backend_input_matches(
            with_metadata(pd, None),
            inp,
        ),
{
    assert(spec_metadata_matches(Some(bad), inp.metadata) == spec_metadata_matches(
        None,
        inp.metadata,
    ));
}

} // verus!
