//! Routing algorithms as stored, and their compiled form.
//!
//! A compiled algorithm mirrors the stored one, except that an advanced
//! rule program has passed validation first. List invariants are checked
//! here, at compile time: a priority list must be non-empty, and a volume
//! split must be non-empty with weights summing to exactly one hundred.
//! Only fully compiled values are ever published to the cache.

use vstd::prelude::*;
use crate::dsl::{ConnectorSelection, Program};
use crate::errors::RoutingError;
use crate::types::{ConnectorVolumeSplit, RoutableConnectorChoice};
use crate::volume_split::{lemma_sum_weights_prefix, split_weights, sum_weights, volume_split_total};

verus! {

/// A merchant's stored routing algorithm.
#[derive(Debug)]
pub enum RoutingAlgorithm {
    Single(RoutableConnectorChoice),
    Priority(Vec<RoutableConnectorChoice>),
    VolumeSplit(Vec<ConnectorVolumeSplit>),
    Advanced(Program),
}

/// An algorithm supplied inline with a request; never advanced.
#[derive(Debug)]
pub enum StraightThroughAlgorithm {
    Single(RoutableConnectorChoice),
    Priority(Vec<RoutableConnectorChoice>),
    VolumeSplit(Vec<ConnectorVolumeSplit>),
}

/// A compiled algorithm, as the cache shares it.
#[derive(Debug)]
pub enum CachedAlgorithm {
    Single(RoutableConnectorChoice),
    Priority(Vec<RoutableConnectorChoice>),
    VolumeSplit(Vec<ConnectorVolumeSplit>),
    Advanced(Program),
}

/// A complete volume-split list: non-empty, weights summing to 100.
pub open spec fn spec_splits_complete(v: Seq<ConnectorVolumeSplit>) -> bool {
    v.len() > 0 && volume_split_total(v) == 100
}

/// What a rule may select: single is always well-formed, lists carry
/// their ingest invariants.
pub open spec fn spec_selection_valid(s: ConnectorSelection) -> bool {
    match s {
        ConnectorSelection::Single(_) => true,
        ConnectorSelection::Priority(l) => l@.len() > 0,
        ConnectorSelection::VolumeSplit(v) => spec_splits_complete(v@),
    }
}

/// Whether a stored algorithm passes compilation.
pub open spec fn spec_algorithm_compiles(alg: RoutingAlgorithm) -> bool {
    match alg {
        RoutingAlgorithm::Single(_) => true,
        RoutingAlgorithm::Priority(l) => l@.len() > 0,
        RoutingAlgorithm::VolumeSplit(v) => spec_splits_complete(v@),
        RoutingAlgorithm::Advanced(p) => spec_program_valid(p),
    }
}

/// Whether a stored algorithm is rejected at the parse level: an empty
/// priority list or an incomplete volume split.
pub open spec fn spec_parse_invalid(alg: RoutingAlgorithm) -> bool {
    match alg {
        RoutingAlgorithm::Priority(l) => l@.len() == 0,
        RoutingAlgorithm::VolumeSplit(v) => !spec_splits_complete(v@),
        _ => false,
    }
}

/// A program compiles when its default and every rule's selection are
/// well-formed.
pub open spec fn spec_program_valid(p: Program) -> bool {
    &&& spec_selection_valid(p.default_selection)
    &&& forall|i: int| 0 <= i < p.rules@.len() ==> spec_selection_valid(#[trigger] p.rules@[i].selection)
}

/// Checks that a splits list is complete.
#[verifier::loop_isolation(false)]
pub fn splits_complete(v: &Vec<ConnectorVolumeSplit>) -> (r: bool)
    ensures
        r == spec_splits_complete(v@),
{
    if v.len() == 0 {
        return false;
    }
    let mut total: u64 = 0;
    let mut i: usize = 0;
    while i < v.len()
        invariant
            i <= v@.len(),
            total == sum_weights(split_weights(v@.subrange(0, i as int))),
            total <= 100,
        decreases v@.len() - i,
    {
        let w: u64 = v[i].split as u64;
        proof {
            assert(split_weights(v@.subrange(0, i as int + 1)).drop_last() =~= split_weights(
                v@.subrange(0, i as int),
            ));
            assert(split_weights(v@).subrange(0, i as int + 1) =~= split_weights(
                v@.subrange(0, i as int + 1),
            ));
            lemma_sum_weights_prefix(split_weights(v@), i as int + 1);
        }
        if w > 100 - total {
            return false;
        }
        total = total + w;
        i += 1;
    }
    proof {
        assert(v@.subrange(0, v@.len() as int) =~= v@);
    }
    total == 100
}

pub fn selection_valid(s: &ConnectorSelection) -> (r: bool)
    ensures
        r == spec_selection_valid(*s),
{
    match s {
        ConnectorSelection::Single(_) => true,
        ConnectorSelection::Priority(l) => l.len() > 0,
        ConnectorSelection::VolumeSplit(v) => splits_complete(v),
    }
}

#[verifier::loop_isolation(false)]
pub fn program_valid(p: &Program) -> (r: bool)
    ensures
        r == spec_program_valid(*p),
{
    if !selection_valid(&p.default_selection) {
        return false;
    }
    let mut i: usize = 0;
    while i < p.rules.len()
        invariant
            i <= p.rules@.len(),
            forall|j: int| 0 <= j < i ==> spec_selection_valid(#[trigger] p.rules@[j].selection),
        decreases p.rules@.len() - i,
    {
        if !selection_valid(&p.rules[i].selection) {
            return false;
        }
        i += 1;
    }
    true
}

/// Compiles a stored algorithm: list invariants are enforced here, and an
/// advanced program is validated before it may be published. A rejected
/// list is a parse-level fault; a rejected program is a backend
/// initialization fault.
pub fn compile_algorithm(alg: RoutingAlgorithm) -> (r: Result<CachedAlgorithm, RoutingError>)
    ensures
        match alg {
            RoutingAlgorithm::Single(c) => r == Ok::<CachedAlgorithm, RoutingError>(
                CachedAlgorithm::Single(c),
            ),
            RoutingAlgorithm::Priority(l) => if l@.len() > 0 {
                r == Ok::<CachedAlgorithm, RoutingError>(CachedAlgorithm::Priority(l))
            } else {
                r == Err::<CachedAlgorithm, RoutingError>(RoutingError::DslParsingError)
            },
            RoutingAlgorithm::VolumeSplit(v) => if spec_splits_complete(v@) {
                r == Ok::<CachedAlgorithm, RoutingError>(CachedAlgorithm::VolumeSplit(v))
            } else {
                r == Err::<CachedAlgorithm, RoutingError>(RoutingError::DslParsingError)
            },
            RoutingAlgorithm::Advanced(p) => if spec_program_valid(p) {
                r == Ok::<CachedAlgorithm, RoutingError>(CachedAlgorithm::Advanced(p))
            } else {
                r == Err::<CachedAlgorithm, RoutingError>(RoutingError::DslBackendInitError)
            },
        },
{
    match alg {
        RoutingAlgorithm::Single(c) => Ok(CachedAlgorithm::Single(c)),
        RoutingAlgorithm::Priority(l) => {
            if l.len() == 0 {
                Err(RoutingError::DslParsingError)
            } else {
                Ok(CachedAlgorithm::Priority(l))
            }
        },
        RoutingAlgorithm::VolumeSplit(v) => {
            if splits_complete(&v) {
                Ok(CachedAlgorithm::VolumeSplit(v))
            } else {
                Err(RoutingError::DslParsingError)
            }
        },
        RoutingAlgorithm::Advanced(p) => {
            if program_valid(&p) {
                Ok(CachedAlgorithm::Advanced(p))
            } else {
                Err(RoutingError::DslBackendInitError)
            }
        },
    }
}

} // verus!
