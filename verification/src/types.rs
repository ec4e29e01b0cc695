//! Value types of the routing core.

use vstd::prelude::*;

verus! {

/// One candidate connector, optionally pinned to a specific merchant
/// connector account. A value type: equality is structural, and lists of
/// choices are ordered by preference.
#[derive(Debug)]
pub struct RoutableConnectorChoice {
    pub connector: String,
    pub merchant_connector_id: Option<String>,
}

/// One entry of a volume split: a choice and its weight in percent.
#[derive(Debug)]
pub struct ConnectorVolumeSplit {
    pub connector: RoutableConnectorChoice,
    pub split: u8,
}

impl Clone for RoutableConnectorChoice {
    fn clone(&self) -> (res: Self)
        ensures
            res == *self,
    {
        RoutableConnectorChoice {
            connector: self.connector.clone(),
            merchant_connector_id: match &self.merchant_connector_id {
                Some(id) => Some(id.clone()),
                None => None,
            },
        }
    }
}

impl Clone for ConnectorVolumeSplit {
    fn clone(&self) -> (res: Self)
        ensures
            res == *self,
    {
        ConnectorVolumeSplit { connector: self.connector.clone(), split: self.split }
    }
}

/// Content equality of two optional strings.
pub open spec fn opt_str_eq(a: Option<String>, b: Option<String>) -> bool {
    match (a, b) {
        (Some(x), Some(y)) => x@ == y@,
        (None, None) => true,
        _ => false,
    }
}

/// Content equality of two choices: same connector name and the same
/// optional merchant connector id.
pub open spec fn choice_eq(a: RoutableConnectorChoice, b: RoutableConnectorChoice) -> bool {
    a.connector@ == b.connector@ && opt_str_eq(a.merchant_connector_id, b.merchant_connector_id)
}

pub fn eq_choice(a: &RoutableConnectorChoice, b: &RoutableConnectorChoice) -> (r: bool)
    ensures
        r == choice_eq(*a, *b),
{
    a.connector == b.connector && match (&a.merchant_connector_id, &b.merchant_connector_id) {
        (Some(x), Some(y)) => *x == *y,
        (None, None) => true,
        _ => false,
    }
}

/// Whether `c` occurs in `l`, by content equality.
pub open spec fn choice_in(l: Seq<RoutableConnectorChoice>, c: RoutableConnectorChoice) -> bool {
    exists|i: int| 0 <= i < l.len() && choice_eq(l[i], c)
}

pub fn contains_choice(l: &Vec<RoutableConnectorChoice>, c: &RoutableConnectorChoice) -> (r: bool)
    ensures
        r == choice_in(l@, *c),
{
    let mut i: usize = 0;
    while i < l.len()
        invariant
            i <= l@.len(),
            forall|j: int| 0 <= j < i ==> !choice_eq(l@[j], *c),
        decreases l@.len() - i,
    {
        if eq_choice(&l[i], c) {
            return true;
        }
        i += 1;
    }
    false
}

/// Clones a list of choices, keeping every entry equal as a value.
pub fn clone_choices(v: &Vec<RoutableConnectorChoice>) -> (r: Vec<RoutableConnectorChoice>)
    ensures
        r@ == v@,
{
    let mut r: Vec<RoutableConnectorChoice> = Vec::new();
    let mut i: usize = 0;
    while i < v.len()
        invariant
            i <= v@.len(),
            r@ == v@.subrange(0, i as int),
        decreases v@.len() - i,
    {
        r.push(v[i].clone());
        i += 1;
        proof {
            assert(r@ =~= v@.subrange(0, i as int));
        }
    }
    proof {
        assert(r@ =~= v@);
    }
    r
}

/// Clones a list of volume-split entries.
pub fn clone_splits(v: &Vec<ConnectorVolumeSplit>) -> (r: Vec<ConnectorVolumeSplit>)
    ensures
        r@ == v@,
{
    let mut r: Vec<ConnectorVolumeSplit> = Vec::new();
    let mut i: usize = 0;
    while i < v.len()
        invariant
            i <= v@.len(),
            r@ == v@.subrange(0, i as int),
        decreases v@.len() - i,
    {
        r.push(v[i].clone());
        i += 1;
        proof {
            assert(r@ =~= v@.subrange(0, i as int));
        }
    }
    proof {
        assert(r@ =~= v@);
    }
    r
}

/// A reference to a stored routing algorithm, as a business profile holds
/// it. The current versioned wrapper around it only carries the id.
#[derive(Debug)]
pub struct RoutingAlgorithmRef {
    pub algorithm_id: Option<String>,
}

impl Clone for RoutingAlgorithmRef {
    fn clone(&self) -> (res: Self)
        ensures
            res == *self,
    {
        RoutingAlgorithmRef {
            algorithm_id: match &self.algorithm_id {
                Some(id) => Some(id.clone()),
                None => None,
            },
        }
    }
}

/// The versioned wrapper around a profile's routing algorithm reference.
/// Serialized untagged: the one current version is recognized by its shape.
#[derive(Debug)]
pub enum MerchantAccountRoutingAlgorithm {
    V1(RoutingAlgorithmRef),
}

impl Default for MerchantAccountRoutingAlgorithm {
    fn default() -> (res: Self)
        ensures
            res == MerchantAccountRoutingAlgorithm::V1(RoutingAlgorithmRef { algorithm_id: None }),
    {
        MerchantAccountRoutingAlgorithm::V1(RoutingAlgorithmRef { algorithm_id: None })
    }
}

} // verus!
