//! The routing state: the store snapshot the orchestrator reads, the two
//! caches it publishes into, and the stable cache-key grammar.

use vstd::prelude::*;
use vstd::string::StringExecFns;
use crate::cache::{CacheKey, InMemoryCache};
use crate::cgraph::{CompiledCGraph, CountryCurrencyFilter, MerchantConnectorAccount};
use crate::enums::TransactionType;
use crate::json::JsonVal;
use crate::types::RoutableConnectorChoice;

verus! {

/// One stored routing algorithm row.
#[derive(Debug)]
pub struct RoutingAlgorithmRecord {
    pub profile_id: String,
    pub algorithm_id: String,
    pub algorithm_data: JsonVal,
}

/// A business profile with its optional routing algorithm reference.
#[derive(Debug)]
pub struct BusinessProfile {
    pub profile_id: String,
    pub routing_algorithm: Option<JsonVal>,
}

/// A merchant's default fallback connectors for one profile and
/// transaction type.
#[derive(Debug)]
pub struct MerchantDefaultConfig {
    pub profile_id: String,
    pub transaction_type: TransactionType,
    pub connectors: Vec<RoutableConnectorChoice>,
}

/// The store snapshot the orchestrator works against. The caller loads it
/// from persistence; the orchestrator only reads it.
#[derive(Debug)]
pub struct RoutingStore {
    pub algorithms: Vec<RoutingAlgorithmRecord>,
    pub business_profiles: Vec<BusinessProfile>,
    pub default_configs: Vec<MerchantDefaultConfig>,
    pub merchant_connector_accounts: Vec<MerchantConnectorAccount>,
    /// The payment-method filter configuration; the key `"default"`
    /// supplies the global default filter.
    pub pm_filters: CountryCurrencyFilter,
    /// The names of the connectors this deployment can route to.
    pub routable_connectors: Vec<String>,
}

/// Everything one selection call may touch: the store snapshot, the two
/// process-wide caches and the tenant's cache-key prefix.
#[derive(Debug)]
pub struct SessionState {
    pub store: RoutingStore,
    pub tenant_prefix: String,
    pub routing_cache: InMemoryCache<crate::algorithm::CachedAlgorithm>,
    pub cgraph_cache: InMemoryCache<CompiledCGraph>,
}

/// The stable key under which a compiled algorithm is cached.
pub open spec fn spec_routing_key(
    merchant_id: Seq<char>,
    profile_id: Seq<char>,
    tx: TransactionType,
) -> Seq<char> {
    match tx {
        TransactionType::Payment => "routing_config_"@ + merchant_id + "_"@ + profile_id,
        TransactionType::Payout => "routing_config_po_"@ + merchant_id + "_"@ + profile_id,
    }
}

/// The stable key under which a compiled constraint graph is cached.
pub open spec fn spec_cgraph_key(
    merchant_id: Seq<char>,
    profile_id: Seq<char>,
    tx: TransactionType,
) -> Seq<char> {
    match tx {
        TransactionType::Payment => "cgraph_"@ + merchant_id + "_"@ + profile_id,
        TransactionType::Payout => "cgraph_po_"@ + merchant_id + "_"@ + profile_id,
    }
}

pub fn make_routing_key(merchant_id: &str, profile_id: &str, tx: TransactionType) -> (k: String)
    ensures
        k@ == spec_routing_key(merchant_id@, profile_id@, tx),
{
    let mut k = match tx {
        TransactionType::Payment => String::from_str("routing_config_"),
        TransactionType::Payout => String::from_str("routing_config_po_"),
    };
    k.append(merchant_id);
    k.append("_");
    k.append(profile_id);
    k
}

pub fn make_cgraph_key(merchant_id: &str, profile_id: &str, tx: TransactionType) -> (k: String)
    ensures
        k@ == spec_cgraph_key(merchant_id@, profile_id@, tx),
{
    let mut k = match tx {
        TransactionType::Payment => String::from_str("cgraph_"),
        TransactionType::Payout => String::from_str("cgraph_po_"),
    };
    k.append(merchant_id);
    k.append("_");
    k.append(profile_id);
    k
}

/// The stored algorithm row for this profile and algorithm id.
pub open spec fn spec_find_algorithm(
    rows: Seq<RoutingAlgorithmRecord>,
    profile_id: Seq<char>,
    algorithm_id: Seq<char>,
) -> Option<RoutingAlgorithmRecord>
    decreases rows.len(),
{
    if rows.len() == 0 {
        None
    } else if rows[0].profile_id@ == profile_id && rows[0].algorithm_id@ == algorithm_id {
        Some(rows[0])
    } else {
        spec_find_algorithm(rows.drop_first(), profile_id, algorithm_id)
    }
}

#[verifier::loop_isolation(false)]
pub fn find_routing_algorithm_by_profile_id_algorithm_id<'a>(
    rows: &'a Vec<RoutingAlgorithmRecord>,
    profile_id: &String,
    algorithm_id: &String,
) -> (r: Option<&'a RoutingAlgorithmRecord>)
    ensures
        match r {
            Some(row) => spec_find_algorithm(rows@, profile_id@, algorithm_id@) == Some(*row),
            None => spec_find_algorithm(rows@, profile_id@, algorithm_id@) is None,
        },
{
    proof {
        assert(rows@.subrange(0, rows@.len() as int) =~= rows@);
    }
    let mut i: usize = 0;
    while i < rows.len()
        invariant
            i <= rows@.len(),
            spec_find_algorithm(rows@, profile_id@, algorithm_id@) == spec_find_algorithm(
                rows@.subrange(i as int, rows@.len() as int),
                profile_id@,
                algorithm_id@,
            ),
        decreases rows@.len() - i,
    {
        let ghost rest = rows@.subrange(i as int, rows@.len() as int);
        proof {
            assert(rest.drop_first() =~= rows@.subrange(i as int + 1, rows@.len() as int));
            assert(rest[0] == rows@[i as int]);
        }
        if rows[i].profile_id == *profile_id && rows[i].algorithm_id == *algorithm_id {
            return Some(&rows[i]);
        }
        i += 1;
    }
    proof {
        assert(rows@.subrange(rows@.len() as int, rows@.len() as int) =~= Seq::<
            RoutingAlgorithmRecord,
        >::empty());
    }
    None
}

/// The business profile stored under this id.
pub open spec fn spec_find_business_profile(
    profiles: Seq<BusinessProfile>,
    profile_id: Seq<char>,
) -> Option<BusinessProfile>
    decreases profiles.len(),
{
    if profiles.len() == 0 {
        None
    } else if profiles[0].profile_id@ == profile_id {
        Some(profiles[0])
    } else {
        spec_find_business_profile(profiles.drop_first(), profile_id)
    }
}

#[verifier::loop_isolation(false)]
pub fn find_business_profile_by_profile_id<'a>(
    profiles: &'a Vec<BusinessProfile>,
    profile_id: &String,
) -> (r: Option<&'a BusinessProfile>)
    ensures
        match r {
            Some(p) => spec_find_business_profile(profiles@, profile_id@) == Some(*p),
            None => spec_find_business_profile(profiles@, profile_id@) is None,
        },
{
    proof {
        assert(profiles@.subrange(0, profiles@.len() as int) =~= profiles@);
    }
    let mut i: usize = 0;
    while i < profiles.len()
        invariant
            i <= profiles@.len(),
            spec_find_business_profile(profiles@, profile_id@) == spec_find_business_profile(
                profiles@.subrange(i as int, profiles@.len() as int),
                profile_id@,
            ),
        decreases profiles@.len() - i,
    {
        let ghost rest = profiles@.subrange(i as int, profiles@.len() as int);
        proof {
            assert(rest.drop_first() =~= profiles@.subrange(i as int + 1, profiles@.len() as int));
            assert(rest[0] == profiles@[i as int]);
        }
        if profiles[i].profile_id == *profile_id {
            return Some(&profiles[i]);
        }
        i += 1;
    }
    proof {
        assert(profiles@.subrange(profiles@.len() as int, profiles@.len() as int) =~= Seq::<
            BusinessProfile,
        >::empty());
    }
    None
}

/// The merchant's default fallback connectors for this profile and
/// transaction type.
pub open spec fn spec_merchant_default_config(
    configs: Seq<MerchantDefaultConfig>,
    profile_id: Seq<char>,
    tx: TransactionType,
) -> Option<Vec<RoutableConnectorChoice>>
    decreases configs.len(),
{
    if configs.len() == 0 {
        None
    } else if configs[0].profile_id@ == profile_id && configs[0].transaction_type == tx {
        Some(configs[0].connectors)
    } else {
        spec_merchant_default_config(configs.drop_first(), profile_id, tx)
    }
}

#[verifier::loop_isolation(false)]
pub fn get_merchant_default_config<'a>(
    configs: &'a Vec<MerchantDefaultConfig>,
    profile_id: &String,
    tx: TransactionType,
) -> (r: Option<&'a Vec<RoutableConnectorChoice>>)
    ensures
        match r {
            Some(c) => spec_merchant_default_config(configs@, profile_id@, tx) == Some(*c),
            None => spec_merchant_default_config(configs@, profile_id@, tx) is None,
        },
{
    proof {
        assert(configs@.subrange(0, configs@.len() as int) =~= configs@);
    }
    let mut i: usize = 0;
    while i < configs.len()
        invariant
            i <= configs@.len(),
            spec_merchant_default_config(configs@, profile_id@, tx) == spec_merchant_default_config(
                configs@.subrange(i as int, configs@.len() as int),
                profile_id@,
                tx,
            ),
        decreases configs@.len() - i,
    {
        let ghost rest = configs@.subrange(i as int, configs@.len() as int);
        proof {
            assert(rest.drop_first() =~= configs@.subrange(i as int + 1, configs@.len() as int));
            assert(rest[0] == configs@[i as int]);
        }
        if configs[i].profile_id == *profile_id && configs[i].transaction_type == tx {
            return Some(&configs[i].connectors);
        }
        i += 1;
    }
    proof {
        assert(configs@.subrange(configs@.len() as int, configs@.len() as int) =~= Seq::<
            MerchantDefaultConfig,
        >::empty());
    }
    None
}

/// Whether a string occurs in the connector registry.
pub open spec fn spec_string_in(l: Seq<String>, s: Seq<char>) -> bool {
    exists|i: int| 0 <= i < l.len() && l[i]@ == s
}

#[verifier::loop_isolation(false)]
pub fn string_in(l: &Vec<String>, s: &String) -> (r: bool)
    ensures
        r == spec_string_in(l@, s@),
{
    let mut i: usize = 0;
    while i < l.len()
        invariant
            i <= l@.len(),
            forall|j: int| 0 <= j < i ==> l@[j]@ != s@,
        decreases l@.len() - i,
    {
        if l[i] == *s {
            return true;
        }
        i += 1;
    }
    false
}

} // verus!
