//! Session-flow routing: one selection per payment-method type.
//!
//! The session's candidate connectors are partitioned by payment-method
//! type, each partition keeping its connectors' token kinds. Each
//! partition is routed through the profile's configured algorithm (a
//! seeded volume split uses the attempt id, so a retry of the same attempt
//! selects the same connector), filtered through the constraint graph,
//! retried once against the merchant default configuration when nothing
//! survives, and dropped when still empty.

use vstd::prelude::*;
use vstd::pervasive::VecAdditionalExecFns;
use vstd::string::StringExecFns;
use crate::algorithm::CachedAlgorithm;
use crate::cache::CacheKey;
use crate::cgraph::CompiledCGraph;
use crate::dsl::{BackendInput, MandateData, PaymentInput, PaymentMethodInput, Program};
use crate::enums::{payment_method_of, PaymentMethodType, TransactionType};
use crate::errors::{RoutingError, RoutingResult};
use crate::hashing::seed_hash;
use crate::orchestrator::{
    ensure_algorithm_cached_v1, execute_dsl_and_get_connector_v1, perform_cgraph_filtering,
    spec_cached_algorithm, spec_cached_cgraph, spec_dsl_ok, spec_filtered,
};
use crate::state::{
    find_business_profile_by_profile_id, get_merchant_default_config, make_routing_key,
    spec_merchant_default_config, spec_string_in, string_in, SessionState,
};
use crate::decode::decode_routing_ref;
use crate::types::{
    clone_choices, MerchantAccountRoutingAlgorithm, RoutableConnectorChoice,
};
use crate::volume_split::{is_split_outcome, perform_volume_split, seeded_pick, split_weights};

verus! {

/// One session candidate: a connector offered for one payment-method
/// type, with the token kind it was offered under.
#[derive(Debug)]
pub struct SessionConnectorData {
    pub payment_method_type: PaymentMethodType,
    pub connector_name: String,
    pub get_token: String,
}

/// The session-flow request: the payment in flight and the candidate
/// connectors the session offers.
#[derive(Debug)]
pub struct SessionFlowRoutingInput {
    pub country: Option<String>,
    pub merchant_id: String,
    pub payment_attempt: crate::orchestrator::PaymentAttemptRecord,
    pub payment_intent: crate::orchestrator::PaymentIntentRecord,
    pub chosen: Vec<SessionConnectorData>,
}

/// One selected connector for one payment-method type, with its token
/// kind.
#[derive(Debug)]
pub struct SessionRoutingChoice {
    pub connector: RoutableConnectorChoice,
    pub get_token: String,
    pub payment_method_type: PaymentMethodType,
}

/// Everything one per-payment-method-type selection needs.
pub struct SessionRoutingPmTypeInput<'a> {
    pub merchant_id: &'a String,
    pub attempt_id: &'a String,
    pub routing_algorithm: &'a MerchantAccountRoutingAlgorithm,
    pub backend_input: &'a BackendInput,
    pub profile_id: &'a String,
}

/// The chosen list carries this token for this connector under this
/// payment-method type.
pub open spec fn spec_token_from_chosen(
    chosen: Seq<SessionConnectorData>,
    pmt: PaymentMethodType,
    name: Seq<char>,
    token: Seq<char>,
) -> bool {
    exists|c: int|
        0 <= c < chosen.len() && chosen[c].payment_method_type == pmt && chosen[c].connector_name@
            == name && chosen[c].get_token@ == token
}

/// The candidates a partition starts from: the dispatched compiled
/// algorithm when one is configured (a volume split drawn with the
/// attempt id as seed), else the merchant default configuration.
pub open spec fn spec_session_dispatch(
    v: CachedAlgorithm,
    inp: BackendInput,
    attempt_id: Seq<char>,
    out: Seq<RoutableConnectorChoice>,
) -> bool {
    match v {
        CachedAlgorithm::Single(c) => out == seq![c],
        CachedAlgorithm::Priority(l) => out == l@,
        CachedAlgorithm::VolumeSplit(s) => is_split_outcome(
            s@,
            seeded_pick(split_weights(s@), seed_hash(attempt_id)) as int,
            out,
        ),
        CachedAlgorithm::Advanced(p) => spec_dsl_ok(inp, p, out),
    }
}

/// Where a partition's first filtering pass starts: the dispatched
/// compiled algorithm when one is configured, else the merchant default
/// configuration.
pub open spec fn spec_pm_primary_candidates(
    state: SessionState,
    merchant_id: Seq<char>,
    profile_id: Seq<char>,
    tx: TransactionType,
    alg: MerchantAccountRoutingAlgorithm,
    inp: BackendInput,
    attempt_id: Seq<char>,
    cands: Seq<RoutableConnectorChoice>,
) -> bool {
    match alg {
        MerchantAccountRoutingAlgorithm::V1(r) => match r.algorithm_id {
            Some(_) => spec_cached_algorithm(state, merchant_id, profile_id, tx) matches Some(v)
                && spec_session_dispatch(v, inp, attempt_id, cands),
            None => spec_merchant_default_config(state.store.default_configs@, profile_id, tx)
                matches Some(cfg) && cands == cfg@,
        },
    }
}

/// Stores and tenant prefix never change under a selection call.
pub open spec fn spec_session_frame(old_state: SessionState, new_state: SessionState) -> bool {
    &&& new_state.store == old_state.store
    &&& new_state.tenant_prefix@ == old_state.tenant_prefix@
}

/// Routes one payment-method-type partition: resolve the candidates,
/// filter them through the constraint graph, retry once against the
/// merchant default when nothing survives, and report `None` exactly when
/// that retry is also empty. A volume split here is seeded with the
/// attempt id, so a retry of the same attempt selects the same connector.
pub fn perform_session_routing_for_pm_type(
    state: &mut SessionState,
    session_pm_input: &SessionRoutingPmTypeInput<'_>,
    transaction_type: TransactionType,
) -> (r: RoutingResult<Option<Vec<RoutableConnectorChoice>>>)
    ensures
        spec_session_frame(*old(state), *final(state)),
        r matches Err(e) ==> (e is DslMissingInDb || e is DslParsingError
            || e is DslBackendInitError || e is ConnectorSelectionFailed || e is DslExecutionError
            || e is DslIncorrectSelectionAlgorithm || e is DslFinalConnectorSelectionFailed
            || e is FallbackConfigFetchFailed || e is InvalidConnectorName),
        spec_cached_cgraph(
            *old(state),
            session_pm_input.merchant_id@,
            session_pm_input.profile_id@,
            transaction_type,
        ) matches Some(g0) ==> spec_cached_cgraph(
            *final(state),
            session_pm_input.merchant_id@,
            session_pm_input.profile_id@,
            transaction_type,
        ) == Some(g0),
        spec_cached_algorithm(
            *old(state),
            session_pm_input.merchant_id@,
            session_pm_input.profile_id@,
            transaction_type,
        ) matches Some(v0) ==> spec_cached_algorithm(
            *final(state),
            session_pm_input.merchant_id@,
            session_pm_input.profile_id@,
            transaction_type,
        ) == Some(v0),
        r is Ok ==> exists|g: CompiledCGraph, cands: Seq<RoutableConnectorChoice>|
            #![trigger spec_filtered(g, *session_pm_input.backend_input, None, cands)]
            {
                &&& spec_cached_cgraph(
                    *final(state),
                    session_pm_input.merchant_id@,
                    session_pm_input.profile_id@,
                    transaction_type,
                ) == Some(g)
                &&& spec_pm_primary_candidates(
                    *final(state),
                    session_pm_input.merchant_id@,
                    session_pm_input.profile_id@,
                    transaction_type,
                    *session_pm_input.routing_algorithm,
                    *session_pm_input.backend_input,
                    session_pm_input.attempt_id@,
                    cands,
                )
                &&& if spec_filtered(g, *session_pm_input.backend_input, None, cands).len() > 0 {
                    r matches Ok(opt) && opt matches Some(out) && out@ == spec_filtered(
                        g,
                        *session_pm_input.backend_input,
                        None,
                        cands,
                    )
                } else {
                    spec_merchant_default_config(
                        final(state).store.default_configs@,
                        session_pm_input.profile_id@,
                        transaction_type,
                    ) matches Some(cfg) && if spec_filtered(
                        g,
                        *session_pm_input.backend_input,
                        None,
                        cfg@,
                    ).len() > 0 {
                        r matches Ok(opt) && opt matches Some(out) && out@ == spec_filtered(
                            g,
                            *session_pm_input.backend_input,
                            None,
                            cfg@,
                        )
                    } else {
                        r matches Ok(opt) && opt is None
                    }
                }
            },
        (session_pm_input.routing_algorithm matches MerchantAccountRoutingAlgorithm::V1(ar)
            && ar.algorithm_id is None && spec_merchant_default_config(
            old(state).store.default_configs@,
            session_pm_input.profile_id@,
            transaction_type,
        ) is Some && (spec_cached_cgraph(
            *old(state),
            session_pm_input.merchant_id@,
            session_pm_input.profile_id@,
            transaction_type,
        ) is Some || crate::orchestrator::spec_first_invalid_filter_key(
            old(state).store.pm_filters.entries@,
            old(state).store.routable_connectors@,
        ) is None)) ==> r is Ok,
{
    let MerchantAccountRoutingAlgorithm::V1(algorithm_ref) = session_pm_input.routing_algorithm;
    let chosen_connectors: Vec<RoutableConnectorChoice> = match &algorithm_ref.algorithm_id {
        Some(algorithm_id) => {
            match ensure_algorithm_cached_v1(
                state,
                session_pm_input.merchant_id,
                algorithm_id,
                session_pm_input.profile_id,
                transaction_type,
            ) {
                Ok(()) => {},
                Err(e) => {
                    return Err(e);
                },
            }
            let key = CacheKey {
                prefix: state.tenant_prefix.clone(),
                key: make_routing_key(
                    session_pm_input.merchant_id.as_str(),
                    session_pm_input.profile_id.as_str(),
                    transaction_type,
                ),
            };
            let cached = match state.routing_cache.get_val(&key) {
                Some(v) => v,
                None => {
                    proof {
                        assert(false);
                    }
                    return Err(RoutingError::DslMissingInDb);
                },
            };
            match cached {
                CachedAlgorithm::Single(conn) => {
                    let mut out: Vec<RoutableConnectorChoice> = Vec::new();
                    out.push(conn.clone());
                    proof {
                        assert(out@ =~= seq![*conn]);
                    }
                    out
                },
                CachedAlgorithm::Priority(plist) => clone_choices(plist),
                CachedAlgorithm::VolumeSplit(splits) => {
                    match perform_volume_split(
                        crate::types::clone_splits(splits),
                        Some(session_pm_input.attempt_id.as_str()),
                    ) {
                        Ok(out) => out,
                        Err(_) => {
                            return Err(RoutingError::ConnectorSelectionFailed);
                        },
                    }
                },
                CachedAlgorithm::Advanced(interpreter) => {
                    match execute_dsl_and_get_connector_v1(
                        session_pm_input.backend_input,
                        interpreter,
                    ) {
                        Ok(out) => out,
                        Err(e) => {
                            return Err(e);
                        },
                    }
                },
            }
        },
        None => {
            match get_merchant_default_config(
                &state.store.default_configs,
                session_pm_input.profile_id,
                transaction_type,
            ) {
                Some(cfg) => clone_choices(cfg),
                None => {
                    return Err(RoutingError::FallbackConfigFetchFailed);
                },
            }
        },
    };
    let ghost gcands = chosen_connectors@;
    let ghost gmid = *state;
    proof {
        assert(spec_pm_primary_candidates(
            gmid,
            session_pm_input.merchant_id@,
            session_pm_input.profile_id@,
            transaction_type,
            *session_pm_input.routing_algorithm,
            *session_pm_input.backend_input,
            session_pm_input.attempt_id@,
            gcands,
        ));
    }
    let first_selection = match perform_cgraph_filtering(
        state,
        session_pm_input.merchant_id,
        chosen_connectors,
        session_pm_input.backend_input,
        None,
        session_pm_input.profile_id,
        transaction_type,
    ) {
        Ok(out) => out,
        Err(e) => {
            return Err(e);
        },
    };
    if first_selection.len() > 0 {
        return Ok(Some(first_selection));
    }
    let fallback = match get_merchant_default_config(
        &state.store.default_configs,
        session_pm_input.profile_id,
        transaction_type,
    ) {
        Some(cfg) => clone_choices(cfg),
        None => {
            return Err(RoutingError::FallbackConfigFetchFailed);
        },
    };
    let second_selection = match perform_cgraph_filtering(
        state,
        session_pm_input.merchant_id,
        fallback,
        session_pm_input.backend_input,
        None,
        session_pm_input.profile_id,
        transaction_type,
    ) {
        Ok(out) => out,
        Err(e) => {
            return Err(e);
        },
    };
    if second_selection.len() == 0 {
        Ok(None)
    } else {
        Ok(Some(second_selection))
    }
}

/// The stored token for a connector name, if the partition offers it.
pub open spec fn spec_allowed_lookup(
    allowed: Seq<(String, String)>,
    name: Seq<char>,
) -> Option<String>
    decreases allowed.len(),
{
    if allowed.len() == 0 {
        None
    } else if allowed[0].0@ == name {
        Some(allowed[0].1)
    } else {
        spec_allowed_lookup(allowed.drop_first(), name)
    }
}

#[verifier::loop_isolation(false)]
fn allowed_lookup<'a>(allowed: &'a Vec<(String, String)>, name: &String) -> (r: Option<&'a String>)
    ensures
        match r {
            Some(t) => spec_allowed_lookup(allowed@, name@) == Some(*t),
            None => spec_allowed_lookup(allowed@, name@) is None,
        },
{
    proof {
        assert(allowed@.subrange(0, allowed@.len() as int) =~= allowed@);
    }
    let mut i: usize = 0;
    while i < allowed.len()
        invariant
            i <= allowed@.len(),
            spec_allowed_lookup(allowed@, name@) == spec_allowed_lookup(
                allowed@.subrange(i as int, allowed@.len() as int),
                name@,
            ),
        decreases allowed@.len() - i,
    {
        let ghost rest = allowed@.subrange(i as int, allowed@.len() as int);
        proof {
            assert(rest.drop_first() =~= allowed@.subrange(i as int + 1, allowed@.len() as int));
            assert(rest[0] == allowed@[i as int]);
        }
        if allowed[i].0 == *name {
            return Some(&allowed[i].1);
        }
        i += 1;
    }
    None
}

/// The token the partition's map holds for a connector: the token of the
/// last chosen entry of this payment-method type with that name.
pub open spec fn spec_last_token(
    chosen: Seq<SessionConnectorData>,
    pmt: PaymentMethodType,
    name: Seq<char>,
) -> Option<String>
    decreases chosen.len(),
{
    if chosen.len() == 0 {
        None
    } else if chosen.last().payment_method_type == pmt && chosen.last().connector_name@ == name {
        Some(chosen.last().get_token)
    } else {
        spec_last_token(chosen.drop_last(), pmt, name)
    }
}

/// With pairwise distinct names, the lookup finds a pair's value exactly
/// at its entry.
proof fn lemma_lookup_with_distinct_names(allowed: Seq<(String, String)>, name: Seq<char>)
    requires
        forall|k1: int, k2: int|
            0 <= k1 < k2 < allowed.len() ==> (#[trigger] allowed[k1]).0@ != (
            #[trigger] allowed[k2]).0@,
    ensures
        forall|k: int|
            0 <= k < allowed.len() && (#[trigger] allowed[k]).0@ == name ==> spec_allowed_lookup(
                allowed,
                name,
            ) == Some(allowed[k].1),
        (forall|k: int| 0 <= k < allowed.len() ==> (#[trigger] allowed[k]).0@ != name)
            ==> spec_allowed_lookup(allowed, name) is None,
    decreases allowed.len(),
{
    if allowed.len() > 0 {
        lemma_lookup_with_distinct_names(allowed.drop_first(), name);
        assert forall|k: int|
            0 <= k < allowed.len() && (#[trigger] allowed[k]).0@ == name implies spec_allowed_lookup(
            allowed,
            name,
        ) == Some(allowed[k].1) by {
            if k > 0 {
                assert(allowed.drop_first()[k - 1] == allowed[k]);
            }
        };
    }
}

/// Collects one partition's token map: every chosen candidate of this
/// payment-method type contributes its connector name and token kind; a
/// later candidate for the same connector replaces the earlier token.
#[verifier::loop_isolation(false)]
fn gather_allowed(chosen: &Vec<SessionConnectorData>, pmt: PaymentMethodType) -> (r: Vec<
    (String, String),
>)
    ensures
        forall|name: Seq<char>|
            #[trigger] spec_allowed_lookup(r@, name) == spec_last_token(chosen@, pmt, name),
        forall|k: int|
            0 <= k < r@.len() ==> spec_token_from_chosen(
                chosen@,
                pmt,
                (#[trigger] r@[k]).0@,
                r@[k].1@,
            ),
{
    let mut allowed: Vec<(String, String)> = Vec::new();
    let mut i: usize = 0;
    proof {
        assert(chosen@.subrange(0, 0) =~= Seq::<SessionConnectorData>::empty());
    }
    while i < chosen.len()
        invariant
            i <= chosen@.len(),
            forall|k1: int, k2: int|
                0 <= k1 < k2 < allowed@.len() ==> (#[trigger] allowed@[k1]).0@ != (
                #[trigger] allowed@[k2]).0@,
            forall|name: Seq<char>|
                #[trigger] spec_allowed_lookup(allowed@, name) == spec_last_token(
                    chosen@.subrange(0, i as int),
                    pmt,
                    name,
                ),
            forall|k: int|
                0 <= k < allowed@.len() ==> spec_token_from_chosen(
                    chosen@,
                    pmt,
                    (#[trigger] allowed@[k]).0@,
                    allowed@[k].1@,
                ),
        decreases chosen@.len() - i,
    {
        let ghost prefix = chosen@.subrange(0, i as int);
        let ghost prefix1 = chosen@.subrange(0, i as int + 1);
        proof {
            assert(prefix1.drop_last() =~= prefix);
            assert(prefix1.last() == chosen@[i as int]);
        }
        if chosen[i].payment_method_type == pmt {
            let name = chosen[i].connector_name.clone();
            let token = chosen[i].get_token.clone();
            let ghost gname = name@;
            let mut found: Option<usize> = None;
            let mut j: usize = 0;
            while j < allowed.len()
                invariant
                    j <= allowed@.len(),
                    match found {
                        Some(idx) => idx < allowed@.len() && allowed@[idx as int].0@ == gname,
                        None => forall|k: int| 0 <= k < j ==> (#[trigger] allowed@[k]).0@ != gname,
                    },
                decreases allowed@.len() - j,
            {
                if allowed[j].0 == name {
                    found = Some(j);
                }
                j += 1;
            }
            let ghost old_allowed = allowed@;
            match found {
                Some(idx) => {
                    allowed.set(idx, (name, token));
                },
                None => {
                    allowed.push((name, token));
                },
            }
            proof {
                let ghost gidx: int = match found {
                    Some(idx) => idx as int,
                    None => old_allowed.len() as int,
                };
                assert(allowed@[gidx].0@ == gname && allowed@[gidx].1@ == chosen@[
                    i as int
                ].get_token@);
                assert forall|name2: Seq<char>| #[trigger] spec_allowed_lookup(allowed@, name2)
                    == spec_last_token(prefix1, pmt, name2) by {
                    lemma_lookup_with_distinct_names(allowed@, name2);
                    lemma_lookup_with_distinct_names(old_allowed, name2);
                    if name2 == gname {
                        assert(spec_allowed_lookup(allowed@, name2) == Some(allowed@[gidx].1));
                    } else {
                        if spec_allowed_lookup(old_allowed, name2) is Some {
                            let k = choose|k: int|
                                0 <= k < old_allowed.len() && (#[trigger] old_allowed[k]).0@
                                    == name2;
                            assert(allowed@[k] == old_allowed[k]);
                        } else {
                            assert forall|k: int| 0 <= k < allowed@.len() implies (
                            #[trigger] allowed@[k]).0@ != name2 by {
                                if k != gidx {
                                    assert(allowed@[k] == old_allowed[k]);
                                }
                            };
                        }
                    }
                };
            }
        }
        i += 1;
    }
    proof {
        assert(chosen@.subrange(0, chosen@.len() as int) =~= chosen@);
    }
    allowed
}

/// The routing algorithm a profile resolves to: its stored reference when
/// one decodes, the default reference when none is stored, nothing when
/// the profile is unknown or its reference has an unknown shape.
pub open spec fn spec_session_algorithm(
    state: SessionState,
    profile_id: Seq<char>,
) -> Option<MerchantAccountRoutingAlgorithm> {
    match crate::state::spec_find_business_profile(state.store.business_profiles@, profile_id) {
        None => None,
        Some(bp) => match bp.routing_algorithm {
            Some(j) => crate::decode::spec_decode_routing_ref(j),
            None => Some(
                MerchantAccountRoutingAlgorithm::V1(
                    crate::types::RoutingAlgorithmRef { algorithm_id: None },
                ),
            ),
        },
    }
}

/// The token-kind retention of a partition's selection: each selected
/// connector the partition offered keeps its place and takes the last
/// token the chosen list recorded for it; the others drop out.
pub open spec fn spec_retained(
    sel: Seq<RoutableConnectorChoice>,
    chosen: Seq<SessionConnectorData>,
    pmt: PaymentMethodType,
) -> Seq<SessionRoutingChoice>
    decreases sel.len(),
{
    if sel.len() == 0 {
        Seq::empty()
    } else {
        let rest = spec_retained(sel.drop_first(), chosen, pmt);
        match spec_last_token(chosen, pmt, sel[0].connector@) {
            Some(tok) => seq![
                SessionRoutingChoice {
                    connector: sel[0],
                    get_token: tok,
                    payment_method_type: pmt,
                },
            ] + rest,
            None => rest,
        }
    }
}

/// Keeps, in selection order, the selected connectors the partition
/// offered a token for, each under that token; fails when a kept
/// connector is not a routable one.
#[verifier::loop_isolation(false)]
fn retain_offered(
    selected: &Vec<RoutableConnectorChoice>,
    allowed: &Vec<(String, String)>,
    registry: &Vec<String>,
    pmt: PaymentMethodType,
    chosen: &Vec<SessionConnectorData>,
) -> (r: Result<Vec<SessionRoutingChoice>, RoutingError>)
    requires
        forall|name: Seq<char>|
            #[trigger] spec_allowed_lookup(allowed@, name) == spec_last_token(chosen@, pmt, name),
    ensures
        r matches Err(e) ==> e is InvalidConnectorName,
        r matches Ok(out) ==> {
            &&& out@ == spec_retained(selected@, chosen@, pmt)
            &&& forall|j: int|
                0 <= j < out@.len() ==> spec_string_in(
                    registry@,
                    (#[trigger] out@[j]).connector.connector@,
                )
        },
{
    let mut out: Vec<SessionRoutingChoice> = Vec::new();
    let mut t: usize = 0;
    let n = selected.len();
    proof {
        assert(selected@.subrange(0, n as int) =~= selected@);
    }
    while t < n
        invariant
            t <= n,
            n == selected@.len(),
            spec_retained(selected@, chosen@, pmt) == out@ + spec_retained(
                selected@.subrange(t as int, n as int),
                chosen@,
                pmt,
            ),
            forall|j: int|
                0 <= j < out@.len() ==> spec_string_in(
                    registry@,
                    (#[trigger] out@[j]).connector.connector@,
                ),
        decreases n - t,
    {
        let ghost rest = selected@.subrange(t as int, n as int);
        proof {
            assert(rest.drop_first() =~= selected@.subrange(t as int + 1, n as int));
            assert(rest[0] == selected@[t as int]);
        }
        match allowed_lookup(allowed, &selected[t].connector) {
            Some(token) => {
                if !string_in(registry, &selected[t].connector) {
                    return Err(
                        RoutingError::InvalidConnectorName { name: selected[t].connector.clone() },
                    );
                }
                let ghost gsrc = SessionRoutingChoice {
                    connector: selected@[t as int],
                    get_token: *token,
                    payment_method_type: pmt,
                };
                out.push(
                    SessionRoutingChoice {
                        connector: selected[t].clone(),
                        get_token: token.clone(),
                        payment_method_type: pmt,
                    },
                );
                proof {
                    assert((out@.drop_last() + (seq![gsrc] + spec_retained(
                        rest.drop_first(),
                        chosen@,
                        pmt,
                    ))) =~= (out@ + spec_retained(rest.drop_first(), chosen@, pmt)));
                }
            },
            None => {},
        }
        t += 1;
    }
    proof {
        assert(selected@.subrange(n as int, n as int) =~= Seq::<RoutableConnectorChoice>::empty());
        assert((out@ + Seq::<SessionRoutingChoice>::empty()) =~= out@);
    }
    Ok(out)
}

/// Session-flow routing: partitions the session's candidates by
/// payment-method type, routes each partition, and keeps, per partition,
/// the selected connectors whose token kind the partition offered.
/// Partitions with no surviving choice are dropped; an empty map is a
/// valid result. A partition keeps only candidates of its own kind
/// through the constraint graph: when every routed candidate is rejected
/// for the partition's payment method, the retry against the merchant
/// default is what lets, say, a wallet-only default surface for a wallet
/// partition.
#[verifier::loop_isolation(false)]
#[verifier::rlimit(60)]
pub fn perform_session_flow_routing(
    state: &mut SessionState,
    session_input: &SessionFlowRoutingInput,
    transaction_type: TransactionType,
) -> (r: RoutingResult<Vec<(PaymentMethodType, Vec<SessionRoutingChoice>)>>)
    ensures
        spec_session_frame(*old(state), *final(state)),
        (r matches Err(e) && e is ProfileIdMissing) <==> session_input.payment_intent.profile_id
            is None,
        session_input.payment_intent.profile_id matches Some(pid) ==> ((r matches Err(e)
            && e is ProfileNotFound) <==> crate::state::spec_find_business_profile(
            old(state).store.business_profiles@,
            pid@,
        ) is None),
        session_input.payment_intent.profile_id matches Some(pid) ==> ((r matches Err(e)
            && e is InvalidRoutingAlgorithmStructure) <==> (crate::state::spec_find_business_profile(
            old(state).store.business_profiles@,
            pid@,
        ) is Some && spec_session_algorithm(*old(state), pid@) is None)),
        session_input.payment_intent.profile_id matches Some(pid) ==> ((r matches Err(e)
            && e is DslMissingRequiredField) <==> (spec_session_algorithm(*old(state), pid@)
            is Some && session_input.payment_intent.currency is None)),
        r matches Err(e) ==> (e matches RoutingError::DslMissingRequiredField { field_name }
            ==> field_name@ == "currency"@),
        r matches Ok(result) ==> forall|k: int|
            0 <= k < result@.len() ==> {
                &&& (#[trigger] result@[k]).1@.len() > 0
                &&& forall|j: int|
                    0 <= j < result@[k].1@.len() ==> {
                        &&& (#[trigger] result@[k].1@[j]).payment_method_type == result@[k].0
                        &&& spec_token_from_chosen(
                            session_input.chosen@,
                            result@[k].0,
                            result@[k].1@[j].connector.connector@,
                            result@[k].1@[j].get_token@,
                        )
                        &&& spec_string_in(
                            old(state).store.routable_connectors@,
                            result@[k].1@[j].connector.connector@,
                        )
                    }
            },
{
    let profile_id = match &session_input.payment_intent.profile_id {
        Some(p) => p.clone(),
        None => {
            return Err(RoutingError::ProfileIdMissing);
        },
    };
    let business_profile = match find_business_profile_by_profile_id(
        &state.store.business_profiles,
        &profile_id,
    ) {
        Some(p) => p,
        None => {
            return Err(RoutingError::ProfileNotFound);
        },
    };
    let routing_algorithm: MerchantAccountRoutingAlgorithm = match &business_profile
        .routing_algorithm {
        Some(j) => match decode_routing_ref(j) {
            Some(alg) => alg,
            None => {
                return Err(RoutingError::InvalidRoutingAlgorithmStructure);
            },
        },
        None => MerchantAccountRoutingAlgorithm::V1(
            crate::types::RoutingAlgorithmRef { algorithm_id: None },
        ),
    };
    let ghost gpid = profile_id@;
    proof {
        assert(spec_session_algorithm(*old(state), gpid) is Some);
    }
    let currency = match session_input.payment_intent.currency {
        Some(c) => c,
        None => {
            return Err(
                RoutingError::DslMissingRequiredField {
                    field_name: String::from_str("currency"),
                },
            );
        },
    };
    let metadata = match &session_input.payment_intent.metadata {
        Some(j) => crate::decode::decode_metadata(j),
        None => None,
    };
    let mut backend_input = BackendInput {
        metadata,
        payment: PaymentInput {
            amount: session_input.payment_intent.amount,
            currency,
            card_bin: None,
            authentication_type: session_input.payment_attempt.authentication_type,
            capture_method: session_input.payment_attempt.capture_method,
            business_country: match &session_input.payment_intent.business_country {
                Some(c) => crate::enums::country_from_alpha2(c.as_str()),
                None => None,
            },
            billing_country: match &session_input.country {
                Some(c) => crate::enums::country_from_alpha2(c.as_str()),
                None => None,
            },
            business_label: match &session_input.payment_intent.business_label {
                Some(l) => Some(l.clone()),
                None => None,
            },
            setup_future_usage: session_input.payment_intent.setup_future_usage,
        },
        payment_method: PaymentMethodInput {
            payment_method: None,
            payment_method_type: None,
            card_network: None,
        },
        mandate: MandateData {
            mandate_acceptance_type: None,
            mandate_type: None,
            payment_type: None,
        },
    };
    let ghost gbase = backend_input;
    let merchant_id = session_input.merchant_id.clone();
    let mut result: Vec<(PaymentMethodType, Vec<SessionRoutingChoice>)> = Vec::new();
    let mut i: usize = 0;
    while i < session_input.chosen.len()
        invariant
            i <= session_input.chosen@.len(),
            merchant_id@ == session_input.merchant_id@,
            profile_id@ == gpid,
            spec_session_frame(*old(state), *state),
            gbase.payment_method == (PaymentMethodInput {
                payment_method: None,
                payment_method_type: None,
                card_network: None,
            }),
            backend_input.payment == gbase.payment,
            backend_input.mandate == gbase.mandate,
            backend_input.metadata == gbase.metadata,
            backend_input.payment_method.card_network == gbase.payment_method.card_network,
            forall|t: int|
                0 <= t < result@.len() ==> exists|k: int|
                    0 <= k < i && (#[trigger] result@[t]).0 == session_input.chosen@[
                        k
                    ].payment_method_type,
            forall|k: int|
                0 <= k < result@.len() ==> {
                    &&& (#[trigger] result@[k]).1@.len() > 0
                    &&& forall|j: int|
                        0 <= j < result@[k].1@.len() ==> {
                            &&& (#[trigger] result@[k].1@[j]).payment_method_type == result@[k].0
                            &&& spec_token_from_chosen(
                                session_input.chosen@,
                                result@[k].0,
                                result@[k].1@[j].connector.connector@,
                                result@[k].1@[j].get_token@,
                            )
                            &&& spec_string_in(
                                old(state).store.routable_connectors@,
                                result@[k].1@[j].connector.connector@,
                            )
                        }
                },
        decreases session_input.chosen@.len() - i,
    {
        let pmt = session_input.chosen[i].payment_method_type;
        let mut seen = false;
        let mut sc: usize = 0;
        while sc < i
            invariant
                sc <= i,
                i < session_input.chosen@.len(),
                pmt == session_input.chosen@[i as int].payment_method_type,
                seen == exists|s: int|
                    0 <= s < sc && (#[trigger] session_input.chosen@[s]).payment_method_type
                        == pmt,
            decreases i - sc,
        {
            if session_input.chosen[sc].payment_method_type == pmt {
                seen = true;
            }
            sc += 1;
        }
        if !seen {
            let allowed = gather_allowed(&session_input.chosen, pmt);
            backend_input.payment_method.payment_method = Some(payment_method_of(pmt));
            backend_input.payment_method.payment_method_type = Some(pmt);
            let pm_input = SessionRoutingPmTypeInput {
                merchant_id: &merchant_id,
                attempt_id: &session_input.payment_attempt.attempt_id,
                routing_algorithm: &routing_algorithm,
                backend_input: &backend_input,
                profile_id: &profile_id,
            };
            let selection = match perform_session_routing_for_pm_type(
                state,
                &pm_input,
                transaction_type,
            ) {
                Ok(sel) => sel,
                Err(e) => {
                    return Err(e);
                },
            };
            let ghost res_pre = result@;
            match selection {
                Some(selected) => {
                    let session_choices = match retain_offered(
                        &selected,
                        &allowed,
                        &state.store.routable_connectors,
                        pmt,
                        &session_input.chosen,
                    ) {
                        Ok(out) => out,
                        Err(e) => {
                            return Err(e);
                        },
                    };
                    if session_choices.len() > 0 {
                        proof {
                            assert forall|j: int|
                                0 <= j < session_choices@.len() implies spec_token_from_chosen(
                                session_input.chosen@,
                                pmt,
                                (#[trigger] session_choices@[j]).connector.connector@,
                                session_choices@[j].get_token@,
                            ) && session_choices@[j].payment_method_type == pmt by {
                                lemma_retained_tokens(selected@, session_input.chosen@, pmt, j);
                            };
                        }
                        result.push((pmt, session_choices));
                        proof {
                            assert forall|t: int| 0 <= t < result@.len() implies exists|k: int|
                                0 <= k < i + 1 && (#[trigger] result@[t]).0
                                    == session_input.chosen@[k].payment_method_type by {
                                if t < res_pre.len() {
                                    assert(result@[t] == res_pre[t]);
                                } else {
                                    assert(result@[t].0 == session_input.chosen@[
                                        i as int
                                    ].payment_method_type);
                                }
                            };
                        }
                    }
                },
                None => {},
            }
        }
        i += 1;
    }
    Ok(result)
}

/// Every retained token comes from the chosen list.
proof fn lemma_retained_tokens(
    sel: Seq<RoutableConnectorChoice>,
    chosen: Seq<SessionConnectorData>,
    pmt: PaymentMethodType,
    j: int,
)
    requires
        0 <= j < spec_retained(sel, chosen, pmt).len(),
    ensures
        spec_token_from_chosen(
            chosen,
            pmt,
            spec_retained(sel, chosen, pmt)[j].connector.connector@,
            spec_retained(sel, chosen, pmt)[j].get_token@,
        ),
        spec_retained(sel, chosen, pmt)[j].payment_method_type == pmt,
    decreases sel.len(),
{
    if sel.len() > 0 {
        let found = spec_last_token(chosen, pmt, sel[0].connector@);
        if found is Some {
            if j > 0 {
                lemma_retained_tokens(sel.drop_first(), chosen, pmt, j - 1);
            } else {
                lemma_last_token_from_chosen(chosen, pmt, sel[0].connector@);
            }
        } else {
            lemma_retained_tokens(sel.drop_first(), chosen, pmt, j);
        }
    }
}

/// A token the map reports was recorded in the chosen list.
proof fn lemma_last_token_from_chosen(
    chosen: Seq<SessionConnectorData>,
    pmt: PaymentMethodType,
    name: Seq<char>,
)
    ensures
        spec_last_token(chosen, pmt, name) matches Some(tok) ==> spec_token_from_chosen(
            chosen,
            pmt,
            name,
            tok@,
        ),
    decreases chosen.len(),
{
    if chosen.len() > 0 {
        if chosen.last().payment_method_type == pmt && chosen.last().connector_name@ == name {
            assert(chosen[chosen.len() - 1] == chosen.last());
        } else {
            lemma_last_token_from_chosen(chosen.drop_last(), pmt, name);
            let found = spec_last_token(chosen.drop_last(), pmt, name);
            if found is Some {
                let tok = found.unwrap();
                let c = choose|c: int|
                    0 <= c < chosen.drop_last().len() && chosen.drop_last()[c].payment_method_type
                        == pmt && chosen.drop_last()[c].connector_name@ == name && chosen.drop_last()[
                        c
                    ].get_token@ == tok@;
                assert(chosen[c] == chosen.drop_last()[c]);
            }
        }
    }
}

} // verus!
