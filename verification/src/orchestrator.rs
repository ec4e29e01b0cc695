//! The routing entry points: static routing, straight-through routing,
//! eligibility analysis with fallback, and the input builders that project
//! a payment or payout into the normalized `BackendInput`.

use vstd::prelude::*;
use vstd::string::{StringExecFns, StrSliceExecFns};
use crate::algorithm::{
    compile_algorithm, spec_algorithm_compiles, spec_parse_invalid, spec_program_valid,
    spec_splits_complete, CachedAlgorithm, RoutingAlgorithm, StraightThroughAlgorithm,
};
use crate::cache::{cache_lookup, CacheKey};
use crate::cgraph::{
    check_value_validity, make_mca_graph, spec_check_validity, spec_connector_eligible,
    CompiledCGraph, CountryCurrencyFilter, MerchantConnectorAccount,
};
use crate::decode::{
    decode_algorithm, decode_metadata, lemma_algorithm_decode_congruent,
    lemma_algorithm_decode_excludes_fail, spec_algorithm_decodes, spec_algorithm_fail,
    spec_meta_pairs, spec_metadata_decodable,
};
use crate::dsl::{
    eval_program, spec_eval_program, BackendInput, ConnectorSelection, MandateData,
    PaymentInput, PaymentMethodInput, Program,
};
use crate::enums::{
    country_from_alpha2, spec_country_from_alpha2, AuthenticationType, CaptureMethod, CardNetwork,
    Country, Currency, MandateAcceptanceType, MandateType, PaymentMethod, PaymentMethodType,
    PaymentType, SetupFutureUsage, TransactionType,
};
use crate::errors::{RoutingError, RoutingResult};
use crate::json::JsonVal;
use crate::state::{
    find_routing_algorithm_by_profile_id_algorithm_id, get_merchant_default_config,
    make_cgraph_key, make_routing_key, spec_cgraph_key, spec_find_algorithm,
    spec_merchant_default_config, spec_routing_key, spec_string_in, string_in, SessionState,
};
use crate::types::{
    choice_in, clone_choices, clone_splits, contains_choice, RoutableConnectorChoice,
    RoutingAlgorithmRef,
};
use crate::volume_split::{perform_volume_split, volume_split_ok, volume_split_total};

verus! {

/// The payment-intent attributes routing reads.
#[derive(Debug)]
pub struct PaymentIntentRecord {
    pub amount: u64,
    pub currency: Option<Currency>,
    /// Two-letter code; an unknown code is treated as absent.
    pub business_country: Option<String>,
    pub business_label: Option<String>,
    pub setup_future_usage: Option<SetupFutureUsage>,
    pub metadata: Option<JsonVal>,
    pub profile_id: Option<String>,
}

/// The payment-attempt attributes routing reads.
#[derive(Debug)]
pub struct PaymentAttemptRecord {
    pub attempt_id: String,
    pub authentication_type: Option<AuthenticationType>,
    pub capture_method: Option<CaptureMethod>,
    pub payment_method: Option<PaymentMethod>,
    pub payment_method_type: Option<PaymentMethodType>,
    pub amount: u64,
    pub currency: Option<Currency>,
}

/// What the payment method data contributes: a card carries its number
/// and network.
#[derive(Debug)]
pub enum PaymentMethodData {
    Card { card_number: String, card_network: Option<CardNetwork> },
    Other,
}

/// The mandate attached at setup, already in the storage vocabulary.
#[derive(Clone, Copy, Debug)]
pub struct SetupMandate {
    pub customer_acceptance: Option<MandateAcceptanceType>,
    pub mandate_type: Option<MandateType>,
}

/// A payment in flight, as the orchestrator sees it.
#[derive(Debug)]
pub struct PaymentData {
    pub payment_intent: PaymentIntentRecord,
    pub payment_attempt: PaymentAttemptRecord,
    pub currency: Currency,
    pub setup_mandate: Option<SetupMandate>,
    pub payment_method_data: Option<PaymentMethodData>,
    /// Two-letter billing country code from the payment-method billing
    /// address.
    pub billing_country_code: Option<String>,
}

#[derive(Debug)]
pub struct PayoutsRecord {
    pub amount: u64,
    pub destination_currency: Currency,
    pub metadata: Option<JsonVal>,
    pub payout_type: Option<PaymentMethod>,
}

#[derive(Debug)]
pub struct PayoutAttemptRecord {
    pub business_country: Option<String>,
    pub business_label: Option<String>,
    pub profile_id: String,
}

/// A payout in flight, as the orchestrator sees it.
#[derive(Debug)]
pub struct PayoutData {
    pub payouts: PayoutsRecord,
    pub payout_attempt: PayoutAttemptRecord,
    pub billing_country_code: Option<String>,
    pub payout_method_type: Option<PaymentMethodType>,
}

/// The transaction a selection call routes.
#[derive(Debug)]
pub enum TransactionData {
    Payment(PaymentData),
    Payout(PayoutData),
}

pub open spec fn spec_transaction_type(txd: TransactionData) -> TransactionType {
    match txd {
        TransactionData::Payment(_) => TransactionType::Payment,
        TransactionData::Payout(_) => TransactionType::Payout,
    }
}

pub fn transaction_type_of(txd: &TransactionData) -> (t: TransactionType)
    ensures
        t == spec_transaction_type(*txd),
{
    match txd {
        TransactionData::Payment(_) => TransactionType::Payment,
        TransactionData::Payout(_) => TransactionType::Payout,
    }
}

pub open spec fn spec_country_opt(code: Option<String>) -> Option<Country> {
    match code {
        Some(c) => spec_country_from_alpha2(c@),
        None => None,
    }
}

fn country_opt(code: &Option<String>) -> (r: Option<Country>)
    ensures
        r == spec_country_opt(*code),
{
    match code {
        Some(c) => country_from_alpha2(c.as_str()),
        None => None,
    }
}

/// How built metadata relates to a record's metadata tree: a decodable
/// object yields its pairs; anything else, including no metadata at all,
/// yields absent metadata. Failure to decode never blocks routing.
pub open spec fn spec_metadata_matches(
    meta: Option<JsonVal>,
    out: Option<Vec<(String, String)>>,
) -> bool {
    match meta {
        Some(j) => if spec_metadata_decodable(j) {
            out matches Some(m) && (j matches JsonVal::Obj(o) && spec_meta_pairs(o@, m@))
        } else {
            out is None
        },
        None => out is None,
    }
}

fn build_metadata(meta: &Option<JsonVal>) -> (r: Option<Vec<(String, String)>>)
    ensures
        spec_metadata_matches(*meta, r),
{
    match meta {
        Some(j) => decode_metadata(j),
        None => None,
    }
}

/// The first six characters of a card number, or the whole number when it
/// is shorter.
pub open spec fn spec_bin_of(num: Seq<char>) -> Seq<char> {
    if num.len() < 6 {
        num
    } else {
        num.subrange(0, 6)
    }
}

pub open spec fn spec_card_bin_matches(pmd: Option<PaymentMethodData>, bin: Option<String>) -> bool {
    match pmd {
        Some(PaymentMethodData::Card { card_number, card_network: _ }) => bin matches Some(b) && b@
            == spec_bin_of(card_number@),
        _ => bin is None,
    }
}

pub open spec fn spec_card_network_of(pmd: Option<PaymentMethodData>) -> Option<CardNetwork> {
    match pmd {
        Some(PaymentMethodData::Card { card_number: _, card_network }) => card_network,
        _ => None,
    }
}

fn build_card_bin(pmd: &Option<PaymentMethodData>) -> (r: Option<String>)
    ensures
        spec_card_bin_matches(*pmd, r),
{
    match pmd {
        Some(PaymentMethodData::Card { card_number, card_network: _ }) => {
            let n = card_number.as_str().unicode_len();
            let k = if n < 6 {
                n
            } else {
                6
            };
            let bin = card_number.as_str().substring_char(0, k).to_owned();
            proof {
                if n < 6 {
                    assert(card_number@.subrange(0, n as int) =~= card_number@);
                }
            }
            Some(bin)
        },
        _ => None,
    }
}

/// The mandate data a payment contributes: its acceptance and kind when a
/// mandate was set up, and whether this payment sets one up at all.
pub open spec fn spec_mandate_of(sm: Option<SetupMandate>) -> MandateData {
    match sm {
        Some(m) => MandateData {
            mandate_acceptance_type: m.customer_acceptance,
            mandate_type: m.mandate_type,
            payment_type: Some(PaymentType::SetupMandate),
        },
        None => MandateData {
            mandate_acceptance_type: None,
            mandate_type: None,
            payment_type: Some(PaymentType::NonMandate),
        },
    }
}

pub open spec fn spec_payment_input_matches(pd: PaymentData, pi: PaymentInput) -> bool {
    &&& pi.amount == pd.payment_intent.amount
    &&& pi.currency == pd.currency
    &&& spec_card_bin_matches(pd.payment_method_data, pi.card_bin)
    &&& pi.authentication_type == pd.payment_attempt.authentication_type
    &&& pi.capture_method == pd.payment_attempt.capture_method
    &&& pi.business_country == spec_country_opt(pd.payment_intent.business_country)
    &&& pi.billing_country == spec_country_opt(pd.billing_country_code)
    &&& pi.business_label == pd.payment_intent.business_label
    &&& pi.setup_future_usage == pd.payment_intent.setup_future_usage
}

/// How a built input relates to the payment it was projected from.
pub open spec fn spec_backend_input_matches(pd: PaymentData, inp: BackendInput) -> bool {
    &&& spec_payment_input_matches(pd, inp.payment)
    &&& inp.payment_method == PaymentMethodInput {
        payment_method: pd.payment_attempt.payment_method,
        payment_method_type: pd.payment_attempt.payment_method_type,
        card_network: spec_card_network_of(pd.payment_method_data),
    }
    &&& inp.mandate == spec_mandate_of(pd.setup_mandate)
    &&& spec_metadata_matches(pd.payment_intent.metadata, inp.metadata)
}

/// Projects a payment into the normalized input the rule interpreter and
/// the constraint graph consume. Metadata that fails to decode is treated
/// as absent; absent fields stay absent.
pub fn make_dsl_input(payment_data: &PaymentData) -> (r: RoutingResult<BackendInput>)
    ensures
        r is Ok,
        r matches Ok(inp) ==> spec_backend_input_matches(*payment_data, inp),
{
    let mandate = match &payment_data.setup_mandate {
        Some(m) => MandateData {
            mandate_acceptance_type: m.customer_acceptance,
            mandate_type: m.mandate_type,
            payment_type: Some(PaymentType::SetupMandate),
        },
        None => MandateData {
            mandate_acceptance_type: None,
            mandate_type: None,
            payment_type: Some(PaymentType::NonMandate),
        },
    };
    let payment_method = PaymentMethodInput {
        payment_method: payment_data.payment_attempt.payment_method,
        payment_method_type: payment_data.payment_attempt.payment_method_type,
        card_network: match &payment_data.payment_method_data {
            Some(PaymentMethodData::Card { card_number: _, card_network }) => *card_network,
            _ => None,
        },
    };
    let payment = PaymentInput {
        amount: payment_data.payment_intent.amount,
        currency: payment_data.currency,
        card_bin: build_card_bin(&payment_data.payment_method_data),
        authentication_type: payment_data.payment_attempt.authentication_type,
        capture_method: payment_data.payment_attempt.capture_method,
        business_country: country_opt(&payment_data.payment_intent.business_country),
        billing_country: country_opt(&payment_data.billing_country_code),
        business_label: match &payment_data.payment_intent.business_label {
            Some(l) => Some(l.clone()),
            None => None,
        },
        setup_future_usage: payment_data.payment_intent.setup_future_usage,
    };
    let metadata = build_metadata(&payment_data.payment_intent.metadata);
    Ok(BackendInput { payment, payment_method, mandate, metadata })
}

/// How a built input relates to the payout it was projected from.
pub open spec fn spec_payout_input_matches(pod: PayoutData, inp: BackendInput) -> bool {
    &&& inp.payment.amount == pod.payouts.amount
    &&& inp.payment.currency == pod.payouts.destination_currency
    &&& inp.payment.card_bin is None
    &&& inp.payment.authentication_type is None
    &&& inp.payment.capture_method is None
    &&& inp.payment.business_country == spec_country_opt(pod.payout_attempt.business_country)
    &&& inp.payment.billing_country == spec_country_opt(pod.billing_country_code)
    &&& inp.payment.business_label == pod.payout_attempt.business_label
    &&& inp.payment.setup_future_usage is None
    &&& inp.payment_method == PaymentMethodInput {
        payment_method: pod.payouts.payout_type,
        payment_method_type: pod.payout_method_type,
        card_network: None,
    }
    &&& inp.mandate == MandateData {
        mandate_acceptance_type: None,
        mandate_type: None,
        payment_type: None,
    }
    &&& spec_metadata_matches(pod.payouts.metadata, inp.metadata)
}

/// Projects a payout into the normalized input.
pub fn make_dsl_input_for_payouts(payout_data: &PayoutData) -> (r: RoutingResult<BackendInput>)
    ensures
        r is Ok,
        r matches Ok(inp) ==> spec_payout_input_matches(*payout_data, inp),
{
    let mandate = MandateData {
        mandate_acceptance_type: None,
        mandate_type: None,
        payment_type: None,
    };
    let metadata = build_metadata(&payout_data.payouts.metadata);
    let payment = PaymentInput {
        amount: payout_data.payouts.amount,
        currency: payout_data.payouts.destination_currency,
        card_bin: None,
        authentication_type: None,
        capture_method: None,
        business_country: country_opt(&payout_data.payout_attempt.business_country),
        billing_country: country_opt(&payout_data.billing_country_code),
        business_label: match &payout_data.payout_attempt.business_label {
            Some(l) => Some(l.clone()),
            None => None,
        },
        setup_future_usage: None,
    };
    let payment_method = PaymentMethodInput {
        payment_method: payout_data.payouts.payout_type,
        payment_method_type: payout_data.payout_method_type,
        card_network: None,
    };
    Ok(BackendInput { payment, payment_method, mandate, metadata })
}

/// How a built input relates to a transaction of either kind.
pub open spec fn spec_txdata_input_matches(txd: TransactionData, inp: BackendInput) -> bool {
    match txd {
        TransactionData::Payment(pd) => spec_backend_input_matches(pd, inp),
        TransactionData::Payout(pod) => spec_payout_input_matches(pod, inp),
    }
}

fn make_input_for_transaction(txd: &TransactionData) -> (r: RoutingResult<BackendInput>)
    ensures
        r is Ok,
        r matches Ok(inp) ==> spec_txdata_input_matches(*txd, inp),
{
    match txd {
        TransactionData::Payment(pd) => make_dsl_input(pd),
        TransactionData::Payout(pod) => make_dsl_input_for_payouts(pod),
    }
}

/// How the surcharge input relates to its records: the same projection as
/// a payment's, without payment-method or mandate data, with the currency
/// and capture method read straight from the attempt.
pub open spec fn spec_surcharge_input_matches(
    attempt: PaymentAttemptRecord,
    intent: PaymentIntentRecord,
    billing_country_code: Option<String>,
    inp: BackendInput,
) -> bool {
    &&& inp.payment.amount == attempt.amount
    &&& Some(inp.payment.currency) == attempt.currency
    &&& inp.payment.card_bin is None
    &&& inp.payment.authentication_type == attempt.authentication_type
    &&& inp.payment.capture_method == attempt.capture_method
    &&& inp.payment.business_country == spec_country_opt(intent.business_country)
    &&& inp.payment.billing_country == spec_country_opt(billing_country_code)
    &&& inp.payment.business_label == intent.business_label
    &&& inp.payment.setup_future_usage == intent.setup_future_usage
    &&& inp.payment_method == PaymentMethodInput {
        payment_method: None,
        payment_method_type: None,
        card_network: None,
    }
    &&& inp.mandate == MandateData {
        mandate_acceptance_type: None,
        mandate_type: None,
        payment_type: None,
    }
    &&& spec_metadata_matches(intent.metadata, inp.metadata)
}

/// Builds the input for surcharge evaluation. The attempt must carry a
/// currency; everything else is optional.
pub fn make_dsl_input_for_surcharge(
    payment_attempt: &PaymentAttemptRecord,
    payment_intent: &PaymentIntentRecord,
    billing_country_code: Option<String>,
) -> (r: RoutingResult<BackendInput>)
    ensures
        r is Ok <==> payment_attempt.currency is Some,
        r matches Ok(inp) ==> spec_surcharge_input_matches(
            *payment_attempt,
            *payment_intent,
            billing_country_code,
            inp,
        ),
        r matches Err(e) ==> (e matches RoutingError::DslMissingRequiredField { field_name }
            && field_name@ == "currency"@),
{
    let currency = match payment_attempt.currency {
        Some(c) => c,
        None => {
            return Err(
                RoutingError::DslMissingRequiredField {
                    field_name: String::from_str("currency"),
                },
            );
        },
    };
    let payment = PaymentInput {
        amount: payment_attempt.amount,
        currency,
        card_bin: None,
        authentication_type: payment_attempt.authentication_type,
        capture_method: payment_attempt.capture_method,
        business_country: country_opt(&payment_intent.business_country),
        billing_country: country_opt(&billing_country_code),
        business_label: match &payment_intent.business_label {
            Some(l) => Some(l.clone()),
            None => None,
        },
        setup_future_usage: payment_intent.setup_future_usage,
    };
    let metadata = build_metadata(&payment_intent.metadata);
    Ok(
        BackendInput {
            payment,
            payment_method: PaymentMethodInput {
                payment_method: None,
                payment_method_type: None,
                card_network: None,
            },
            mandate: MandateData {
                mandate_acceptance_type: None,
                mandate_type: None,
                payment_type: None,
            },
            metadata,
        },
    )
}

/// What a successful rule-program run must hand back: the program's
/// priority list as it stands, or a volume split of its split list.
pub open spec fn spec_dsl_ok(inp: BackendInput, p: Program, out: Seq<RoutableConnectorChoice>) -> bool {
    match spec_eval_program(inp, p) {
        Some(ConnectorSelection::Priority(l)) => out == l@,
        Some(ConnectorSelection::VolumeSplit(s)) => volume_split_ok(s@, out),
        _ => false,
    }
}

/// Runs a compiled rule program and normalizes its selection: a priority
/// list passes through, a volume split is drawn unseeded, and a single
/// selection is a misauthored program at this layer.
pub fn execute_dsl_and_get_connector_v1(backend_input: &BackendInput, interpreter: &Program) -> (r:
    RoutingResult<Vec<RoutableConnectorChoice>>)
    ensures
        spec_eval_program(*backend_input, *interpreter) is None ==> (r matches Err(e)
            && e is DslExecutionError),
        spec_eval_program(*backend_input, *interpreter) matches Some(sel) ==> match sel {
            ConnectorSelection::Single(_) => r matches Err(e)
                && e is DslIncorrectSelectionAlgorithm,
            ConnectorSelection::Priority(l) => r matches Ok(out) && out@ == l@,
            ConnectorSelection::VolumeSplit(s) => {
                &&& (r is Ok <==> 0 < volume_split_total(s@) <= u64::MAX)
                &&& (r matches Ok(out) ==> volume_split_ok(s@, out@))
                &&& (r matches Err(e) ==> e is DslFinalConnectorSelectionFailed)
            },
        },
        r matches Ok(out) ==> spec_dsl_ok(*backend_input, *interpreter, out@),
{
    let fired = match eval_program(backend_input, interpreter) {
        Ok(f) => f,
        Err(e) => {
            return Err(e);
        },
    };
    let selection = match fired {
        Some(i) => &interpreter.rules[i].selection,
        None => &interpreter.default_selection,
    };
    match selection {
        ConnectorSelection::Single(_) => Err(RoutingError::DslIncorrectSelectionAlgorithm),
        ConnectorSelection::Priority(l) => Ok(clone_choices(l)),
        ConnectorSelection::VolumeSplit(s) => match perform_volume_split(clone_splits(s), None) {
            Ok(out) => Ok(out),
            Err(_) => Err(RoutingError::DslFinalConnectorSelectionFailed),
        },
    }
}

/// Straight-through routing: the algorithm comes inline with the request,
/// so no cache or store is touched. A single choice defers to supplied
/// credentials; the other variants always request them.
pub fn perform_straight_through_routing(
    algorithm: &StraightThroughAlgorithm,
    creds_identifier: Option<String>,
) -> (r: RoutingResult<(Vec<RoutableConnectorChoice>, bool)>)
    ensures
        match *algorithm {
            StraightThroughAlgorithm::Single(c) => r matches Ok(out) && out.0@ == seq![c] && out.1
                == creds_identifier is None,
            StraightThroughAlgorithm::Priority(l) => r matches Ok(out) && out.0@ == l@ && out.1,
            StraightThroughAlgorithm::VolumeSplit(s) => {
                &&& (r is Ok <==> 0 < volume_split_total(s@) <= u64::MAX)
                &&& (r matches Ok(out) ==> volume_split_ok(s@, out.0@) && out.1)
                &&& (r matches Err(e) ==> e is ConnectorSelectionFailed)
            },
        },
{
    match algorithm {
        StraightThroughAlgorithm::Single(conn) => {
            let mut out: Vec<RoutableConnectorChoice> = Vec::new();
            out.push(conn.clone());
            proof {
                assert(out@ =~= seq![*conn]);
            }
            Ok((out, creds_identifier.is_none()))
        },
        StraightThroughAlgorithm::Priority(conns) => Ok((clone_choices(conns), true)),
        StraightThroughAlgorithm::VolumeSplit(splits) => match perform_volume_split(
            clone_splits(splits),
            None,
        ) {
            Ok(out) => Ok((out, true)),
            Err(_) => Err(RoutingError::ConnectorSelectionFailed),
        },
    }
}

/// The compiled algorithm the cache holds for this merchant, profile and
/// transaction type.
pub open spec fn spec_cached_algorithm(
    state: SessionState,
    merchant_id: Seq<char>,
    profile_id: Seq<char>,
    tx: TransactionType,
) -> Option<CachedAlgorithm> {
    cache_lookup(
        state.routing_cache.entries@,
        state.tenant_prefix@,
        spec_routing_key(merchant_id, profile_id, tx),
    )
}

/// How a compiled value relates to the stored algorithm it came from.
pub open spec fn spec_compiled_of(alg: RoutingAlgorithm, v: CachedAlgorithm) -> bool {
    match alg {
        RoutingAlgorithm::Single(c) => v == CachedAlgorithm::Single(c),
        RoutingAlgorithm::Priority(l) => v == CachedAlgorithm::Priority(l) && l@.len() > 0,
        RoutingAlgorithm::VolumeSplit(s) => v == CachedAlgorithm::VolumeSplit(s)
            && spec_splits_complete(s@),
        RoutingAlgorithm::Advanced(p) => v == CachedAlgorithm::Advanced(p) && spec_program_valid(p),
    }
}

/// The nothing-but-the-routing-cache-changed frame of a cache refresh.
pub open spec fn spec_routing_cache_frame(old_state: SessionState, new_state: SessionState) -> bool {
    &&& new_state.store == old_state.store
    &&& new_state.tenant_prefix@ == old_state.tenant_prefix@
    &&& new_state.cgraph_cache.entries@ == old_state.cgraph_cache.entries@
}

/// Unconditionally reloads one algorithm from the store, compiles it, and
/// publishes it under the key. It succeeds exactly when the row exists,
/// decodes and compiles; nothing is published otherwise, and each error
/// names its cause.
pub fn refresh_routing_cache_v1(
    state: &mut SessionState,
    key: CacheKey,
    algorithm_id: &String,
    profile_id: &String,
) -> (r: RoutingResult<()>)
    ensures
        spec_routing_cache_frame(*old(state), *final(state)),
        r is Ok <==> (spec_find_algorithm(
            old(state).store.algorithms@,
            profile_id@,
            algorithm_id@,
        ) matches Some(row) && exists|alg: RoutingAlgorithm| #[trigger] spec_algorithm_decodes(
            row.algorithm_data,
            alg,
        ) && spec_algorithm_compiles(alg)),
        r matches Err(e) ==> {
            &&& final(state).routing_cache.entries@ == old(state).routing_cache.entries@
            &&& (e is DslMissingInDb || e is DslParsingError || e is DslBackendInitError)
            &&& (e is DslMissingInDb <==> spec_find_algorithm(
                old(state).store.algorithms@,
                profile_id@,
                algorithm_id@,
            ) is None)
            &&& (e is DslParsingError <==> (spec_find_algorithm(
                old(state).store.algorithms@,
                profile_id@,
                algorithm_id@,
            ) matches Some(row) && (spec_algorithm_fail(row.algorithm_data) || exists|
                alg: RoutingAlgorithm,
            | #[trigger] spec_algorithm_decodes(row.algorithm_data, alg) && spec_parse_invalid(
                alg,
            ))))
            &&& (e is DslBackendInitError <==> (spec_find_algorithm(
                old(state).store.algorithms@,
                profile_id@,
                algorithm_id@,
            ) matches Some(row) && exists|alg: RoutingAlgorithm| #[trigger] spec_algorithm_decodes(
                row.algorithm_data,
                alg,
            ) && alg is Advanced && !spec_algorithm_compiles(alg)))
        },
        r is Ok ==> {
            &&& spec_find_algorithm(
                old(state).store.algorithms@,
                profile_id@,
                algorithm_id@,
            ) matches Some(row)
            &&& exists|alg: RoutingAlgorithm, v: CachedAlgorithm|
                {
                    &&& spec_algorithm_decodes(row.algorithm_data, alg)
                    &&& spec_compiled_of(alg, v)
                    &&& final(state).routing_cache.entries@ == old(
                        state,
                    ).routing_cache.entries@.insert(0, (key, v))
                }
        },
{
    let row = match find_routing_algorithm_by_profile_id_algorithm_id(
        &state.store.algorithms,
        profile_id,
        algorithm_id,
    ) {
        Some(row) => row,
        None => {
            return Err(RoutingError::DslMissingInDb);
        },
    };
    let ghost gdata = row.algorithm_data;
    let algorithm = match decode_algorithm(&row.algorithm_data) {
        Some(alg) => alg,
        None => {
            proof {
                if exists|alg: RoutingAlgorithm| spec_algorithm_decodes(gdata, alg) {
                    let alg = choose|alg: RoutingAlgorithm| spec_algorithm_decodes(gdata, alg);
                    lemma_algorithm_decode_excludes_fail(gdata, alg);
                }
            }
            return Err(RoutingError::DslParsingError);
        },
    };
    let ghost galg = algorithm;
    let cached = match compile_algorithm(algorithm) {
        Ok(v) => v,
        Err(e) => {
            proof {
                lemma_algorithm_decode_excludes_fail(gdata, galg);
                assert forall|alg: RoutingAlgorithm| #[trigger] spec_algorithm_decodes(
                    gdata,
                    alg,
                ) implies {
                    &&& spec_algorithm_compiles(alg) == spec_algorithm_compiles(galg)
                    &&& spec_parse_invalid(alg) == spec_parse_invalid(galg)
                    &&& (alg is Advanced) == (galg is Advanced)
                } by {
                    lemma_algorithm_decode_congruent(gdata, galg, alg);
                };
            }
            return Err(e);
        },
    };
    let ghost gv = cached;
    state.routing_cache.push(key, cached);
    proof {
        assert(spec_compiled_of(galg, gv));
        assert(spec_algorithm_compiles(galg));
    }
    Ok(())
}

/// Looks the compiled algorithm up, loading and publishing it on a miss.
/// Success is owed on a hit, and on a miss exactly when the row exists,
/// decodes and compiles; only fully compiled entries ever become visible.
pub fn ensure_algorithm_cached_v1(
    state: &mut SessionState,
    merchant_id: &String,
    algorithm_id: &String,
    profile_id: &String,
    transaction_type: TransactionType,
) -> (r: RoutingResult<()>)
    ensures
        spec_routing_cache_frame(*old(state), *final(state)),
        r is Ok <==> (spec_cached_algorithm(
            *old(state),
            merchant_id@,
            profile_id@,
            transaction_type,
        ) is Some || (spec_find_algorithm(
            old(state).store.algorithms@,
            profile_id@,
            algorithm_id@,
        ) matches Some(row) && exists|alg: RoutingAlgorithm| #[trigger] spec_algorithm_decodes(
            row.algorithm_data,
            alg,
        ) && spec_algorithm_compiles(alg))),
        r matches Err(e) ==> {
            &&& final(state).routing_cache.entries@ == old(state).routing_cache.entries@
            &&& (e is DslMissingInDb || e is DslParsingError || e is DslBackendInitError)
            &&& (e is DslMissingInDb <==> spec_find_algorithm(
                old(state).store.algorithms@,
                profile_id@,
                algorithm_id@,
            ) is None)
            &&& (e is DslParsingError <==> (spec_find_algorithm(
                old(state).store.algorithms@,
                profile_id@,
                algorithm_id@,
            ) matches Some(row) && (spec_algorithm_fail(row.algorithm_data) || exists|
                alg: RoutingAlgorithm,
            | #[trigger] spec_algorithm_decodes(row.algorithm_data, alg) && spec_parse_invalid(
                alg,
            ))))
            &&& (e is DslBackendInitError <==> (spec_find_algorithm(
                old(state).store.algorithms@,
                profile_id@,
                algorithm_id@,
            ) matches Some(row) && exists|alg: RoutingAlgorithm| #[trigger] spec_algorithm_decodes(
                row.algorithm_data,
                alg,
            ) && alg is Advanced && !spec_algorithm_compiles(alg)))
        },
        r is Ok ==> spec_cached_algorithm(
            *final(state),
            merchant_id@,
            profile_id@,
            transaction_type,
        ) is Some,
        r is Ok ==> match spec_cached_algorithm(
            *old(state),
            merchant_id@,
            profile_id@,
            transaction_type,
        ) {
            Some(v) => final(state).routing_cache.entries@ == old(state).routing_cache.entries@
                && spec_cached_algorithm(
                *final(state),
                merchant_id@,
                profile_id@,
                transaction_type,
            ) == Some(v),
            None => {
                &&& spec_find_algorithm(
                    old(state).store.algorithms@,
                    profile_id@,
                    algorithm_id@,
                ) matches Some(row)
                &&& exists|alg: RoutingAlgorithm, v: CachedAlgorithm|
                    {
                        &&& spec_algorithm_decodes(row.algorithm_data, alg)
                        &&& spec_compiled_of(alg, v)
                        &&& spec_cached_algorithm(
                            *final(state),
                            merchant_id@,
                            profile_id@,
                            transaction_type,
                        ) == Some(v)
                    }
            },
        },
{
    let key = CacheKey {
        prefix: state.tenant_prefix.clone(),
        key: make_routing_key(merchant_id.as_str(), profile_id.as_str(), transaction_type),
    };
    let hit = match state.routing_cache.get_val(&key) {
        Some(_) => true,
        None => false,
    };
    if hit {
        return Ok(());
    }
    refresh_routing_cache_v1(state, key, algorithm_id, profile_id)
}

/// The compiled constraint graph the cache holds for this merchant,
/// profile and transaction type.
pub open spec fn spec_cached_cgraph(
    state: SessionState,
    merchant_id: Seq<char>,
    profile_id: Seq<char>,
    tx: TransactionType,
) -> Option<CompiledCGraph> {
    cache_lookup(
        state.cgraph_cache.entries@,
        state.tenant_prefix@,
        spec_cgraph_key(merchant_id, profile_id, tx),
    )
}

/// A graph means exactly what the merchant's accounts and filters say.
pub open spec fn spec_graph_matches(
    g: CompiledCGraph,
    mcas: Seq<MerchantConnectorAccount>,
    fcfg: CountryCurrencyFilter,
    tx: TransactionType,
    profile: Option<String>,
) -> bool {
    forall|name: Seq<char>, inp: BackendInput| #[trigger] spec_check_validity(g, inp, name)
        == spec_connector_eligible(mcas, fcfg, tx, profile, name, inp)
}

/// The first filter key that names no routable connector; the `default`
/// key is not a connector name.
pub open spec fn spec_first_invalid_filter_key(
    entries: Seq<(String, crate::cgraph::PaymentMethodFilter)>,
    registry: Seq<String>,
) -> Option<String>
    decreases entries.len(),
{
    if entries.len() == 0 {
        None
    } else if entries[0].0@ != "default"@ && !spec_string_in(registry, entries[0].0@) {
        Some(entries[0].0)
    } else {
        spec_first_invalid_filter_key(entries.drop_first(), registry)
    }
}

/// The nothing-but-the-cgraph-cache-changed frame of a cache refresh.
pub open spec fn spec_cgraph_cache_frame(old_state: SessionState, new_state: SessionState) -> bool {
    &&& new_state.store == old_state.store
    &&& new_state.tenant_prefix@ == old_state.tenant_prefix@
    &&& new_state.routing_cache.entries@ == old_state.routing_cache.entries@
}

/// Rebuilds the constraint graph from the store and publishes it. A
/// filter entry naming an unknown connector rejects the whole rebuild and
/// publishes nothing.
#[verifier::loop_isolation(false)]
pub fn refresh_cgraph_cache(
    state: &mut SessionState,
    key: CacheKey,
    profile_id: &String,
    transaction_type: TransactionType,
) -> (r: RoutingResult<()>)
    ensures
        spec_cgraph_cache_frame(*old(state), *final(state)),
        r matches Err(e) ==> {
            &&& final(state).cgraph_cache.entries@ == old(state).cgraph_cache.entries@
            &&& spec_first_invalid_filter_key(
                old(state).store.pm_filters.entries@,
                old(state).store.routable_connectors@,
            ) matches Some(bad)
            &&& (e matches RoutingError::InvalidConnectorName { name } && name@ == bad@)
        },
        r is Ok ==> {
            &&& spec_first_invalid_filter_key(
                old(state).store.pm_filters.entries@,
                old(state).store.routable_connectors@,
            ) is None
            &&& exists|g: CompiledCGraph|
                {
                    &&& spec_graph_matches(
                        g,
                        old(state).store.merchant_connector_accounts@,
                        old(state).store.pm_filters,
                        transaction_type,
                        Some(*profile_id),
                    )
                    &&& final(state).cgraph_cache.entries@ == old(
                        state,
                    ).cgraph_cache.entries@.insert(0, (key, g))
                }
        },
{
    let entries_len = state.store.pm_filters.entries.len();
    let ghost gentries = state.store.pm_filters.entries@;
    let ghost gregistry = state.store.routable_connectors@;
    proof {
        assert(gentries.subrange(0, gentries.len() as int) =~= gentries);
    }
    let mut i: usize = 0;
    while i < entries_len
        invariant
            i <= gentries.len(),
            entries_len == gentries.len(),
            state == old(state),
            state.store.pm_filters.entries@ == gentries,
            state.store.routable_connectors@ == gregistry,
            spec_first_invalid_filter_key(gentries, gregistry) == spec_first_invalid_filter_key(
                gentries.subrange(i as int, gentries.len() as int),
                gregistry,
            ),
        decreases gentries.len() - i,
    {
        let ghost rest = gentries.subrange(i as int, gentries.len() as int);
        proof {
            assert(rest.drop_first() =~= gentries.subrange(i as int + 1, gentries.len() as int));
            assert(rest[0] == gentries[i as int]);
        }
        let entry_key = &state.store.pm_filters.entries[i].0;
        if !crate::enums::str_is(entry_key.as_str(), "default") && !string_in(
            &state.store.routable_connectors,
            entry_key,
        ) {
            return Err(RoutingError::InvalidConnectorName { name: entry_key.clone() });
        }
        i += 1;
    }
    proof {
        assert(gentries.subrange(gentries.len() as int, gentries.len() as int) =~= Seq::<
            (String, crate::cgraph::PaymentMethodFilter),
        >::empty());
    }
    let profile = Some(profile_id.clone());
    let graph = make_mca_graph(
        &state.store.merchant_connector_accounts,
        &state.store.pm_filters,
        &profile,
        transaction_type,
    );
    let ghost gg = graph;
    let ghost gprofile = profile;
    state.cgraph_cache.push(key, graph);
    proof {
        assert(gprofile == Some(*profile_id));
        assert(spec_graph_matches(
            gg,
            old(state).store.merchant_connector_accounts@,
            old(state).store.pm_filters,
            transaction_type,
            Some(*profile_id),
        ));
    }
    Ok(())
}

/// Looks the merchant's constraint graph up, building and publishing it
/// on a miss.
pub fn get_merchant_cgraph(
    state: &mut SessionState,
    merchant_id: &String,
    profile_id: &String,
    transaction_type: TransactionType,
) -> (r: RoutingResult<()>)
    ensures
        spec_cgraph_cache_frame(*old(state), *final(state)),
        r is Ok <==> (spec_cached_cgraph(*old(state), merchant_id@, profile_id@, transaction_type)
            is Some || spec_first_invalid_filter_key(
            old(state).store.pm_filters.entries@,
            old(state).store.routable_connectors@,
        ) is None),
        r matches Err(e) ==> {
            &&& final(state).cgraph_cache.entries@ == old(state).cgraph_cache.entries@
            &&& spec_first_invalid_filter_key(
                old(state).store.pm_filters.entries@,
                old(state).store.routable_connectors@,
            ) matches Some(bad)
            &&& (e matches RoutingError::InvalidConnectorName { name } && name@ == bad@)
        },
        r is Ok ==> spec_cached_cgraph(
            *final(state),
            merchant_id@,
            profile_id@,
            transaction_type,
        ) is Some,
        r is Ok ==> match spec_cached_cgraph(
            *old(state),
            merchant_id@,
            profile_id@,
            transaction_type,
        ) {
            Some(g) => final(state).cgraph_cache.entries@ == old(state).cgraph_cache.entries@
                && spec_cached_cgraph(
                *final(state),
                merchant_id@,
                profile_id@,
                transaction_type,
            ) == Some(g),
            None => exists|g: CompiledCGraph|
                {
                    &&& spec_graph_matches(
                        g,
                        old(state).store.merchant_connector_accounts@,
                        old(state).store.pm_filters,
                        transaction_type,
                        Some(*profile_id),
                    )
                    &&& spec_cached_cgraph(
                        *final(state),
                        merchant_id@,
                        profile_id@,
                        transaction_type,
                    ) == Some(g)
                },
        },
{
    let key = CacheKey {
        prefix: state.tenant_prefix.clone(),
        key: make_cgraph_key(merchant_id.as_str(), profile_id.as_str(), transaction_type),
    };
    let hit = match state.cgraph_cache.get_val(&key) {
        Some(_) => true,
        None => false,
    };
    if hit {
        return Ok(());
    }
    refresh_cgraph_cache(state, key, profile_id, transaction_type)
}

/// The order-preserving filter of a candidate list: the candidates the
/// graph admits that the allow-list, when one was supplied, names.
pub open spec fn spec_filter_pred_fn(
    g: CompiledCGraph,
    inp: BackendInput,
    allowed: Option<Vec<String>>,
) -> spec_fn(RoutableConnectorChoice) -> bool {
    |c: RoutableConnectorChoice| spec_filter_pred(g, inp, allowed, c)
}

pub open spec fn spec_filtered(
    g: CompiledCGraph,
    inp: BackendInput,
    allowed: Option<Vec<String>>,
    s: Seq<RoutableConnectorChoice>,
) -> Seq<RoutableConnectorChoice> {
    s.filter(spec_filter_pred_fn(g, inp, allowed))
}

/// Whether one candidate survives filtering: the graph admits it and the
/// caller's allow-list, when one was supplied, names it.
pub open spec fn spec_filter_pred(
    g: CompiledCGraph,
    inp: BackendInput,
    allowed: Option<Vec<String>>,
    c: RoutableConnectorChoice,
) -> bool {
    &&& spec_check_validity(g, inp, c.connector@)
    &&& match allowed {
        None => true,
        Some(l) => spec_string_in(l@, c.connector@),
    }
}

/// Filters candidates through the merchant's constraint graph and the
/// caller's allow-list; input order is preserved.
#[verifier::loop_isolation(false)]
pub fn perform_cgraph_filtering(
    state: &mut SessionState,
    merchant_id: &String,
    chosen: Vec<RoutableConnectorChoice>,
    backend_input: &BackendInput,
    eligible_connectors: Option<&Vec<String>>,
    profile_id: &String,
    transaction_type: TransactionType,
) -> (r: RoutingResult<Vec<RoutableConnectorChoice>>)
    ensures
        spec_cgraph_cache_frame(*old(state), *final(state)),
        r is Ok <==> (spec_cached_cgraph(*old(state), merchant_id@, profile_id@, transaction_type)
            is Some || spec_first_invalid_filter_key(
            old(state).store.pm_filters.entries@,
            old(state).store.routable_connectors@,
        ) is None),
        r matches Err(e) ==> (spec_first_invalid_filter_key(
            old(state).store.pm_filters.entries@,
            old(state).store.routable_connectors@,
        ) matches Some(bad) && (e matches RoutingError::InvalidConnectorName { name } && name@
            == bad@)),
        spec_cached_cgraph(*old(state), merchant_id@, profile_id@, transaction_type) is Some
            ==> final(state).cgraph_cache.entries@ == old(state).cgraph_cache.entries@,
        r is Ok ==> match spec_cached_cgraph(
            *old(state),
            merchant_id@,
            profile_id@,
            transaction_type,
        ) {
            Some(g0) => spec_cached_cgraph(
                *final(state),
                merchant_id@,
                profile_id@,
                transaction_type,
            ) == Some(g0),
            None => spec_cached_cgraph(
                *final(state),
                merchant_id@,
                profile_id@,
                transaction_type,
            ) matches Some(g) && spec_graph_matches(
                g,
                old(state).store.merchant_connector_accounts@,
                old(state).store.pm_filters,
                transaction_type,
                Some(*profile_id),
            ),
        },
        r matches Ok(out) ==> {
            &&& spec_cached_cgraph(
                *final(state),
                merchant_id@,
                profile_id@,
                transaction_type,
            ) matches Some(g)
            &&& out@ == spec_filtered(
                g,
                *backend_input,
                match eligible_connectors {
                    Some(l) => Some(*l),
                    None => None,
                },
                chosen@,
            )
        },
{
    match get_merchant_cgraph(state, merchant_id, profile_id, transaction_type) {
        Ok(()) => {},
        Err(e) => {
            return Err(e);
        },
    }
    let key = CacheKey {
        prefix: state.tenant_prefix.clone(),
        key: make_cgraph_key(merchant_id.as_str(), profile_id.as_str(), transaction_type),
    };
    let graph = match state.cgraph_cache.get_val(&key) {
        Some(g) => g,
        None => {
            proof {
                assert(false);
            }
            return Err(RoutingError::KgraphAnalysisError);
        },
    };
    let ghost gg = *graph;
    let ghost gallowed: Option<Vec<String>> = match eligible_connectors {
        Some(l) => Some(*l),
        None => None,
    };
    let mut out: Vec<RoutableConnectorChoice> = Vec::new();
    let mut i: usize = 0;
    let n = chosen.len();
    while i < n
        invariant
            i <= n,
            n == chosen@.len(),
            out@ == spec_filtered(gg, *backend_input, gallowed, chosen@.subrange(0, i as int)),
        decreases n - i,
    {
        let cgraph_eligible = check_value_validity(graph, backend_input, &chosen[i]);
        let allow_eligible = match eligible_connectors {
            None => true,
            Some(l) => string_in(l, &chosen[i].connector),
        };
        if cgraph_eligible && allow_eligible {
            out.push(chosen[i].clone());
        }
        i += 1;
        proof {
            reveal(Seq::filter);
            assert(chosen@.subrange(0, i as int).drop_last() =~= chosen@.subrange(0, i as int - 1));
            assert(chosen@.subrange(0, i as int).last() == chosen@[i - 1]);
        }
    }
    proof {
        assert(chosen@.subrange(0, n as int) =~= chosen@);
    }
    Ok(out)
}

/// Filters a caller-chosen candidate list against the merchant's
/// constraint graph for this transaction; a missing profile id on a
/// payment is rejected before anything else.
pub fn perform_eligibility_analysis(
    state: &mut SessionState,
    merchant_id: &String,
    chosen: Vec<RoutableConnectorChoice>,
    transaction_data: &TransactionData,
    eligible_connectors: Option<&Vec<String>>,
    profile_id: &Option<String>,
) -> (r: RoutingResult<Vec<RoutableConnectorChoice>>)
    ensures
        spec_cgraph_cache_frame(*old(state), *final(state)),
        (r matches Err(e) && e is ProfileIdMissing) <==> profile_id is None,
        r matches Err(e) ==> (e is ProfileIdMissing || (spec_first_invalid_filter_key(
            old(state).store.pm_filters.entries@,
            old(state).store.routable_connectors@,
        ) matches Some(bad) && (e matches RoutingError::InvalidConnectorName { name } && name@
            == bad@))),
        profile_id matches Some(pid) ==> (r is Ok <==> (spec_cached_cgraph(
            *old(state),
            merchant_id@,
            pid@,
            spec_transaction_type(*transaction_data),
        ) is Some || spec_first_invalid_filter_key(
            old(state).store.pm_filters.entries@,
            old(state).store.routable_connectors@,
        ) is None)),
        profile_id matches Some(pid) ==> (spec_cached_cgraph(
            *old(state),
            merchant_id@,
            pid@,
            spec_transaction_type(*transaction_data),
        ) is Some ==> final(state).cgraph_cache.entries@ == old(state).cgraph_cache.entries@),
        profile_id matches Some(pid) ==> (r is Ok ==> match spec_cached_cgraph(
            *old(state),
            merchant_id@,
            pid@,
            spec_transaction_type(*transaction_data),
        ) {
            Some(g0) => spec_cached_cgraph(
                *final(state),
                merchant_id@,
                pid@,
                spec_transaction_type(*transaction_data),
            ) == Some(g0),
            None => spec_cached_cgraph(
                *final(state),
                merchant_id@,
                pid@,
                spec_transaction_type(*transaction_data),
            ) matches Some(g) && spec_graph_matches(
                g,
                old(state).store.merchant_connector_accounts@,
                old(state).store.pm_filters,
                spec_transaction_type(*transaction_data),
                Some(*pid),
            ),
        }),
        r matches Ok(out) ==> profile_id matches Some(pid) && exists|inp: BackendInput|
            {
                &&& #[trigger] spec_txdata_input_matches(*transaction_data, inp)
                &&& spec_cached_cgraph(
                    *final(state),
                    merchant_id@,
                    pid@,
                    spec_transaction_type(*transaction_data),
                ) matches Some(g)
                &&& out@ == spec_filtered(
                    g,
                    inp,
                    match eligible_connectors {
                        Some(l) => Some(*l),
                        None => None,
                    },
                    chosen@,
                )
            },
{
    let pid = match profile_id {
        Some(p) => p,
        None => {
            return Err(RoutingError::ProfileIdMissing);
        },
    };
    let backend_input = match make_input_for_transaction(transaction_data) {
        Ok(inp) => inp,
        Err(e) => {
            return Err(e);
        },
    };
    let tx = transaction_type_of(transaction_data);
    perform_cgraph_filtering(
        state,
        merchant_id,
        chosen,
        &backend_input,
        eligible_connectors,
        pid,
        tx,
    )
}

/// Runs the merchant's default fallback configuration through the same
/// eligibility filter.
pub fn perform_fallback_routing(
    state: &mut SessionState,
    merchant_id: &String,
    transaction_data: &TransactionData,
    eligible_connectors: Option<&Vec<String>>,
    profile_id: &Option<String>,
) -> (r: RoutingResult<Vec<RoutableConnectorChoice>>)
    ensures
        spec_cgraph_cache_frame(*old(state), *final(state)),
        (r matches Err(e) && e is ProfileIdMissing) <==> profile_id is None,
        r matches Err(e) ==> (e is ProfileIdMissing || e is FallbackConfigFetchFailed
            || e is InvalidConnectorName),
        profile_id matches Some(pid) ==> (spec_cached_cgraph(
            *old(state),
            merchant_id@,
            pid@,
            spec_transaction_type(*transaction_data),
        ) is Some ==> final(state).cgraph_cache.entries@ == old(state).cgraph_cache.entries@),
        profile_id matches Some(pid) ==> (r matches Err(e) ==> (e is FallbackConfigFetchFailed
            <==> spec_merchant_default_config(
            old(state).store.default_configs@,
            pid@,
            spec_transaction_type(*transaction_data),
        ) is None)),
        profile_id matches Some(pid) ==> ((spec_merchant_default_config(
            old(state).store.default_configs@,
            pid@,
            spec_transaction_type(*transaction_data),
        ) is Some && (spec_cached_cgraph(
            *old(state),
            merchant_id@,
            pid@,
            spec_transaction_type(*transaction_data),
        ) is Some || spec_first_invalid_filter_key(
            old(state).store.pm_filters.entries@,
            old(state).store.routable_connectors@,
        ) is None)) ==> r is Ok),
        r matches Ok(out) ==> profile_id matches Some(pid) && exists|inp: BackendInput|
            {
                &&& #[trigger] spec_txdata_input_matches(*transaction_data, inp)
                &&& spec_merchant_default_config(
                    old(state).store.default_configs@,
                    pid@,
                    spec_transaction_type(*transaction_data),
                ) matches Some(cfg)
                &&& spec_cached_cgraph(
                    *final(state),
                    merchant_id@,
                    pid@,
                    spec_transaction_type(*transaction_data),
                ) matches Some(g)
                &&& out@ == spec_filtered(
                    g,
                    inp,
                    match eligible_connectors {
                        Some(l) => Some(*l),
                        None => None,
                    },
                    cfg@,
                )
            },
{
    let pid = match profile_id {
        Some(p) => p,
        None => {
            return Err(RoutingError::ProfileIdMissing);
        },
    };
    let tx = transaction_type_of(transaction_data);
    let fallback_config = match get_merchant_default_config(&state.store.default_configs, pid, tx) {
        Some(cfg) => clone_choices(cfg),
        None => {
            return Err(RoutingError::FallbackConfigFetchFailed);
        },
    };
    let backend_input = match make_input_for_transaction(transaction_data) {
        Ok(inp) => inp,
        Err(e) => {
            return Err(e);
        },
    };
    perform_cgraph_filtering(
        state,
        merchant_id,
        fallback_config,
        &backend_input,
        eligible_connectors,
        pid,
        tx,
    )
}

/// Primary first, then fallback entries not already present; order within
/// each half is preserved.
pub open spec fn spec_dedup_append(
    primary: Seq<RoutableConnectorChoice>,
    fb: Seq<RoutableConnectorChoice>,
) -> Seq<RoutableConnectorChoice>
    decreases fb.len(),
{
    if fb.len() == 0 {
        primary
    } else if choice_in(primary, fb[0]) {
        spec_dedup_append(primary, fb.drop_first())
    } else {
        spec_dedup_append(primary.push(fb[0]), fb.drop_first())
    }
}

/// Eligibility analysis with fallback: the filtered primary candidates,
/// followed by the filtered default-configuration candidates that are not
/// already present. A fallback fetch failure is soft and contributes an
/// empty fallback.
#[verifier::loop_isolation(false)]
pub fn perform_eligibility_analysis_with_fallback(
    state: &mut SessionState,
    merchant_id: &String,
    chosen: Vec<RoutableConnectorChoice>,
    transaction_data: &TransactionData,
    eligible_connectors: Option<Vec<String>>,
    profile_id: &Option<String>,
) -> (r: RoutingResult<Vec<RoutableConnectorChoice>>)
    ensures
        spec_cgraph_cache_frame(*old(state), *final(state)),
        (r matches Err(e) && e is ProfileIdMissing) <==> profile_id is None,
        r matches Err(e) ==> (e is ProfileIdMissing || (spec_first_invalid_filter_key(
            old(state).store.pm_filters.entries@,
            old(state).store.routable_connectors@,
        ) matches Some(bad) && (e matches RoutingError::InvalidConnectorName { name } && name@
            == bad@))),
        profile_id matches Some(pid) ==> (r is Ok <==> (spec_cached_cgraph(
            *old(state),
            merchant_id@,
            pid@,
            spec_transaction_type(*transaction_data),
        ) is Some || spec_first_invalid_filter_key(
            old(state).store.pm_filters.entries@,
            old(state).store.routable_connectors@,
        ) is None)),
        profile_id matches Some(pid) ==> (r is Ok ==> match spec_cached_cgraph(
            *old(state),
            merchant_id@,
            pid@,
            spec_transaction_type(*transaction_data),
        ) {
            Some(g0) => spec_cached_cgraph(
                *final(state),
                merchant_id@,
                pid@,
                spec_transaction_type(*transaction_data),
            ) == Some(g0),
            None => spec_cached_cgraph(
                *final(state),
                merchant_id@,
                pid@,
                spec_transaction_type(*transaction_data),
            ) matches Some(g) && spec_graph_matches(
                g,
                old(state).store.merchant_connector_accounts@,
                old(state).store.pm_filters,
                spec_transaction_type(*transaction_data),
                Some(*pid),
            ),
        }),
        r matches Ok(out) ==> profile_id matches Some(pid) && exists|
            inp1: BackendInput,
            inp2: BackendInput,
            g: CompiledCGraph,
        |
            #![trigger spec_filtered(g, inp1, eligible_connectors, chosen@), spec_txdata_input_matches(*transaction_data, inp2)]
            {
                &&& spec_txdata_input_matches(*transaction_data, inp1)
                &&& spec_txdata_input_matches(*transaction_data, inp2)
                &&& spec_cached_cgraph(
                    *final(state),
                    merchant_id@,
                    pid@,
                    spec_transaction_type(*transaction_data),
                ) == Some(g)
                &&& out@ == spec_dedup_append(
                    spec_filtered(g, inp1, eligible_connectors, chosen@),
                    match spec_merchant_default_config(
                        old(state).store.default_configs@,
                        pid@,
                        spec_transaction_type(*transaction_data),
                    ) {
                        Some(cfg) => spec_filtered(g, inp2, eligible_connectors, cfg@),
                        None => Seq::empty(),
                    },
                )
            },
{
    let eligible_ref = match &eligible_connectors {
        Some(l) => Some(l),
        None => None,
    };
    let primary = match perform_eligibility_analysis(
        state,
        merchant_id,
        chosen,
        transaction_data,
        eligible_ref,
        profile_id,
    ) {
        Ok(out) => out,
        Err(e) => {
            return Err(e);
        },
    };
    let eligible_ref2 = match &eligible_connectors {
        Some(l) => Some(l),
        None => None,
    };
    let fallback = match perform_fallback_routing(
        state,
        merchant_id,
        transaction_data,
        eligible_ref2,
        profile_id,
    ) {
        Ok(out) => out,
        Err(_) => Vec::new(),
    };
    let ghost gprimary = primary@;
    let ghost gfb = fallback@;
    let mut out = primary;
    let mut i: usize = 0;
    let m = fallback.len();
    proof {
        assert(gfb.subrange(0, gfb.len() as int) =~= gfb);
    }
    while i < m
        invariant
            i <= m,
            m == gfb.len(),
            fallback@ == gfb,
            spec_dedup_append(gprimary, gfb) == spec_dedup_append(
                out@,
                gfb.subrange(i as int, gfb.len() as int),
            ),
        decreases m - i,
    {
        let ghost rest = gfb.subrange(i as int, gfb.len() as int);
        proof {
            assert(rest.drop_first() =~= gfb.subrange(i as int + 1, gfb.len() as int));
            assert(rest[0] == gfb[i as int]);
        }
        if !contains_choice(&out, &fallback[i]) {
            out.push(fallback[i].clone());
        }
        i += 1;
    }
    proof {
        assert(gfb.subrange(gfb.len() as int, gfb.len() as int) =~= Seq::<
            RoutableConnectorChoice,
        >::empty());
        assert(spec_dedup_append(gprimary, gfb) == out@);
    }
    Ok(out)
}

/// How a dispatched selection relates to the compiled algorithm it came
/// from: a single choice or a priority list passes through, a volume
/// split is a draw over its list, and an advanced program runs on the
/// transaction's normalized input.
pub open spec fn spec_dispatch_matches(
    v: CachedAlgorithm,
    txd: TransactionData,
    out: Seq<RoutableConnectorChoice>,
) -> bool {
    match v {
        CachedAlgorithm::Single(c) => out == seq![c],
        CachedAlgorithm::Priority(l) => out == l@,
        CachedAlgorithm::VolumeSplit(s) => volume_split_ok(s@, out),
        CachedAlgorithm::Advanced(p) => exists|inp: BackendInput|
            #[trigger] spec_txdata_input_matches(txd, inp) && spec_dsl_ok(inp, p, out),
    }
}

/// The profile id a transaction carries.
pub open spec fn spec_txdata_profile(txd: TransactionData) -> Option<String> {
    match txd {
        TransactionData::Payment(pd) => pd.payment_intent.profile_id,
        TransactionData::Payout(pod) => Some(pod.payout_attempt.profile_id),
    }
}

/// Whether dispatching this compiled value must succeed for this
/// transaction: fixed choices always do, a volume split when its total is
/// drawable, and a rule program when it evaluates to an accepted selection
/// on every input the transaction can project to.
pub open spec fn spec_dispatch_succeeds(v: CachedAlgorithm, txd: TransactionData) -> bool {
    match v {
        CachedAlgorithm::Single(_) => true,
        CachedAlgorithm::Priority(_) => true,
        CachedAlgorithm::VolumeSplit(s) => 0 < volume_split_total(s@) <= u64::MAX,
        CachedAlgorithm::Advanced(p) => forall|inp: BackendInput|
            #[trigger] spec_txdata_input_matches(txd, inp) ==> match spec_eval_program(inp, p) {
                Some(ConnectorSelection::Priority(_)) => true,
                Some(ConnectorSelection::VolumeSplit(s)) => 0 < volume_split_total(s@)
                    <= u64::MAX,
                _ => false,
            },
    }
}

/// A compiled value carries its source's invariants.
pub proof fn lemma_compiled_of(alg: RoutingAlgorithm, v: CachedAlgorithm)
    requires
        spec_compiled_of(alg, v),
    ensures
        spec_algorithm_compiles(alg),
        v matches CachedAlgorithm::VolumeSplit(s) ==> spec_splits_complete(s@),
        v matches CachedAlgorithm::Advanced(p) ==> spec_program_valid(p),
{
}

/// When static routing on the algorithm-id path owes success: the resolved
/// compiled value (cached, or loaded and compiled from the stored row)
/// dispatches without fault.
pub open spec fn spec_resolution_succeeds(
    state: SessionState,
    merchant_id: Seq<char>,
    profile_id: Seq<char>,
    algorithm_id: Seq<char>,
    txd: TransactionData,
) -> bool {
    match spec_cached_algorithm(state, merchant_id, profile_id, spec_transaction_type(txd)) {
        Some(v) => spec_dispatch_succeeds(v, txd),
        None => {
            &&& spec_find_algorithm(
                state.store.algorithms@,
                profile_id,
                algorithm_id,
            ) matches Some(row)
            &&& (exists|alg: RoutingAlgorithm| #[trigger] spec_algorithm_decodes(
                row.algorithm_data,
                alg,
            ) && spec_algorithm_compiles(alg))
            &&& (forall|alg: RoutingAlgorithm, v: CachedAlgorithm|
                #![trigger spec_algorithm_decodes(row.algorithm_data, alg), spec_compiled_of(alg, v)]
                (spec_algorithm_decodes(row.algorithm_data, alg) && spec_compiled_of(alg, v))
                    ==> spec_dispatch_succeeds(v, txd))
        },
    }
}

/// Static routing: with no configured algorithm id the merchant's default
/// fallback configuration is returned unfiltered; otherwise the algorithm
/// is resolved through the cache (a hit is reused, a miss loads, decodes
/// and compiles the stored row) and dispatched by its compiled variant.
pub fn perform_static_routing_v1(
    state: &mut SessionState,
    merchant_id: &String,
    algorithm_ref: &RoutingAlgorithmRef,
    transaction_data: &TransactionData,
) -> (r: RoutingResult<Vec<RoutableConnectorChoice>>)
    ensures
        spec_routing_cache_frame(*old(state), *final(state)),
        spec_txdata_profile(*transaction_data) is None <==> (r matches Err(e)
            && e is ProfileIdMissing),
        r matches Err(e) ==> (e is ProfileIdMissing || e is FallbackConfigFetchFailed
            || e is DslMissingInDb || e is DslParsingError || e is DslBackendInitError
            || e is ConnectorSelectionFailed || e is DslExecutionError
            || e is DslIncorrectSelectionAlgorithm || e is DslFinalConnectorSelectionFailed),
        (algorithm_ref.algorithm_id is None || spec_txdata_profile(*transaction_data) is None)
            ==> final(state).routing_cache.entries@ == old(state).routing_cache.entries@,
        spec_txdata_profile(*transaction_data) matches Some(pid) ==> (
        algorithm_ref.algorithm_id is None ==> match spec_merchant_default_config(
            old(state).store.default_configs@,
            pid@,
            spec_transaction_type(*transaction_data),
        ) {
            Some(cfg) => r matches Ok(out) && out@ == cfg@,
            None => r matches Err(e) && e is FallbackConfigFetchFailed,
        }),
        spec_txdata_profile(*transaction_data) matches Some(pid) ==> (
        algorithm_ref.algorithm_id matches Some(aid) ==> {
            &&& (spec_cached_algorithm(
                *old(state),
                merchant_id@,
                pid@,
                spec_transaction_type(*transaction_data),
            ) is Some ==> final(state).routing_cache.entries@ == old(
                state,
            ).routing_cache.entries@)
            &&& (r matches Err(e) && (e is DslMissingInDb || e is DslParsingError
                || e is DslBackendInitError) ==> final(state).routing_cache.entries@ == old(
                state,
            ).routing_cache.entries@)
            &&& (spec_resolution_succeeds(
                *old(state),
                merchant_id@,
                pid@,
                aid@,
                *transaction_data,
            ) ==> r is Ok)
            &&& (r matches Err(e) ==> (e is DslMissingInDb <==> (spec_cached_algorithm(
                *old(state),
                merchant_id@,
                pid@,
                spec_transaction_type(*transaction_data),
            ) is None && spec_find_algorithm(
                old(state).store.algorithms@,
                pid@,
                aid@,
            ) is None)))
            &&& (r matches Ok(out) ==> {
                &&& spec_cached_algorithm(
                    *final(state),
                    merchant_id@,
                    pid@,
                    spec_transaction_type(*transaction_data),
                ) matches Some(v)
                &&& (spec_cached_algorithm(
                    *old(state),
                    merchant_id@,
                    pid@,
                    spec_transaction_type(*transaction_data),
                ) == Some(v) || (spec_find_algorithm(
                    old(state).store.algorithms@,
                    pid@,
                    aid@,
                ) matches Some(row) && exists|alg: RoutingAlgorithm| #[trigger]
                    spec_algorithm_decodes(row.algorithm_data, alg) && spec_compiled_of(alg, v)))
                &&& spec_dispatch_matches(v, *transaction_data, out@)
            })
        }),
{
    let ghost gtxd = *transaction_data;
    let profile_id = match transaction_data {
        TransactionData::Payment(pd) => match &pd.payment_intent.profile_id {
            Some(p) => p,
            None => {
                return Err(RoutingError::ProfileIdMissing);
            },
        },
        TransactionData::Payout(pod) => &pod.payout_attempt.profile_id,
    };
    let tx = transaction_type_of(transaction_data);
    let algorithm_id = match &algorithm_ref.algorithm_id {
        Some(id) => id,
        None => {
            let fallback_config = match get_merchant_default_config(
                &state.store.default_configs,
                profile_id,
                tx,
            ) {
                Some(cfg) => clone_choices(cfg),
                None => {
                    return Err(RoutingError::FallbackConfigFetchFailed);
                },
            };
            return Ok(fallback_config);
        },
    };
    let ghost gpid = profile_id@;
    let ghost gaid = algorithm_id@;
    let ghost gold = *state;
    match ensure_algorithm_cached_v1(state, merchant_id, algorithm_id, profile_id, tx) {
        Ok(()) => {},
        Err(e) => {
            proof {
                if spec_resolution_succeeds(gold, merchant_id@, gpid, gaid, gtxd) {
                    match spec_cached_algorithm(gold, merchant_id@, gpid, tx) {
                        Some(_) => {
                            assert(false);
                        },
                        None => {
                            assert(false);
                        },
                    }
                }
            }
            return Err(e);
        },
    }
    let key = CacheKey {
        prefix: state.tenant_prefix.clone(),
        key: make_routing_key(merchant_id.as_str(), profile_id.as_str(), tx),
    };
    let cached = match state.routing_cache.get_val(&key) {
        Some(v) => v,
        None => {
            proof {
                assert(false);
            }
            return Err(RoutingError::DslMissingInDb);
        },
    };
    let ghost gv = *cached;
    proof {
        assert(spec_resolution_succeeds(gold, merchant_id@, gpid, gaid, gtxd)
            ==> spec_dispatch_succeeds(gv, gtxd)) by {
            if spec_resolution_succeeds(gold, merchant_id@, gpid, gaid, gtxd) {
                match spec_cached_algorithm(gold, merchant_id@, gpid, tx) {
                    Some(v0) => {
                        assert(gv == v0);
                    },
                    None => {
                        let (alg0, vv) = choose|alg0: RoutingAlgorithm, vv: CachedAlgorithm|
                            {
                                &&& spec_algorithm_decodes(
                                    spec_find_algorithm(
                                        gold.store.algorithms@,
                                        gpid,
                                        gaid,
                                    ).unwrap().algorithm_data,
                                    alg0,
                                )
                                &&& spec_compiled_of(alg0, vv)
                                &&& spec_cached_algorithm(*state, merchant_id@, gpid, tx) == Some(
                                    vv,
                                )
                            };
                        assert(gv == vv);
                        assert(spec_dispatch_succeeds(vv, gtxd));
                    },
                }
            }
        };
    }
    match cached {
        CachedAlgorithm::Single(conn) => {
            let mut out: Vec<RoutableConnectorChoice> = Vec::new();
            out.push(conn.clone());
            proof {
                assert(out@ =~= seq![*conn]);
            }
            Ok(out)
        },
        CachedAlgorithm::Priority(plist) => Ok(clone_choices(plist)),
        CachedAlgorithm::VolumeSplit(splits) => match perform_volume_split(
            clone_splits(splits),
            None,
        ) {
            Ok(out) => Ok(out),
            Err(_) => {
                proof {
                    assert(!spec_dispatch_succeeds(gv, gtxd));
                }
                Err(RoutingError::ConnectorSelectionFailed)
            },
        },
        CachedAlgorithm::Advanced(interpreter) => {
            let backend_input = match make_input_for_transaction(transaction_data) {
                Ok(inp) => inp,
                Err(e) => {
                    return Err(e);
                },
            };
            let dsl_result = execute_dsl_and_get_connector_v1(&backend_input, interpreter);
            proof {
                if dsl_result is Err {
                    assert(spec_txdata_input_matches(gtxd, backend_input));
                    if spec_dispatch_succeeds(gv, gtxd) {
                        assert(match spec_eval_program(backend_input, *interpreter) {
                            Some(ConnectorSelection::Priority(_)) => true,
                            Some(ConnectorSelection::VolumeSplit(sp)) => 0
                                < volume_split_total(sp@) <= u64::MAX,
                            _ => false,
                        });
                        assert(false);
                    }
                }
            }
            dsl_result
        },
    }
}

} // verus!
