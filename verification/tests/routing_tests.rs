use routing_core::algorithm::{compile_algorithm, RoutingAlgorithm, StraightThroughAlgorithm};
use routing_core::cache::{CacheKey, InMemoryCache};
use routing_core::cgraph::{
    check_value_validity, make_mca_graph, CountryCurrencyFilter, McaCapability,
    MerchantConnectorAccount,
};
use routing_core::dsl::{BackendInput, ConnectorSelection, MandateData, PaymentInput, PaymentMethodInput, Program};
use routing_core::enums::{Currency, PaymentMethod, PaymentMethodType, TransactionType};
use routing_core::errors::RoutingError;
use routing_core::hashing::hash_seed;
use routing_core::json::JsonVal;
use routing_core::orchestrator::{
    execute_dsl_and_get_connector_v1, make_dsl_input, make_dsl_input_for_surcharge,
    perform_eligibility_analysis, perform_eligibility_analysis_with_fallback,
    perform_static_routing_v1, perform_straight_through_routing, PaymentAttemptRecord,
    PaymentData, PaymentIntentRecord, TransactionData,
};
use routing_core::session::{perform_session_flow_routing, SessionConnectorData, SessionFlowRoutingInput};
use routing_core::state::{
    BusinessProfile, MerchantDefaultConfig, RoutingAlgorithmRecord, RoutingStore, SessionState,
};
use routing_core::types::{ConnectorVolumeSplit, RoutableConnectorChoice, RoutingAlgorithmRef};
use routing_core::volume_split::perform_volume_split;

fn choice(name: &str) -> RoutableConnectorChoice {
    RoutableConnectorChoice { connector: name.to_string(), merchant_connector_id: None }
}

fn split(name: &str, weight: u8) -> ConnectorVolumeSplit {
    ConnectorVolumeSplit { connector: choice(name), split: weight }
}

fn names(list: &Vec<RoutableConnectorChoice>) -> Vec<String> {
    list.iter().map(|c| c.connector.clone()).collect()
}

fn json_choice(name: &str) -> JsonVal {
    JsonVal::Obj(vec![("connector".to_string(), JsonVal::Str(name.to_string()))])
}

fn json_priority(list: &[&str]) -> JsonVal {
    JsonVal::Obj(vec![(
        "priority".to_string(),
        JsonVal::Arr(list.iter().map(|n| json_choice(n)).collect()),
    )])
}

fn json_single(name: &str) -> JsonVal {
    JsonVal::Obj(vec![("single".to_string(), json_choice(name))])
}

fn json_advanced(default_selection: JsonVal) -> JsonVal {
    JsonVal::Obj(vec![(
        "advanced".to_string(),
        JsonVal::Obj(vec![
            ("default_selection".to_string(), default_selection),
            ("rules".to_string(), JsonVal::Arr(vec![])),
        ]),
    )])
}

fn empty_store() -> RoutingStore {
    RoutingStore {
        algorithms: vec![],
        business_profiles: vec![],
        default_configs: vec![],
        merchant_connector_accounts: vec![],
        pm_filters: CountryCurrencyFilter { entries: vec![] },
        routable_connectors: vec!["A".to_string(), "B".to_string(), "C".to_string(), "X".to_string()],
    }
}

fn state_with(store: RoutingStore) -> SessionState {
    SessionState {
        store,
        tenant_prefix: "tenant1".to_string(),
        routing_cache: InMemoryCache::new(),
        cgraph_cache: InMemoryCache::new(),
    }
}

fn payment_data(profile: Option<&str>, metadata: Option<JsonVal>) -> PaymentData {
    PaymentData {
        payment_intent: PaymentIntentRecord {
            amount: 1000,
            currency: Some(Currency::Usd),
            business_country: None,
            business_label: None,
            setup_future_usage: None,
            metadata,
            profile_id: profile.map(|p| p.to_string()),
        },
        payment_attempt: PaymentAttemptRecord {
            attempt_id: "attempt_1".to_string(),
            authentication_type: None,
            capture_method: None,
            payment_method: Some(PaymentMethod::Card),
            payment_method_type: Some(PaymentMethodType::Credit),
            amount: 1000,
            currency: Some(Currency::Usd),
        },
        currency: Currency::Usd,
        setup_mandate: None,
        payment_method_data: None,
        billing_country_code: None,
    }
}

fn algorithm_row(profile: &str, id: &str, data: JsonVal) -> RoutingAlgorithmRecord {
    RoutingAlgorithmRecord {
        profile_id: profile.to_string(),
        algorithm_id: id.to_string(),
        algorithm_data: data,
    }
}

fn algo_ref(id: Option<&str>) -> RoutingAlgorithmRef {
    RoutingAlgorithmRef { algorithm_id: id.map(|s| s.to_string()) }
}

fn card_mca(name: &str, pm: PaymentMethod, pmt: PaymentMethodType, currencies: Option<Vec<Currency>>) -> MerchantConnectorAccount {
    MerchantConnectorAccount {
        connector_name: name.to_string(),
        disabled: false,
        connector_type: routing_core::enums::ConnectorType::PaymentProcessor,
        profile_id: Some("profile1".to_string()),
        capabilities: vec![McaCapability {
            payment_method: pm,
            payment_method_type: pmt,
            currencies,
            countries: None,
        }],
    }
}

#[test]
fn volume_split_seeded_is_deterministic() {
    let splits = vec![split("A", 70), split("B", 30)];
    let first = perform_volume_split(splits.clone(), Some("attempt_42")).unwrap();
    let second = perform_volume_split(splits, Some("attempt_42")).unwrap();
    assert_eq!(names(&first), names(&second));
    assert_eq!(first.len(), 2);
}

#[test]
fn volume_split_is_permutation_with_winner_first() {
    let splits = vec![split("A", 10), split("B", 20), split("C", 70)];
    let out = perform_volume_split(splits, Some("seed")).unwrap();
    let mut sorted = names(&out);
    sorted.sort();
    assert_eq!(sorted, vec!["A".to_string(), "B".to_string(), "C".to_string()]);
}

#[test]
fn volume_split_never_picks_zero_weight() {
    let splits = vec![split("A", 0), split("B", 100)];
    for seed in ["s1", "s2", "s3", "s4"] {
        let out = perform_volume_split(splits.clone(), Some(seed)).unwrap();
        assert_eq!(out[0].connector, "B");
        assert_eq!(out[1].connector, "A");
    }
    let unseeded = perform_volume_split(splits, None).unwrap();
    assert_eq!(unseeded[0].connector, "B");
}

#[test]
fn volume_split_rejects_all_zero_weights() {
    let splits = vec![split("A", 0), split("B", 0)];
    let err = perform_volume_split(splits, Some("seed")).unwrap_err();
    assert!(matches!(err, RoutingError::VolumeSplitFailed));
    let empty = perform_volume_split(vec![], None).unwrap_err();
    assert!(matches!(empty, RoutingError::VolumeSplitFailed));
}

#[test]
fn volume_split_keeps_loser_order() {
    let splits = vec![split("A", 1), split("B", 1), split("C", 1), split("D", 1)];
    let out = perform_volume_split(splits, Some("stable")).unwrap();
    let out_names = names(&out);
    let mut rest: Vec<String> = out_names[1..].to_vec();
    let winner = out_names[0].clone();
    let expected: Vec<String> = ["A", "B", "C", "D"]
        .iter()
        .map(|s| s.to_string())
        .filter(|s| *s != winner)
        .collect();
    rest.sort_by_key(|_| 0);
    assert_eq!(rest, expected);
}

#[test]
fn seed_hash_is_stable_fnv() {
    assert_eq!(hash_seed(""), 0xcbf29ce484222325);
    assert_eq!(hash_seed("a"), 0xaf63dc4c8601ec8c);
    assert_eq!(hash_seed("attempt_42"), hash_seed("attempt_42"));
}

#[test]
fn straight_through_single_uses_creds_flag() {
    let alg = StraightThroughAlgorithm::Single(choice("X"));
    let (out, flag) = perform_straight_through_routing(&alg, None).unwrap();
    assert_eq!(names(&out), vec!["X".to_string()]);
    assert!(flag);
    let (_, flag2) = perform_straight_through_routing(&alg, Some("creds".to_string())).unwrap();
    assert!(!flag2);
}

#[test]
fn straight_through_priority_passes_through() {
    let alg = StraightThroughAlgorithm::Priority(vec![choice("A"), choice("B")]);
    let (out, flag) = perform_straight_through_routing(&alg, Some("creds".to_string())).unwrap();
    assert_eq!(names(&out), vec!["A".to_string(), "B".to_string()]);
    assert!(flag);
}

#[test]
fn straight_through_volume_split_failure() {
    let alg = StraightThroughAlgorithm::VolumeSplit(vec![split("A", 0)]);
    let err = perform_straight_through_routing(&alg, None).unwrap_err();
    assert!(matches!(err, RoutingError::ConnectorSelectionFailed));
}

#[test]
fn static_routing_single_scenario() {
    let mut store = empty_store();
    store.algorithms.push(algorithm_row("profile1", "algo1", json_single("X")));
    let mut state = state_with(store);
    let out = perform_static_routing_v1(
        &mut state,
        &"merchant1".to_string(),
        &algo_ref(Some("algo1")),
        &TransactionData::Payment(payment_data(Some("profile1"), None)),
    )
    .unwrap();
    assert_eq!(names(&out), vec!["X".to_string()]);
}

#[test]
fn static_routing_missing_profile_id() {
    let mut state = state_with(empty_store());
    let err = perform_static_routing_v1(
        &mut state,
        &"merchant1".to_string(),
        &algo_ref(Some("algo1")),
        &TransactionData::Payment(payment_data(None, None)),
    )
    .unwrap_err();
    assert!(matches!(err, RoutingError::ProfileIdMissing));
}

#[test]
fn static_routing_missing_algorithm_row() {
    let mut state = state_with(empty_store());
    let err = perform_static_routing_v1(
        &mut state,
        &"merchant1".to_string(),
        &algo_ref(Some("algo_missing")),
        &TransactionData::Payment(payment_data(Some("profile1"), None)),
    )
    .unwrap_err();
    assert!(matches!(err, RoutingError::DslMissingInDb));
}

#[test]
fn static_routing_fallback_config_when_no_algorithm() {
    let mut store = empty_store();
    store.default_configs.push(MerchantDefaultConfig {
        profile_id: "profile1".to_string(),
        transaction_type: TransactionType::Payment,
        connectors: vec![choice("A"), choice("B")],
    });
    let mut state = state_with(store);
    let out = perform_static_routing_v1(
        &mut state,
        &"merchant1".to_string(),
        &algo_ref(None),
        &TransactionData::Payment(payment_data(Some("profile1"), None)),
    )
    .unwrap();
    assert_eq!(names(&out), vec!["A".to_string(), "B".to_string()]);
}

#[test]
fn static_routing_fallback_fetch_failure() {
    let mut state = state_with(empty_store());
    let err = perform_static_routing_v1(
        &mut state,
        &"merchant1".to_string(),
        &algo_ref(None),
        &TransactionData::Payment(payment_data(Some("profile1"), None)),
    )
    .unwrap_err();
    assert!(matches!(err, RoutingError::FallbackConfigFetchFailed));
}

#[test]
fn static_routing_rejects_malformed_algorithm_data() {
    let mut store = empty_store();
    store.algorithms.push(algorithm_row("profile1", "algo1", JsonVal::Str("nope".to_string())));
    let mut state = state_with(store);
    let err = perform_static_routing_v1(
        &mut state,
        &"merchant1".to_string(),
        &algo_ref(Some("algo1")),
        &TransactionData::Payment(payment_data(Some("profile1"), None)),
    )
    .unwrap_err();
    assert!(matches!(err, RoutingError::DslParsingError));
}

#[test]
fn static_routing_rejects_incomplete_volume_split() {
    let mut store = empty_store();
    let bad = JsonVal::Obj(vec![(
        "volume_split".to_string(),
        JsonVal::Arr(vec![JsonVal::Obj(vec![
            ("connector".to_string(), json_choice("A")),
            ("split".to_string(), JsonVal::UInt(60)),
        ])]),
    )]);
    store.algorithms.push(algorithm_row("profile1", "algo1", bad));
    let mut state = state_with(store);
    let err = perform_static_routing_v1(
        &mut state,
        &"merchant1".to_string(),
        &algo_ref(Some("algo1")),
        &TransactionData::Payment(payment_data(Some("profile1"), None)),
    )
    .unwrap_err();
    assert!(matches!(err, RoutingError::DslParsingError));
}

#[test]
fn static_routing_rejects_invalid_program() {
    let mut store = empty_store();
    let bad_default = JsonVal::Obj(vec![("priority".to_string(), JsonVal::Arr(vec![]))]);
    store.algorithms.push(algorithm_row("profile1", "algo1", json_advanced(bad_default)));
    let mut state = state_with(store);
    let err = perform_static_routing_v1(
        &mut state,
        &"merchant1".to_string(),
        &algo_ref(Some("algo1")),
        &TransactionData::Payment(payment_data(Some("profile1"), None)),
    )
    .unwrap_err();
    assert!(matches!(err, RoutingError::DslBackendInitError));
}

#[test]
fn advanced_priority_scenario() {
    let mut store = empty_store();
    store
        .algorithms
        .push(algorithm_row("profile1", "algo1", json_advanced(json_priority(&["A", "B"]))));
    let mut state = state_with(store);
    let txd = TransactionData::Payment(payment_data(Some("profile1"), None));
    let out = perform_static_routing_v1(
        &mut state,
        &"merchant1".to_string(),
        &algo_ref(Some("algo1")),
        &txd,
    )
    .unwrap();
    assert_eq!(names(&out), vec!["A".to_string(), "B".to_string()]);
    // With no allow-list and an empty constraint graph every candidate
    // stays eligible, in order.
    let filtered = perform_eligibility_analysis(
        &mut state,
        &"merchant1".to_string(),
        out,
        &txd,
        None,
        &Some("profile1".to_string()),
    )
    .unwrap();
    assert_eq!(names(&filtered), vec!["A".to_string(), "B".to_string()]);
}

#[test]
fn advanced_single_is_rejected() {
    let mut store = empty_store();
    store.algorithms.push(algorithm_row("profile1", "algo1", json_advanced(json_single("X"))));
    let mut state = state_with(store);
    let err = perform_static_routing_v1(
        &mut state,
        &"merchant1".to_string(),
        &algo_ref(Some("algo1")),
        &TransactionData::Payment(payment_data(Some("profile1"), None)),
    )
    .unwrap_err();
    assert!(matches!(err, RoutingError::DslIncorrectSelectionAlgorithm));
}

#[test]
fn dsl_zero_weight_split_fails_final_selection() {
    let program = Program {
        rules: vec![],
        default_selection: ConnectorSelection::VolumeSplit(vec![split("A", 0)]),
    };
    let input = BackendInput {
        payment: PaymentInput {
            amount: 1,
            currency: Currency::Usd,
            card_bin: None,
            authentication_type: None,
            capture_method: None,
            business_country: None,
            billing_country: None,
            business_label: None,
            setup_future_usage: None,
        },
        payment_method: PaymentMethodInput {
            payment_method: None,
            payment_method_type: None,
            card_network: None,
        },
        mandate: MandateData {
            mandate_acceptance_type: None,
            mandate_type: None,
            payment_type: None,
        },
        metadata: None,
    };
    let err = execute_dsl_and_get_connector_v1(&input, &program).unwrap_err();
    assert!(matches!(err, RoutingError::DslFinalConnectorSelectionFailed));
}

#[test]
fn priority_with_filter_scenario() {
    let mut store = empty_store();
    // Only "B" has an account, and that account supports euros alone, so
    // the graph rejects "B" for a dollar payment while "A" and "C" stay
    // unconstrained.
    store.merchant_connector_accounts.push(card_mca(
        "B",
        PaymentMethod::Card,
        PaymentMethodType::Credit,
        Some(vec![Currency::Eur]),
    ));
    let mut state = state_with(store);
    let txd = TransactionData::Payment(payment_data(Some("profile1"), None));
    let filtered = perform_eligibility_analysis(
        &mut state,
        &"merchant1".to_string(),
        vec![choice("A"), choice("B"), choice("C")],
        &txd,
        None,
        &Some("profile1".to_string()),
    )
    .unwrap();
    assert_eq!(names(&filtered), vec!["A".to_string(), "C".to_string()]);
}

#[test]
fn eligibility_allow_list_is_applied() {
    let mut state = state_with(empty_store());
    let txd = TransactionData::Payment(payment_data(Some("profile1"), None));
    let filtered = perform_eligibility_analysis(
        &mut state,
        &"merchant1".to_string(),
        vec![choice("A"), choice("B"), choice("C")],
        &txd,
        Some(&vec!["C".to_string(), "A".to_string()]),
        &Some("profile1".to_string()),
    )
    .unwrap();
    assert_eq!(names(&filtered), vec!["A".to_string(), "C".to_string()]);
}

#[test]
fn fallback_appends_without_duplicates() {
    let mut store = empty_store();
    store.default_configs.push(MerchantDefaultConfig {
        profile_id: "profile1".to_string(),
        transaction_type: TransactionType::Payment,
        connectors: vec![choice("B"), choice("C")],
    });
    let mut state = state_with(store);
    let txd = TransactionData::Payment(payment_data(Some("profile1"), None));
    let out = perform_eligibility_analysis_with_fallback(
        &mut state,
        &"merchant1".to_string(),
        vec![choice("A"), choice("B")],
        &txd,
        None,
        &Some("profile1".to_string()),
    )
    .unwrap();
    assert_eq!(names(&out), vec!["A".to_string(), "B".to_string(), "C".to_string()]);
}

#[test]
fn fallback_fetch_failure_is_soft() {
    let mut state = state_with(empty_store());
    let txd = TransactionData::Payment(payment_data(Some("profile1"), None));
    let out = perform_eligibility_analysis_with_fallback(
        &mut state,
        &"merchant1".to_string(),
        vec![choice("A")],
        &txd,
        None,
        &Some("profile1".to_string()),
    )
    .unwrap();
    assert_eq!(names(&out), vec!["A".to_string()]);
}

#[test]
fn fallback_is_idempotent() {
    let mut store = empty_store();
    store.default_configs.push(MerchantDefaultConfig {
        profile_id: "profile1".to_string(),
        transaction_type: TransactionType::Payment,
        connectors: vec![choice("C"), choice("A")],
    });
    let mut state = state_with(store);
    let txd = TransactionData::Payment(payment_data(Some("profile1"), None));
    let first = perform_eligibility_analysis_with_fallback(
        &mut state,
        &"merchant1".to_string(),
        vec![choice("A"), choice("B")],
        &txd,
        None,
        &Some("profile1".to_string()),
    )
    .unwrap();
    let second = perform_eligibility_analysis_with_fallback(
        &mut state,
        &"merchant1".to_string(),
        vec![choice("A"), choice("B")],
        &txd,
        None,
        &Some("profile1".to_string()),
    )
    .unwrap();
    assert_eq!(names(&first), names(&second));
    assert_eq!(names(&first), vec!["A".to_string(), "B".to_string(), "C".to_string()]);
}

#[test]
fn invalid_metadata_does_not_alter_routing() {
    let mut store = empty_store();
    store
        .algorithms
        .push(algorithm_row("profile1", "algo1", json_advanced(json_priority(&["A", "B"]))));
    let mut state = state_with(store);
    // Metadata that is not an object of strings does not decode as
    // routing parameters.
    let bad_metadata = JsonVal::Obj(vec![("weight".to_string(), JsonVal::UInt(3))]);
    let with_bad = perform_static_routing_v1(
        &mut state,
        &"merchant1".to_string(),
        &algo_ref(Some("algo1")),
        &TransactionData::Payment(payment_data(Some("profile1"), Some(bad_metadata))),
    )
    .unwrap();
    let with_none = perform_static_routing_v1(
        &mut state,
        &"merchant1".to_string(),
        &algo_ref(Some("algo1")),
        &TransactionData::Payment(payment_data(Some("profile1"), None)),
    )
    .unwrap();
    assert_eq!(names(&with_bad), names(&with_none));
    let built = make_dsl_input(&payment_data(
        Some("profile1"),
        Some(JsonVal::Arr(vec![JsonVal::UInt(1)])),
    ))
    .unwrap();
    assert!(built.metadata.is_none());
}

#[test]
fn cache_refresh_publishes_for_next_get() {
    let mut cache: InMemoryCache<u64> = InMemoryCache::new();
    let key = CacheKey { prefix: "tenant1".to_string(), key: "routing_config_m_p".to_string() };
    cache.push(CacheKey { prefix: "tenant1".to_string(), key: "routing_config_m_p".to_string() }, 1);
    assert_eq!(cache.get_val(&key), Some(&1));
    cache.push(CacheKey { prefix: "tenant1".to_string(), key: "routing_config_m_p".to_string() }, 2);
    assert_eq!(cache.get_val(&key), Some(&2));
    let other = CacheKey { prefix: "tenant2".to_string(), key: "routing_config_m_p".to_string() };
    assert_eq!(cache.get_val(&other), None);
}

#[test]
fn static_routing_uses_cache_after_first_load() {
    let mut store = empty_store();
    store.algorithms.push(algorithm_row("profile1", "algo1", json_single("X")));
    let mut state = state_with(store);
    let txd = TransactionData::Payment(payment_data(Some("profile1"), None));
    let merchant = "merchant1".to_string();
    let first =
        perform_static_routing_v1(&mut state, &merchant, &algo_ref(Some("algo1")), &txd).unwrap();
    // Remove the row; the compiled entry must now come from the cache.
    state.store.algorithms.clear();
    let second =
        perform_static_routing_v1(&mut state, &merchant, &algo_ref(Some("algo1")), &txd).unwrap();
    assert_eq!(names(&first), names(&second));
}

#[test]
fn surcharge_input_requires_currency() {
    let pd = payment_data(Some("profile1"), None);
    let ok = make_dsl_input_for_surcharge(&pd.payment_attempt, &pd.payment_intent, None).unwrap();
    assert_eq!(ok.payment.currency, Currency::Usd);
    assert!(ok.payment_method.payment_method.is_none());
    let mut attempt = pd.payment_attempt;
    attempt.currency = None;
    let err = make_dsl_input_for_surcharge(&attempt, &pd.payment_intent, None).unwrap_err();
    assert!(matches!(err, RoutingError::DslMissingRequiredField { .. }));
}

#[test]
fn card_bin_is_first_six_digits() {
    let mut pd = payment_data(Some("profile1"), None);
    pd.payment_method_data = Some(routing_core::orchestrator::PaymentMethodData::Card {
        card_number: "4111111111111111".to_string(),
        card_network: None,
    });
    let inp = make_dsl_input(&pd).unwrap();
    assert_eq!(inp.payment.card_bin, Some("411111".to_string()));
}

#[test]
fn compile_rejects_empty_priority() {
    let err = compile_algorithm(RoutingAlgorithm::Priority(vec![])).unwrap_err();
    assert!(matches!(err, RoutingError::DslParsingError));
}

#[test]
fn cgraph_rejects_unknown_filter_connector() {
    let mut store = empty_store();
    store.pm_filters.entries.push((
        "unknown_connector".to_string(),
        routing_core::cgraph::PaymentMethodFilter { allowed: vec![] },
    ));
    let mut state = state_with(store);
    let txd = TransactionData::Payment(payment_data(Some("profile1"), None));
    let err = perform_eligibility_analysis(
        &mut state,
        &"merchant1".to_string(),
        vec![choice("A")],
        &txd,
        None,
        &Some("profile1".to_string()),
    )
    .unwrap_err();
    assert!(matches!(err, RoutingError::InvalidConnectorName { .. }));
}

#[test]
fn cgraph_checks_declared_capabilities() {
    let mcas = vec![card_mca("A", PaymentMethod::Card, PaymentMethodType::Credit, Some(vec![Currency::Usd]))];
    let fcfg = CountryCurrencyFilter { entries: vec![] };
    let graph = make_mca_graph(&mcas, &fcfg, &Some("profile1".to_string()), TransactionType::Payment);
    let pd = payment_data(Some("profile1"), None);
    let input = make_dsl_input(&pd).unwrap();
    assert!(check_value_validity(&graph, &input, &choice("A")));
    let mut eur = payment_data(Some("profile1"), None);
    eur.currency = Currency::Eur;
    let eur_input = make_dsl_input(&eur).unwrap();
    assert!(!check_value_validity(&graph, &eur_input, &choice("A")));
}

#[test]
fn session_flow_scenario() {
    let mut store = empty_store();
    store.algorithms.push(algorithm_row("profile1", "algo1", json_priority(&["B", "A"])));
    store.business_profiles.push(BusinessProfile {
        profile_id: "profile1".to_string(),
        routing_algorithm: Some(JsonVal::Obj(vec![(
            "algorithm_id".to_string(),
            JsonVal::Str("algo1".to_string()),
        )])),
    });
    store.default_configs.push(MerchantDefaultConfig {
        profile_id: "profile1".to_string(),
        transaction_type: TransactionType::Payment,
        connectors: vec![choice("C")],
    });
    store.merchant_connector_accounts.push(card_mca("A", PaymentMethod::Card, PaymentMethodType::Card, None));
    store.merchant_connector_accounts.push(card_mca("B", PaymentMethod::Card, PaymentMethodType::Card, None));
    store.merchant_connector_accounts.push(card_mca(
        "C",
        PaymentMethod::Wallet,
        PaymentMethodType::Wallet,
        None,
    ));
    let mut state = state_with(store);
    let pd = payment_data(Some("profile1"), None);
    let session_input = SessionFlowRoutingInput {
        country: None,
        merchant_id: "merchant1".to_string(),
        payment_attempt: pd.payment_attempt,
        payment_intent: pd.payment_intent,
        chosen: vec![
            SessionConnectorData {
                payment_method_type: PaymentMethodType::Card,
                connector_name: "A".to_string(),
                get_token: "token_T1".to_string(),
            },
            SessionConnectorData {
                payment_method_type: PaymentMethodType::Card,
                connector_name: "B".to_string(),
                get_token: "token_T2".to_string(),
            },
            SessionConnectorData {
                payment_method_type: PaymentMethodType::Wallet,
                connector_name: "C".to_string(),
                get_token: "token_T3".to_string(),
            },
        ],
    };
    let result =
        perform_session_flow_routing(&mut state, &session_input, TransactionType::Payment).unwrap();
    assert_eq!(result.len(), 2);
    let card_entry = result.iter().find(|(pmt, _)| *pmt == PaymentMethodType::Card).unwrap();
    let card_names: Vec<String> =
        card_entry.1.iter().map(|c| c.connector.connector.clone()).collect();
    assert_eq!(card_names, vec!["B".to_string(), "A".to_string()]);
    assert_eq!(card_entry.1[0].get_token, "token_T2");
    assert_eq!(card_entry.1[1].get_token, "token_T1");
    let wallet_entry = result.iter().find(|(pmt, _)| *pmt == PaymentMethodType::Wallet).unwrap();
    let wallet_names: Vec<String> =
        wallet_entry.1.iter().map(|c| c.connector.connector.clone()).collect();
    assert_eq!(wallet_names, vec!["C".to_string()]);
    assert_eq!(wallet_entry.1[0].get_token, "token_T3");
}

#[test]
fn session_flow_missing_profile_is_rejected() {
    let mut state = state_with(empty_store());
    let pd = payment_data(None, None);
    let session_input = SessionFlowRoutingInput {
        country: None,
        merchant_id: "merchant1".to_string(),
        payment_attempt: pd.payment_attempt,
        payment_intent: pd.payment_intent,
        chosen: vec![],
    };
    let err = perform_session_flow_routing(&mut state, &session_input, TransactionType::Payment)
        .unwrap_err();
    assert!(matches!(err, RoutingError::ProfileIdMissing));
}

#[test]
fn session_flow_unknown_profile_is_rejected() {
    let mut state = state_with(empty_store());
    let pd = payment_data(Some("profile_missing"), None);
    let session_input = SessionFlowRoutingInput {
        country: None,
        merchant_id: "merchant1".to_string(),
        payment_attempt: pd.payment_attempt,
        payment_intent: pd.payment_intent,
        chosen: vec![],
    };
    let err = perform_session_flow_routing(&mut state, &session_input, TransactionType::Payment)
        .unwrap_err();
    assert!(matches!(err, RoutingError::ProfileNotFound));
}

#[test]
fn session_flow_rejects_malformed_profile_algorithm() {
    let mut store = empty_store();
    store.business_profiles.push(BusinessProfile {
        profile_id: "profile1".to_string(),
        routing_algorithm: Some(JsonVal::Str("v2?".to_string())),
    });
    let mut state = state_with(store);
    let pd = payment_data(Some("profile1"), None);
    let session_input = SessionFlowRoutingInput {
        country: None,
        merchant_id: "merchant1".to_string(),
        payment_attempt: pd.payment_attempt,
        payment_intent: pd.payment_intent,
        chosen: vec![],
    };
    let err = perform_session_flow_routing(&mut state, &session_input, TransactionType::Payment)
        .unwrap_err();
    assert!(matches!(err, RoutingError::InvalidRoutingAlgorithmStructure));
}

#[test]
fn dsl_rule_fires_on_matching_currency() {
    // A program whose one rule routes euro payments to "E" and whose
    // default routes everything else to "D".
    let rule_json = JsonVal::Obj(vec![
        ("selection".to_string(), json_priority(&["E"])),
        (
            "statements".to_string(),
            JsonVal::Arr(vec![JsonVal::Arr(vec![JsonVal::Obj(vec![
                ("op".to_string(), JsonVal::Str("equal".to_string())),
                ("field".to_string(), JsonVal::Str("currency".to_string())),
                ("value".to_string(), JsonVal::Str("EUR".to_string())),
            ])])]),
        ),
    ]);
    let program_json = JsonVal::Obj(vec![(
        "advanced".to_string(),
        JsonVal::Obj(vec![
            ("default_selection".to_string(), json_priority(&["D"])),
            ("rules".to_string(), JsonVal::Arr(vec![rule_json])),
        ]),
    )]);
    let mut store = empty_store();
    store.algorithms.push(algorithm_row("profile1", "algo1", program_json));
    let mut state = state_with(store);
    let merchant = "merchant1".to_string();
    let mut eur_pd = payment_data(Some("profile1"), None);
    eur_pd.currency = Currency::Eur;
    let eur_out = perform_static_routing_v1(
        &mut state,
        &merchant,
        &algo_ref(Some("algo1")),
        &TransactionData::Payment(eur_pd),
    )
    .unwrap();
    assert_eq!(names(&eur_out), vec!["E".to_string()]);
    let usd_out = perform_static_routing_v1(
        &mut state,
        &merchant,
        &algo_ref(Some("algo1")),
        &TransactionData::Payment(payment_data(Some("profile1"), None)),
    )
    .unwrap();
    assert_eq!(names(&usd_out), vec!["D".to_string()]);
}

#[test]
fn dsl_missing_field_is_an_execution_fault() {
    // The one rule compares the card bin, but the payment has no card.
    let rule_json = JsonVal::Obj(vec![
        ("selection".to_string(), json_priority(&["E"])),
        (
            "statements".to_string(),
            JsonVal::Arr(vec![JsonVal::Arr(vec![JsonVal::Obj(vec![
                ("op".to_string(), JsonVal::Str("equal".to_string())),
                ("field".to_string(), JsonVal::Str("card_bin".to_string())),
                ("value".to_string(), JsonVal::Str("411111".to_string())),
            ])])]),
        ),
    ]);
    let program_json = JsonVal::Obj(vec![(
        "advanced".to_string(),
        JsonVal::Obj(vec![
            ("default_selection".to_string(), json_priority(&["D"])),
            ("rules".to_string(), JsonVal::Arr(vec![rule_json])),
        ]),
    )]);
    let mut store = empty_store();
    store.algorithms.push(algorithm_row("profile1", "algo1", program_json));
    let mut state = state_with(store);
    let err = perform_static_routing_v1(
        &mut state,
        &"merchant1".to_string(),
        &algo_ref(Some("algo1")),
        &TransactionData::Payment(payment_data(Some("profile1"), None)),
    )
    .unwrap_err();
    assert!(matches!(err, RoutingError::DslExecutionError));
}

#[test]
fn payout_routing_uses_payout_namespace() {
    let mut store = empty_store();
    store.default_configs.push(MerchantDefaultConfig {
        profile_id: "profile1".to_string(),
        transaction_type: TransactionType::Payout,
        connectors: vec![choice("A")],
    });
    let mut state = state_with(store);
    let payout = routing_core::orchestrator::PayoutData {
        payouts: routing_core::orchestrator::PayoutsRecord {
            amount: 500,
            destination_currency: Currency::Eur,
            metadata: None,
            payout_type: None,
        },
        payout_attempt: routing_core::orchestrator::PayoutAttemptRecord {
            business_country: None,
            business_label: None,
            profile_id: "profile1".to_string(),
        },
        billing_country_code: None,
        payout_method_type: None,
    };
    let out = perform_static_routing_v1(
        &mut state,
        &"merchant1".to_string(),
        &algo_ref(None),
        &TransactionData::Payout(payout),
    )
    .unwrap();
    assert_eq!(names(&out), vec!["A".to_string()]);
}

#[test]
fn static_routing_dispatches_stored_volume_split() {
    let mut store = empty_store();
    let data = JsonVal::Obj(vec![(
        "volume_split".to_string(),
        JsonVal::Arr(vec![JsonVal::Obj(vec![
            ("connector".to_string(), json_choice("A")),
            ("split".to_string(), JsonVal::UInt(100)),
        ])]),
    )]);
    store.algorithms.push(algorithm_row("profile1", "algo1", data));
    let mut state = state_with(store);
    let out = perform_static_routing_v1(
        &mut state,
        &"merchant1".to_string(),
        &algo_ref(Some("algo1")),
        &TransactionData::Payment(payment_data(Some("profile1"), None)),
    )
    .unwrap();
    assert_eq!(names(&out), vec!["A".to_string()]);
}

#[test]
fn builder_maps_alpha2_country_codes() {
    let mut pd = payment_data(Some("profile1"), None);
    pd.billing_country_code = Some("DE".to_string());
    pd.payment_intent.business_country = Some("ZZ".to_string());
    let inp = make_dsl_input(&pd).unwrap();
    assert_eq!(inp.payment.billing_country, Some(routing_core::enums::Country::Germany));
    // An unknown code is treated as absent, never invented.
    assert_eq!(inp.payment.business_country, None);
}
