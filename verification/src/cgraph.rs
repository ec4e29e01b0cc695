//! The compiled constraint graph: per-connector eligibility rules.
//!
//! Nodes are atomic predicates over the normalized input (currency is one
//! of these, billing country is one of those) and edges express
//! conjunction, disjunction and negation. The one operation a compiled
//! graph supports is `check_value_validity`: is this connector eligible
//! for this input. The graph is built once from the merchant's enabled
//! connector accounts and the global payment-method filters, then shared
//! immutably.
//!
//! Every selected account contributes one root carrying its capabilities
//! conjoined with the connector's filter allow-set; a connector with
//! several accounts is admitted by any of its roots, and a connector with
//! no root at all is unconstrained.

use vstd::prelude::*;
use crate::dsl::{eq_fv, field_of, fv_eq, spec_field_of, BackendInput, FieldValue};
use crate::enums::{ConnectorType, Country, Currency, PaymentMethod, PaymentMethodType, TransactionType};
use crate::types::RoutableConnectorChoice;
use vstd::string::StringExecFns;

verus! {

/// Whether the input holds exactly the value `v` in the field `v` names.
pub open spec fn spec_input_has(inp: BackendInput, v: FieldValue) -> bool {
    match spec_field_of(inp, v) {
        Some(actual) => fv_eq(actual, v),
        None => false,
    }
}

pub fn input_has(inp: &BackendInput, v: &FieldValue) -> (r: bool)
    ensures
        r == spec_input_has(*inp, *v),
{
    match field_of(inp, v) {
        Some(actual) => eq_fv(&actual, v),
        None => false,
    }
}

/// One node of the constraint graph.
#[derive(Debug)]
pub enum Constraint {
    /// Satisfied when the input holds one of these values.
    Pred(Vec<FieldValue>),
    AllOf(Vec<Constraint>),
    AnyOf(Vec<Constraint>),
    Not(Box<Constraint>),
}

/// Whether the input holds one of `vals`.
pub open spec fn pred_sat(inp: BackendInput, vals: Seq<FieldValue>) -> bool {
    exists|i: int| 0 <= i < vals.len() && spec_input_has(inp, vals[i])
}

/// Whether the input satisfies the constraint.
pub open spec fn spec_sat(inp: BackendInput, c: Constraint) -> bool
    decreases c, 0int,
{
    match c {
        Constraint::Pred(vals) => pred_sat(inp, vals@),
        Constraint::AllOf(cs) => all_sat_from(inp, cs@, 0),
        Constraint::AnyOf(cs) => any_sat_from(inp, cs@, 0),
        Constraint::Not(c2) => !spec_sat(inp, *c2),
    }
}

pub open spec fn all_sat_from(inp: BackendInput, s: Seq<Constraint>, i: int) -> bool
    decreases s, s.len() - i,
{
    if i < 0 || i >= s.len() {
        true
    } else {
        spec_sat(inp, s[i]) && all_sat_from(inp, s, i + 1)
    }
}

pub open spec fn any_sat_from(inp: BackendInput, s: Seq<Constraint>, i: int) -> bool
    decreases s, s.len() - i,
{
    if i < 0 || i >= s.len() {
        false
    } else {
        spec_sat(inp, s[i]) || any_sat_from(inp, s, i + 1)
    }
}

pub proof fn lemma_all_sat_from(inp: BackendInput, s: Seq<Constraint>, i: int)
    requires
        0 <= i <= s.len(),
    ensures
        all_sat_from(inp, s, i) == (forall|j: int| i <= j < s.len() ==> spec_sat(inp, #[trigger] s[j])),
    decreases s.len() - i,
{
    if i < s.len() {
        lemma_all_sat_from(inp, s, i + 1);
    }
}

pub proof fn lemma_any_sat_from(inp: BackendInput, s: Seq<Constraint>, i: int)
    requires
        0 <= i <= s.len(),
    ensures
        any_sat_from(inp, s, i) == (exists|j: int| i <= j < s.len() && spec_sat(inp, #[trigger] s[j])),
    decreases s.len() - i,
{
    if i < s.len() {
        lemma_any_sat_from(inp, s, i + 1);
    }
}

#[verifier::loop_isolation(false)]
pub fn check_sat(inp: &BackendInput, c: &Constraint) -> (r: bool)
    ensures
        r == spec_sat(*inp, *c),
    decreases *c,
{
    match c {
        Constraint::Pred(vals) => {
            let mut i: usize = 0;
            while i < vals.len()
                invariant
                    i <= vals@.len(),
                    forall|j: int| 0 <= j < i ==> !spec_input_has(*inp, vals@[j]),
                decreases vals@.len() - i,
            {
                if input_has(inp, &vals[i]) {
                    return true;
                }
                i += 1;
            }
            false
        },
        Constraint::AllOf(cs) => {
            let mut i: usize = 0;
            while i < cs.len()
                invariant
                    i <= cs@.len(),
                    forall|j: int| 0 <= j < i ==> spec_sat(*inp, cs@[j]),
                decreases cs@.len() - i,
            {
                if !check_sat(inp, &cs[i]) {
                    proof {
                        lemma_all_sat_from(*inp, cs@, 0);
                    }
                    return false;
                }
                i += 1;
            }
            proof {
                lemma_all_sat_from(*inp, cs@, 0);
            }
            true
        },
        Constraint::AnyOf(cs) => {
            let mut i: usize = 0;
            while i < cs.len()
                invariant
                    i <= cs@.len(),
                    forall|j: int| 0 <= j < i ==> !spec_sat(*inp, cs@[j]),
                decreases cs@.len() - i,
            {
                if check_sat(inp, &cs[i]) {
                    proof {
                        lemma_any_sat_from(*inp, cs@, 0);
                    }
                    return true;
                }
                i += 1;
            }
            proof {
                lemma_any_sat_from(*inp, cs@, 0);
            }
            false
        },
        Constraint::Not(c2) => !check_sat(inp, c2),
    }
}

/// The compiled, immutable constraint graph.
#[derive(Debug)]
pub struct CompiledCGraph {
    pub roots: Vec<(String, Constraint)>,
}

/// Whether some root carries this connector's name.
pub open spec fn spec_has_root(roots: Seq<(String, Constraint)>, name: Seq<char>) -> bool {
    exists|k: int| 0 <= k < roots.len() && roots[k].0@ == name
}

/// Connector eligibility under the graph: a connector with no root is
/// unconstrained; otherwise any satisfied root of its name admits it.
pub open spec fn spec_check_validity(g: CompiledCGraph, inp: BackendInput, name: Seq<char>) -> bool {
    if !spec_has_root(g.roots@, name) {
        true
    } else {
        exists|k: int|
            0 <= k < g.roots@.len() && g.roots@[k].0@ == name && spec_sat(inp, g.roots@[k].1)
    }
}

/// Evaluates one candidate against the graph. Evaluation over the tree is
/// pure and needs no per-query memoization table.
#[verifier::loop_isolation(false)]
pub fn check_value_validity(g: &CompiledCGraph, inp: &BackendInput, choice: &RoutableConnectorChoice) -> (r:
    bool)
    ensures
        r == spec_check_validity(*g, *inp, choice.connector@),
{
    let mut found = false;
    let mut k: usize = 0;
    while k < g.roots.len()
        invariant
            k <= g.roots@.len(),
            found == exists|j: int| 0 <= j < k && g.roots@[j].0@ == choice.connector@,
            forall|j: int|
                0 <= j < k && g.roots@[j].0@ == choice.connector@ ==> !spec_sat(*inp, g.roots@[j].1),
        decreases g.roots@.len() - k,
    {
        if g.roots[k].0 == choice.connector {
            found = true;
            if check_sat(inp, &g.roots[k].1) {
                return true;
            }
        }
        k += 1;
    }
    !found
}

/// One declared capability of a merchant connector account: a payment
/// method and type it supports, optionally restricted to some currencies
/// and billing countries (`None` leaves the dimension unrestricted).
#[derive(Debug)]
pub struct McaCapability {
    pub payment_method: PaymentMethod,
    pub payment_method_type: PaymentMethodType,
    pub currencies: Option<Vec<Currency>>,
    pub countries: Option<Vec<Country>>,
}

/// A merchant's credentialed binding to one connector, with its declared
/// capabilities and an enabled flag.
#[derive(Debug)]
pub struct MerchantConnectorAccount {
    pub connector_name: String,
    pub disabled: bool,
    pub connector_type: ConnectorType,
    pub profile_id: Option<String>,
    pub capabilities: Vec<McaCapability>,
}

/// One allowed combination of a payment-method filter; `None` is a
/// wildcard for that dimension.
#[derive(Clone, Copy, Debug)]
pub struct FilterTriple {
    pub country: Option<Country>,
    pub currency: Option<Currency>,
    pub payment_method_type: Option<PaymentMethodType>,
}

/// A filter enumerating the allowed (country, currency, payment-method
/// type) triples.
#[derive(Debug)]
pub struct PaymentMethodFilter {
    pub allowed: Vec<FilterTriple>,
}

/// The global payment-method filters, as configured: the entry under a
/// connector's name filters that connector, and the entry under the key
/// `default` filters every connector without one of its own.
#[derive(Debug)]
pub struct CountryCurrencyFilter {
    pub entries: Vec<(String, PaymentMethodFilter)>,
}

pub open spec fn spec_expected_connector_type(tx: TransactionType) -> ConnectorType {
    match tx {
        TransactionType::Payment => ConnectorType::PaymentProcessor,
        TransactionType::Payout => ConnectorType::PayoutProcessor,
    }
}

pub open spec fn spec_profile_ok(mca_profile: Option<String>, profile: Option<String>) -> bool {
    match profile {
        None => true,
        Some(p) => match mca_profile {
            Some(q) => q@ == p@,
            None => false,
        },
    }
}

/// Whether an account takes part in the graph: enabled, of the role the
/// transaction type asks for, and in the requested profile.
pub open spec fn spec_mca_selected(
    m: MerchantConnectorAccount,
    tx: TransactionType,
    profile: Option<String>,
) -> bool {
    &&& !m.disabled
    &&& m.connector_type == spec_expected_connector_type(tx)
    &&& spec_profile_ok(m.profile_id, profile)
}

pub fn mca_selected(m: &MerchantConnectorAccount, tx: TransactionType, profile: &Option<String>) -> (r:
    bool)
    ensures
        r == spec_mca_selected(*m, tx, *profile),
{
    let type_kept = match tx {
        TransactionType::Payment => {
            m.connector_type != ConnectorType::PaymentVas && m.connector_type
                != ConnectorType::PaymentMethodAuth && m.connector_type
                != ConnectorType::PayoutProcessor && m.connector_type
                != ConnectorType::AuthenticationProcessor && m.connector_type
                == ConnectorType::PaymentProcessor
        },
        TransactionType::Payout => m.connector_type == ConnectorType::PayoutProcessor,
    };
    !m.disabled && type_kept && match (profile, &m.profile_id) {
        (None, _) => true,
        (Some(p), Some(q)) => *q == *p,
        (Some(_), None) => false,
    }
}

/// Whether the input falls inside one declared capability.
pub open spec fn spec_cap_sat(inp: BackendInput, cap: McaCapability) -> bool {
    &&& spec_input_has(inp, FieldValue::PaymentMethod(cap.payment_method))
    &&& spec_input_has(inp, FieldValue::PaymentMethodType(cap.payment_method_type))
    &&& match cap.currencies {
        None => true,
        Some(cs) => exists|i: int|
            0 <= i < cs@.len() && spec_input_has(inp, FieldValue::Currency(cs@[i])),
    }
    &&& match cap.countries {
        None => true,
        Some(cs) => exists|i: int|
            0 <= i < cs@.len() && spec_input_has(inp, FieldValue::BillingCountry(cs@[i])),
    }
}

/// Whether the input falls inside some capability of the account.
pub open spec fn spec_account_sat(inp: BackendInput, m: MerchantConnectorAccount) -> bool {
    exists|i: int| 0 <= i < m.capabilities@.len() && spec_cap_sat(inp, m.capabilities@[i])
}

pub open spec fn spec_triple_sat(inp: BackendInput, t: FilterTriple) -> bool {
    &&& match t.country {
        None => true,
        Some(c) => spec_input_has(inp, FieldValue::BillingCountry(c)),
    }
    &&& match t.currency {
        None => true,
        Some(c) => spec_input_has(inp, FieldValue::Currency(c)),
    }
    &&& match t.payment_method_type {
        None => true,
        Some(p) => spec_input_has(inp, FieldValue::PaymentMethodType(p)),
    }
}

pub open spec fn spec_filter_sat(inp: BackendInput, f: PaymentMethodFilter) -> bool {
    exists|i: int| 0 <= i < f.allowed@.len() && spec_triple_sat(inp, f.allowed@[i])
}

/// First filter entry stored under this connector's name.
pub open spec fn spec_cfg_lookup(
    l: Seq<(String, PaymentMethodFilter)>,
    name: Seq<char>,
) -> Option<PaymentMethodFilter>
    decreases l.len(),
{
    if l.len() == 0 {
        None
    } else if l[0].0@ == name {
        Some(l[0].1)
    } else {
        spec_cfg_lookup(l.drop_first(), name)
    }
}

/// The filter that applies to a connector: its own entry first, else the
/// default, else none.
pub open spec fn spec_filter_for(
    fcfg: CountryCurrencyFilter,
    name: Seq<char>,
) -> Option<PaymentMethodFilter> {
    match spec_cfg_lookup(fcfg.entries@, name) {
        Some(f) => Some(f),
        None => spec_cfg_lookup(fcfg.entries@, "default"@),
    }
}

pub open spec fn spec_filter_ok(inp: BackendInput, fopt: Option<PaymentMethodFilter>) -> bool {
    match fopt {
        None => true,
        Some(f) => spec_filter_sat(inp, f),
    }
}

/// What the whole build means: a connector with no selected account is
/// unconstrained; one with selected accounts is eligible when some
/// selected account of that name covers the input and the connector's
/// filter allow-set admits it.
pub open spec fn spec_connector_eligible(
    mcas: Seq<MerchantConnectorAccount>,
    fcfg: CountryCurrencyFilter,
    tx: TransactionType,
    profile: Option<String>,
    name: Seq<char>,
    inp: BackendInput,
) -> bool {
    if !(exists|j: int|
        0 <= j < mcas.len() && spec_mca_selected(mcas[j], tx, profile) && mcas[j].connector_name@
            == name) {
        true
    } else {
        (exists|j: int|
            0 <= j < mcas.len() && spec_mca_selected(mcas[j], tx, profile)
                && mcas[j].connector_name@ == name && spec_account_sat(inp, mcas[j]))
            && spec_filter_ok(inp, spec_filter_for(fcfg, name))
    }
}

#[verifier::loop_isolation(false)]
fn build_currency_pred(cs: &Vec<Currency>) -> (r: Constraint)
    ensures
        forall|inp: BackendInput| #[trigger] spec_sat(inp, r) == exists|i: int|
            0 <= i < cs@.len() && spec_input_has(inp, FieldValue::Currency(cs@[i])),
{
    let mut vals: Vec<FieldValue> = Vec::new();
    let mut i: usize = 0;
    while i < cs.len()
        invariant
            i <= cs@.len(),
            vals@.len() == i,
            forall|k: int| 0 <= k < i ==> vals@[k] == FieldValue::Currency(cs@[k]),
        decreases cs@.len() - i,
    {
        vals.push(FieldValue::Currency(cs[i]));
        i += 1;
    }
    let ghost gvals = vals@;
    let r = Constraint::Pred(vals);
    proof {
        assert forall|inp: BackendInput| #[trigger] spec_sat(inp, r) == exists|k: int|
            0 <= k < cs@.len() && spec_input_has(inp, FieldValue::Currency(cs@[k])) by {
            if spec_sat(inp, r) {
                let k = choose|k: int| 0 <= k < gvals.len() && spec_input_has(inp, gvals[k]);
                assert(spec_input_has(inp, FieldValue::Currency(cs@[k])));
            }
            if exists|k: int| 0 <= k < cs@.len() && spec_input_has(inp, FieldValue::Currency(cs@[k])) {
                let k = choose|k: int|
                    0 <= k < cs@.len() && spec_input_has(inp, FieldValue::Currency(cs@[k]));
                assert(spec_input_has(inp, gvals[k]));
                assert(pred_sat(inp, gvals));
            }
        };
    }
    r
}

#[verifier::loop_isolation(false)]
fn build_country_pred(cs: &Vec<Country>) -> (r: Constraint)
    ensures
        forall|inp: BackendInput| #[trigger] spec_sat(inp, r) == exists|i: int|
            0 <= i < cs@.len() && spec_input_has(inp, FieldValue::BillingCountry(cs@[i])),
{
    let mut vals: Vec<FieldValue> = Vec::new();
    let mut i: usize = 0;
    while i < cs.len()
        invariant
            i <= cs@.len(),
            vals@.len() == i,
            forall|k: int| 0 <= k < i ==> vals@[k] == FieldValue::BillingCountry(cs@[k]),
        decreases cs@.len() - i,
    {
        vals.push(FieldValue::BillingCountry(cs[i]));
        i += 1;
    }
    let ghost gvals = vals@;
    let r = Constraint::Pred(vals);
    proof {
        assert forall|inp: BackendInput| #[trigger] spec_sat(inp, r) == exists|k: int|
            0 <= k < cs@.len() && spec_input_has(inp, FieldValue::BillingCountry(cs@[k])) by {
            if spec_sat(inp, r) {
                let k = choose|k: int| 0 <= k < gvals.len() && spec_input_has(inp, gvals[k]);
                assert(spec_input_has(inp, FieldValue::BillingCountry(cs@[k])));
            }
            if exists|k: int|
                0 <= k < cs@.len() && spec_input_has(inp, FieldValue::BillingCountry(cs@[k])) {
                let k = choose|k: int|
                    0 <= k < cs@.len() && spec_input_has(inp, FieldValue::BillingCountry(cs@[k]));
                assert(spec_input_has(inp, gvals[k]));
                assert(pred_sat(inp, gvals));
            }
        };
    }
    r
}

/// An always-true node: a conjunction over nothing.
fn build_true() -> (r: Constraint)
    ensures
        forall|inp: BackendInput| #[trigger] spec_sat(inp, r) == true,
{
    let vals: Vec<Constraint> = Vec::new();
    let ghost gvals = vals@;
    let r = Constraint::AllOf(vals);
    proof {
        assert forall|inp: BackendInput| #[trigger] spec_sat(inp, r) == true by {
            assert(all_sat_from(inp, gvals, 0));
        };
    }
    r
}

fn build_single_pred(v: FieldValue) -> (r: Constraint)
    ensures
        forall|inp: BackendInput| #[trigger] spec_sat(inp, r) == spec_input_has(inp, v),
{
    let ghost gv = v;
    let mut vals: Vec<FieldValue> = Vec::new();
    vals.push(v);
    let ghost gvals = vals@;
    let r = Constraint::Pred(vals);
    proof {
        assert forall|inp: BackendInput| #[trigger] spec_sat(inp, r) == spec_input_has(inp, gv) by {
            assert(gvals[0] == gv);
            if spec_input_has(inp, gv) {
                assert(spec_input_has(inp, gvals[0]));
                assert(pred_sat(inp, gvals));
            }
        };
    }
    r
}

#[verifier::loop_isolation(false)]
fn build_cap_constraint(cap: &McaCapability) -> (r: Constraint)
    ensures
        forall|inp: BackendInput| #[trigger] spec_sat(inp, r) == spec_cap_sat(inp, *cap),
{
    let mut parts: Vec<Constraint> = Vec::new();
    parts.push(build_single_pred(FieldValue::PaymentMethod(cap.payment_method)));
    parts.push(build_single_pred(FieldValue::PaymentMethodType(cap.payment_method_type)));
    match &cap.currencies {
        Some(cs) => parts.push(build_currency_pred(cs)),
        None => parts.push(build_true()),
    }
    match &cap.countries {
        Some(cs) => parts.push(build_country_pred(cs)),
        None => parts.push(build_true()),
    }
    let ghost gparts = parts@;
    let r = Constraint::AllOf(parts);
    proof {
        assert forall|inp: BackendInput| #[trigger] spec_sat(inp, r) == spec_cap_sat(inp, *cap) by {
            lemma_all_sat_from(inp, gparts, 0);
            assert(gparts.len() == 4);
            if spec_sat(inp, r) {
                assert(spec_sat(inp, gparts[0]));
                assert(spec_sat(inp, gparts[1]));
                assert(spec_sat(inp, gparts[2]));
                assert(spec_sat(inp, gparts[3]));
            }
            if spec_cap_sat(inp, *cap) {
                assert forall|i: int| 0 <= i < gparts.len() implies spec_sat(
                    inp,
                    #[trigger] gparts[i],
                ) by {
                    assert(spec_sat(inp, gparts[0]));
                    assert(spec_sat(inp, gparts[1]));
                    assert(spec_sat(inp, gparts[2]));
                    assert(spec_sat(inp, gparts[3]));
                };
            }
        };
    }
    r
}

#[verifier::loop_isolation(false)]
fn build_account_constraint(m: &MerchantConnectorAccount) -> (r: Constraint)
    ensures
        forall|inp: BackendInput| #[trigger] spec_sat(inp, r) == spec_account_sat(inp, *m),
{
    let mut parts: Vec<Constraint> = Vec::new();
    let mut i: usize = 0;
    while i < m.capabilities.len()
        invariant
            i <= m.capabilities@.len(),
            parts@.len() == i,
            forall|k: int, inp: BackendInput|
                0 <= k < i ==> #[trigger] spec_sat(inp, parts@[k]) == spec_cap_sat(
                    inp,
                    m.capabilities@[k],
                ),
        decreases m.capabilities@.len() - i,
    {
        parts.push(build_cap_constraint(&m.capabilities[i]));
        i += 1;
    }
    let ghost gparts = parts@;
    let r = Constraint::AnyOf(parts);
    proof {
        assert forall|inp: BackendInput| #[trigger] spec_sat(inp, r) == spec_account_sat(inp, *m) by {
            lemma_any_sat_from(inp, gparts, 0);
            if spec_sat(inp, r) {
                let k = choose|k: int| 0 <= k < gparts.len() && spec_sat(inp, gparts[k]);
                assert(spec_cap_sat(inp, m.capabilities@[k]));
            }
            if spec_account_sat(inp, *m) {
                let k = choose|k: int|
                    0 <= k < m.capabilities@.len() && spec_cap_sat(inp, m.capabilities@[k]);
                assert(spec_sat(inp, gparts[k]));
            }
        };
    }
    r
}

#[verifier::loop_isolation(false)]
fn build_triple_constraint(t: &FilterTriple) -> (r: Constraint)
    ensures
        forall|inp: BackendInput| #[trigger] spec_sat(inp, r) == spec_triple_sat(inp, *t),
{
    let mut parts: Vec<Constraint> = Vec::new();
    match t.country {
        Some(c) => parts.push(build_single_pred(FieldValue::BillingCountry(c))),
        None => parts.push(build_true()),
    }
    match t.currency {
        Some(c) => parts.push(build_single_pred(FieldValue::Currency(c))),
        None => parts.push(build_true()),
    }
    match t.payment_method_type {
        Some(p) => parts.push(build_single_pred(FieldValue::PaymentMethodType(p))),
        None => parts.push(build_true()),
    }
    let ghost gparts = parts@;
    let r = Constraint::AllOf(parts);
    proof {
        assert forall|inp: BackendInput| #[trigger] spec_sat(inp, r) == spec_triple_sat(inp, *t) by {
            lemma_all_sat_from(inp, gparts, 0);
            assert(gparts.len() == 3);
            if spec_sat(inp, r) {
                assert(spec_sat(inp, gparts[0]));
                assert(spec_sat(inp, gparts[1]));
                assert(spec_sat(inp, gparts[2]));
            }
            if spec_triple_sat(inp, *t) {
                assert forall|i: int| 0 <= i < gparts.len() implies spec_sat(
                    inp,
                    #[trigger] gparts[i],
                ) by {
                    assert(spec_sat(inp, gparts[0]));
                    assert(spec_sat(inp, gparts[1]));
                    assert(spec_sat(inp, gparts[2]));
                };
            }
        };
    }
    r
}

#[verifier::loop_isolation(false)]
fn build_filter_constraint(f: &PaymentMethodFilter) -> (r: Constraint)
    ensures
        forall|inp: BackendInput| #[trigger] spec_sat(inp, r) == spec_filter_sat(inp, *f),
{
    let mut parts: Vec<Constraint> = Vec::new();
    let mut i: usize = 0;
    while i < f.allowed.len()
        invariant
            i <= f.allowed@.len(),
            parts@.len() == i,
            forall|k: int, inp: BackendInput|
                0 <= k < i ==> #[trigger] spec_sat(inp, parts@[k]) == spec_triple_sat(
                    inp,
                    f.allowed@[k],
                ),
        decreases f.allowed@.len() - i,
    {
        parts.push(build_triple_constraint(&f.allowed[i]));
        i += 1;
    }
    let ghost gparts = parts@;
    let r = Constraint::AnyOf(parts);
    proof {
        assert forall|inp: BackendInput| #[trigger] spec_sat(inp, r) == spec_filter_sat(inp, *f) by {
            lemma_any_sat_from(inp, gparts, 0);
            if spec_sat(inp, r) {
                let k = choose|k: int| 0 <= k < gparts.len() && spec_sat(inp, gparts[k]);
                assert(spec_triple_sat(inp, f.allowed@[k]));
            }
            if spec_filter_sat(inp, *f) {
                let k = choose|k: int|
                    0 <= k < f.allowed@.len() && spec_triple_sat(inp, f.allowed@[k]);
                assert(spec_sat(inp, gparts[k]));
            }
        };
    }
    r
}

#[verifier::loop_isolation(false)]
fn cfg_find<'a>(l: &'a Vec<(String, PaymentMethodFilter)>, name: &String) -> (r: Option<
    &'a PaymentMethodFilter,
>)
    ensures
        match r {
            Some(f) => spec_cfg_lookup(l@, name@) == Some(*f),
            None => spec_cfg_lookup(l@, name@) is None,
        },
{
    proof {
        assert(l@.subrange(0, l@.len() as int) =~= l@);
    }
    let mut i: usize = 0;
    while i < l.len()
        invariant
            i <= l@.len(),
            spec_cfg_lookup(l@, name@) == spec_cfg_lookup(
                l@.subrange(i as int, l@.len() as int),
                name@,
            ),
        decreases l@.len() - i,
    {
        let ghost rest = l@.subrange(i as int, l@.len() as int);
        proof {
            assert(rest.drop_first() =~= l@.subrange(i as int + 1, l@.len() as int));
            assert(rest[0] == l@[i as int]);
        }
        if l[i].0 == *name {
            return Some(&l[i].1);
        }
        i += 1;
    }
    proof {
        assert(l@.subrange(l@.len() as int, l@.len() as int) =~= Seq::<
            (String, PaymentMethodFilter),
        >::empty());
    }
    None
}

fn build_filter_part(fcfg: &CountryCurrencyFilter, name: &String) -> (r: Constraint)
    ensures
        forall|inp: BackendInput| #[trigger] spec_sat(inp, r) == spec_filter_ok(
            inp,
            spec_filter_for(*fcfg, name@),
        ),
{
    match cfg_find(&fcfg.entries, name) {
        Some(f) => build_filter_constraint(f),
        None => {
            let default_key = String::from_str("default");
            match cfg_find(&fcfg.entries, &default_key) {
                Some(f) => build_filter_constraint(f),
                None => build_true(),
            }
        },
    }
}

/// Builds the constraint graph from the merchant's connector accounts and
/// the global payment-method filters: disabled accounts and accounts of
/// the wrong role or profile contribute nothing; every other account
/// contributes one root for its connector, carrying its capabilities
/// conjoined with the connector's filter allow-set.
#[verifier::loop_isolation(false)]
pub fn make_mca_graph(
    mcas: &Vec<MerchantConnectorAccount>,
    fcfg: &CountryCurrencyFilter,
    profile_id: &Option<String>,
    transaction_type: TransactionType,
) -> (g: CompiledCGraph)
    ensures
        forall|name: Seq<char>, inp: BackendInput| #[trigger] spec_check_validity(g, inp, name)
            == spec_connector_eligible(mcas@, *fcfg, transaction_type, *profile_id, name, inp),
{
    let mut roots: Vec<(String, Constraint)> = Vec::new();
    let ghost mut owner: Seq<int> = Seq::empty();
    let mut j: usize = 0;
    while j < mcas.len()
        invariant
            j <= mcas@.len(),
            owner.len() == roots@.len(),
            forall|k: int|
                0 <= k < roots@.len() ==> 0 <= #[trigger] owner[k] < j && spec_mca_selected(
                    mcas@[owner[k]],
                    transaction_type,
                    *profile_id,
                ) && roots@[k].0@ == mcas@[owner[k]].connector_name@,
            forall|k: int, inp: BackendInput|
                0 <= k < roots@.len() ==> #[trigger] spec_sat(inp, roots@[k].1) == (
                spec_account_sat(inp, mcas@[owner[k]]) && spec_filter_ok(
                    inp,
                    spec_filter_for(*fcfg, roots@[k].0@),
                )),
            forall|a: int|
                0 <= a < j && spec_mca_selected(mcas@[a], transaction_type, *profile_id)
                    ==> exists|k: int| 0 <= k < owner.len() && owner[k] == a,
        decreases mcas@.len() - j,
    {
        if mca_selected(&mcas[j], transaction_type, profile_id) {
            let account_part = build_account_constraint(&mcas[j]);
            let filter_part = build_filter_part(fcfg, &mcas[j].connector_name);
            let mut parts: Vec<Constraint> = Vec::new();
            parts.push(account_part);
            parts.push(filter_part);
            let ghost gparts = parts@;
            let root = Constraint::AllOf(parts);
            proof {
                assert forall|inp: BackendInput| #[trigger] spec_sat(inp, root) == (
                spec_account_sat(inp, mcas@[j as int]) && spec_filter_ok(
                    inp,
                    spec_filter_for(*fcfg, mcas@[j as int].connector_name@),
                )) by {
                    lemma_all_sat_from(inp, gparts, 0);
                    assert(gparts.len() == 2);
                    if spec_sat(inp, root) {
                        assert(spec_sat(inp, gparts[0]));
                        assert(spec_sat(inp, gparts[1]));
                    }
                    if spec_account_sat(inp, mcas@[j as int]) && spec_filter_ok(
                        inp,
                        spec_filter_for(*fcfg, mcas@[j as int].connector_name@),
                    ) {
                        assert forall|i: int| 0 <= i < gparts.len() implies spec_sat(
                            inp,
                            #[trigger] gparts[i],
                        ) by {
                            assert(spec_sat(inp, gparts[0]));
                            assert(spec_sat(inp, gparts[1]));
                        };
                    }
                };
            }
            roots.push((mcas[j].connector_name.clone(), root));
            proof {
                let old_owner = owner;
                owner = owner.push(j as int);
                assert forall|a: int|
                    0 <= a < j + 1 && spec_mca_selected(
                        mcas@[a],
                        transaction_type,
                        *profile_id,
                    ) implies exists|k: int| 0 <= k < owner.len() && owner[k] == a by {
                    if a == j {
                        assert(owner[owner.len() - 1] == a);
                    } else {
                        let k = choose|k: int| 0 <= k < old_owner.len() && old_owner[k] == a;
                        assert(owner[k] == a);
                    }
                };
            }
        }
        j += 1;
    }
    let g = CompiledCGraph { roots };
    proof {
        assert forall|name: Seq<char>, inp: BackendInput| #[trigger] spec_check_validity(
            g,
            inp,
            name,
        ) == spec_connector_eligible(
            mcas@,
            *fcfg,
            transaction_type,
            *profile_id,
            name,
            inp,
        ) by {
            if spec_has_root(g.roots@, name) {
                let k0 = choose|k: int| 0 <= k < g.roots@.len() && g.roots@[k].0@ == name;
                assert(mcas@[owner[k0]].connector_name@ == name);
                assert(0 <= owner[k0] < mcas@.len() && spec_mca_selected(
                    mcas@[owner[k0]],
                    transaction_type,
                    *profile_id,
                ) && mcas@[owner[k0]].connector_name@ == name);
                if spec_check_validity(g, inp, name) {
                    let k1 = choose|k: int|
                        0 <= k < g.roots@.len() && g.roots@[k].0@ == name && spec_sat(
                            inp,
                            g.roots@[k].1,
                        );
                    assert(spec_account_sat(inp, mcas@[owner[k1]]));
                    assert(spec_filter_ok(inp, spec_filter_for(*fcfg, name)));
                    assert(spec_connector_eligible(
                        mcas@,
                        *fcfg,
                        transaction_type,
                        *profile_id,
                        name,
                        inp,
                    ));
                } else {
                    if spec_connector_eligible(
                        mcas@,
                        *fcfg,
                        transaction_type,
                        *profile_id,
                        name,
                        inp,
                    ) {
                        let a0 = choose|a: int|
                            0 <= a < mcas@.len() && spec_mca_selected(
                                mcas@[a],
                                transaction_type,
                                *profile_id,
                            ) && mcas@[a].connector_name@ == name && spec_account_sat(
                                inp,
                                mcas@[a],
                            );
                        let k2 = choose|k: int| 0 <= k < owner.len() && owner[k] == a0;
                        assert(g.roots@[k2].0@ == name);
                        assert(spec_sat(inp, g.roots@[k2].1));
                        assert(spec_check_validity(g, inp, name));
                    }
                }
            } else {
                assert forall|a: int|
                    0 <= a < mcas@.len() && spec_mca_selected(
                        mcas@[a],
                        transaction_type,
                        *profile_id,
                    ) implies mcas@[a].connector_name@ != name by {
                    if mcas@[a].connector_name@ == name {
                        let kw = choose|k: int| 0 <= k < owner.len() && owner[k] == a;
                        assert(g.roots@[kw].0@ == name);
                    }
                };
            }
        };
    }
    g
}

} // verus!
