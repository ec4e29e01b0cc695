//! The rule-DSL backend: normalized payment inputs, compiled rule programs
//! and their interpreter.
//!
//! A program is an ordered list of rules over a `BackendInput`. Each rule
//! carries a connector selection and fires when any of its statements holds;
//! a statement is a conjunction of atomic comparisons. The first firing rule
//! decides; otherwise the program's default selection does. A comparison
//! against an absent input field, or an ordering comparison on anything but
//! the amount, is an interpreter fault.

use vstd::prelude::*;
use crate::enums::{
    AuthenticationType, CaptureMethod, CardNetwork, Country, Currency, MandateAcceptanceType,
    MandateType, PaymentMethod, PaymentMethodType, PaymentType, SetupFutureUsage,
};
use crate::errors::RoutingError;
use crate::types::{ConnectorVolumeSplit, RoutableConnectorChoice};

verus! {

/// Payment attributes a program can inspect.
#[derive(Debug)]
pub struct PaymentInput {
    pub amount: u64,
    pub currency: Currency,
    pub card_bin: Option<String>,
    pub authentication_type: Option<AuthenticationType>,
    pub capture_method: Option<CaptureMethod>,
    pub business_country: Option<Country>,
    pub billing_country: Option<Country>,
    pub business_label: Option<String>,
    pub setup_future_usage: Option<SetupFutureUsage>,
}

/// Payment-method attributes a program can inspect.
#[derive(Clone, Copy, Debug)]
pub struct PaymentMethodInput {
    pub payment_method: Option<PaymentMethod>,
    pub payment_method_type: Option<PaymentMethodType>,
    pub card_network: Option<CardNetwork>,
}

/// Mandate attributes a program can inspect.
#[derive(Clone, Copy, Debug)]
pub struct MandateData {
    pub mandate_acceptance_type: Option<MandateAcceptanceType>,
    pub mandate_type: Option<MandateType>,
    pub payment_type: Option<PaymentType>,
}

/// The normalized projection of a payment or payout that the interpreter
/// and the constraint graph consume. Metadata is an ordered key/value list;
/// the first entry with a key wins.
#[derive(Debug)]
pub struct BackendInput {
    pub payment: PaymentInput,
    pub payment_method: PaymentMethodInput,
    pub mandate: MandateData,
    pub metadata: Option<Vec<(String, String)>>,
}

/// The value stored under the first occurrence of `key`.
pub open spec fn meta_lookup(m: Seq<(String, String)>, key: Seq<char>) -> Option<String>
    decreases m.len(),
{
    if m.len() == 0 {
        None
    } else if m[0].0@ == key {
        Some(m[0].1)
    } else {
        meta_lookup(m.drop_first(), key)
    }
}

pub fn meta_get(m: &Vec<(String, String)>, key: &String) -> (r: Option<String>)
    ensures
        r == meta_lookup(m@, key@),
{
    proof {
        assert(m@.subrange(0, m@.len() as int) =~= m@);
    }
    let mut i: usize = 0;
    while i < m.len()
        invariant
            i <= m@.len(),
            meta_lookup(m@, key@) == meta_lookup(m@.subrange(i as int, m@.len() as int), key@),
        decreases m@.len() - i,
    {
        let ghost rest = m@.subrange(i as int, m@.len() as int);
        if m[i].0 == *key {
            return Some(m[i].1.clone());
        }
        proof {
            assert(rest.drop_first() =~= m@.subrange(i as int + 1, m@.len() as int));
        }
        i += 1;
    }
    proof {
        assert(m@.subrange(m@.len() as int, m@.len() as int) =~= Seq::<(String, String)>::empty());
    }
    None
}

/// One typed value of one input field; the constructor names the field.
#[derive(Debug)]
pub enum FieldValue {
    Amount(u64),
    Currency(Currency),
    CardBin(String),
    AuthenticationType(AuthenticationType),
    CaptureMethod(CaptureMethod),
    BusinessCountry(Country),
    BillingCountry(Country),
    BusinessLabel(String),
    SetupFutureUsage(SetupFutureUsage),
    PaymentMethod(PaymentMethod),
    PaymentMethodType(PaymentMethodType),
    CardNetwork(CardNetwork),
    MandateAcceptanceType(MandateAcceptanceType),
    MandateType(MandateType),
    PaymentType(PaymentType),
    Metadata { key: String, value: String },
}

impl Clone for FieldValue {
    fn clone(&self) -> (res: Self)
        ensures
            res == *self,
    {
        match self {
            FieldValue::Amount(x) => FieldValue::Amount(*x),
            FieldValue::Currency(x) => FieldValue::Currency(*x),
            FieldValue::CardBin(x) => FieldValue::CardBin(x.clone()),
            FieldValue::AuthenticationType(x) => FieldValue::AuthenticationType(*x),
            FieldValue::CaptureMethod(x) => FieldValue::CaptureMethod(*x),
            FieldValue::BusinessCountry(x) => FieldValue::BusinessCountry(*x),
            FieldValue::BillingCountry(x) => FieldValue::BillingCountry(*x),
            FieldValue::BusinessLabel(x) => FieldValue::BusinessLabel(x.clone()),
            FieldValue::SetupFutureUsage(x) => FieldValue::SetupFutureUsage(*x),
            FieldValue::PaymentMethod(x) => FieldValue::PaymentMethod(*x),
            FieldValue::PaymentMethodType(x) => FieldValue::PaymentMethodType(*x),
            FieldValue::CardNetwork(x) => FieldValue::CardNetwork(*x),
            FieldValue::MandateAcceptanceType(x) => FieldValue::MandateAcceptanceType(*x),
            FieldValue::MandateType(x) => FieldValue::MandateType(*x),
            FieldValue::PaymentType(x) => FieldValue::PaymentType(*x),
            FieldValue::Metadata { key, value } => FieldValue::Metadata {
                key: key.clone(),
                value: value.clone(),
            },
        }
    }
}

/// Content equality of two field values: same field, same value, strings
/// by their characters.
pub open spec fn fv_eq(a: FieldValue, b: FieldValue) -> bool {
    match (a, b) {
        (FieldValue::Amount(x), FieldValue::Amount(y)) => x == y,
        (FieldValue::Currency(x), FieldValue::Currency(y)) => x == y,
        (FieldValue::CardBin(x), FieldValue::CardBin(y)) => x@ == y@,
        (FieldValue::AuthenticationType(x), FieldValue::AuthenticationType(y)) => x == y,
        (FieldValue::CaptureMethod(x), FieldValue::CaptureMethod(y)) => x == y,
        (FieldValue::BusinessCountry(x), FieldValue::BusinessCountry(y)) => x == y,
        (FieldValue::BillingCountry(x), FieldValue::BillingCountry(y)) => x == y,
        (FieldValue::BusinessLabel(x), FieldValue::BusinessLabel(y)) => x@ == y@,
        (FieldValue::SetupFutureUsage(x), FieldValue::SetupFutureUsage(y)) => x == y,
        (FieldValue::PaymentMethod(x), FieldValue::PaymentMethod(y)) => x == y,
        (FieldValue::PaymentMethodType(x), FieldValue::PaymentMethodType(y)) => x == y,
        (FieldValue::CardNetwork(x), FieldValue::CardNetwork(y)) => x == y,
        (FieldValue::MandateAcceptanceType(x), FieldValue::MandateAcceptanceType(y)) => x == y,
        (FieldValue::MandateType(x), FieldValue::MandateType(y)) => x == y,
        (FieldValue::PaymentType(x), FieldValue::PaymentType(y)) => x == y,
        (
            FieldValue::Metadata { key: k1, value: v1 },
            FieldValue::Metadata { key: k2, value: v2 },
        ) => k1@ == k2@ && v1@ == v2@,
        _ => false,
    }
}

pub fn eq_fv(a: &FieldValue, b: &FieldValue) -> (r: bool)
    ensures
        r == fv_eq(*a, *b),
{
    match (a, b) {
        (FieldValue::Amount(x), FieldValue::Amount(y)) => *x == *y,
        (FieldValue::Currency(x), FieldValue::Currency(y)) => *x == *y,
        (FieldValue::CardBin(x), FieldValue::CardBin(y)) => *x == *y,
        (FieldValue::AuthenticationType(x), FieldValue::AuthenticationType(y)) => *x == *y,
        (FieldValue::CaptureMethod(x), FieldValue::CaptureMethod(y)) => *x == *y,
        (FieldValue::BusinessCountry(x), FieldValue::BusinessCountry(y)) => *x == *y,
        (FieldValue::BillingCountry(x), FieldValue::BillingCountry(y)) => *x == *y,
        (FieldValue::BusinessLabel(x), FieldValue::BusinessLabel(y)) => *x == *y,
        (FieldValue::SetupFutureUsage(x), FieldValue::SetupFutureUsage(y)) => *x == *y,
        (FieldValue::PaymentMethod(x), FieldValue::PaymentMethod(y)) => *x == *y,
        (FieldValue::PaymentMethodType(x), FieldValue::PaymentMethodType(y)) => *x == *y,
        (FieldValue::CardNetwork(x), FieldValue::CardNetwork(y)) => *x == *y,
        (FieldValue::MandateAcceptanceType(x), FieldValue::MandateAcceptanceType(y)) => *x == *y,
        (FieldValue::MandateType(x), FieldValue::MandateType(y)) => *x == *y,
        (FieldValue::PaymentType(x), FieldValue::PaymentType(y)) => *x == *y,
        (
            FieldValue::Metadata { key: k1, value: v1 },
            FieldValue::Metadata { key: k2, value: v2 },
        ) => *k1 == *k2 && *v1 == *v2,
        _ => false,
    }
}

/// The input's value in the field that `v` names, if present.
pub open spec fn spec_field_of(inp: BackendInput, v: FieldValue) -> Option<FieldValue> {
    match v {
        FieldValue::Amount(_) => Some(FieldValue::Amount(inp.payment.amount)),
        FieldValue::Currency(_) => Some(FieldValue::Currency(inp.payment.currency)),
        FieldValue::CardBin(_) => match inp.payment.card_bin {
            Some(b) => Some(FieldValue::CardBin(b)),
            None => None,
        },
        FieldValue::AuthenticationType(_) => match inp.payment.authentication_type {
            Some(x) => Some(FieldValue::AuthenticationType(x)),
            None => None,
        },
        FieldValue::CaptureMethod(_) => match inp.payment.capture_method {
            Some(x) => Some(FieldValue::CaptureMethod(x)),
            None => None,
        },
        FieldValue::BusinessCountry(_) => match inp.payment.business_country {
            Some(x) => Some(FieldValue::BusinessCountry(x)),
            None => None,
        },
        FieldValue::BillingCountry(_) => match inp.payment.billing_country {
            Some(x) => Some(FieldValue::BillingCountry(x)),
            None => None,
        },
        FieldValue::BusinessLabel(_) => match inp.payment.business_label {
            Some(x) => Some(FieldValue::BusinessLabel(x)),
            None => None,
        },
        FieldValue::SetupFutureUsage(_) => match inp.payment.setup_future_usage {
            Some(x) => Some(FieldValue::SetupFutureUsage(x)),
            None => None,
        },
        FieldValue::PaymentMethod(_) => match inp.payment_method.payment_method {
            Some(x) => Some(FieldValue::PaymentMethod(x)),
            None => None,
        },
        FieldValue::PaymentMethodType(_) => match inp.payment_method.payment_method_type {
            Some(x) => Some(FieldValue::PaymentMethodType(x)),
            None => None,
        },
        FieldValue::CardNetwork(_) => match inp.payment_method.card_network {
            Some(x) => Some(FieldValue::CardNetwork(x)),
            None => None,
        },
        FieldValue::MandateAcceptanceType(_) => match inp.mandate.mandate_acceptance_type {
            Some(x) => Some(FieldValue::MandateAcceptanceType(x)),
            None => None,
        },
        FieldValue::MandateType(_) => match inp.mandate.mandate_type {
            Some(x) => Some(FieldValue::MandateType(x)),
            None => None,
        },
        FieldValue::PaymentType(_) => match inp.mandate.payment_type {
            Some(x) => Some(FieldValue::PaymentType(x)),
            None => None,
        },
        FieldValue::Metadata { key, value: _ } => match inp.metadata {
            Some(m) => match meta_lookup(m@, key@) {
                Some(val) => Some(FieldValue::Metadata { key: key, value: val }),
                None => None,
            },
            None => None,
        },
    }
}

pub fn field_of(inp: &BackendInput, v: &FieldValue) -> (r: Option<FieldValue>)
    ensures
        r == spec_field_of(*inp, *v),
{
    match v {
        FieldValue::Amount(_) => Some(FieldValue::Amount(inp.payment.amount)),
        FieldValue::Currency(_) => Some(FieldValue::Currency(inp.payment.currency)),
        FieldValue::CardBin(_) => match &inp.payment.card_bin {
            Some(b) => Some(FieldValue::CardBin(b.clone())),
            None => None,
        },
        FieldValue::AuthenticationType(_) => match inp.payment.authentication_type {
            Some(x) => Some(FieldValue::AuthenticationType(x)),
            None => None,
        },
        FieldValue::CaptureMethod(_) => match inp.payment.capture_method {
            Some(x) => Some(FieldValue::CaptureMethod(x)),
            None => None,
        },
        FieldValue::BusinessCountry(_) => match inp.payment.business_country {
            Some(x) => Some(FieldValue::BusinessCountry(x)),
            None => None,
        },
        FieldValue::BillingCountry(_) => match inp.payment.billing_country {
            Some(x) => Some(FieldValue::BillingCountry(x)),
            None => None,
        },
        FieldValue::BusinessLabel(_) => match &inp.payment.business_label {
            Some(x) => Some(FieldValue::BusinessLabel(x.clone())),
            None => None,
        },
        FieldValue::SetupFutureUsage(_) => match inp.payment.setup_future_usage {
            Some(x) => Some(FieldValue::SetupFutureUsage(x)),
            None => None,
        },
        FieldValue::PaymentMethod(_) => match inp.payment_method.payment_method {
            Some(x) => Some(FieldValue::PaymentMethod(x)),
            None => None,
        },
        FieldValue::PaymentMethodType(_) => match inp.payment_method.payment_method_type {
            Some(x) => Some(FieldValue::PaymentMethodType(x)),
            None => None,
        },
        FieldValue::CardNetwork(_) => match inp.payment_method.card_network {
            Some(x) => Some(FieldValue::CardNetwork(x)),
            None => None,
        },
        FieldValue::MandateAcceptanceType(_) => match inp.mandate.mandate_acceptance_type {
            Some(x) => Some(FieldValue::MandateAcceptanceType(x)),
            None => None,
        },
        FieldValue::MandateType(_) => match inp.mandate.mandate_type {
            Some(x) => Some(FieldValue::MandateType(x)),
            None => None,
        },
        FieldValue::PaymentType(_) => match inp.mandate.payment_type {
            Some(x) => Some(FieldValue::PaymentType(x)),
            None => None,
        },
        FieldValue::Metadata { key, value: _ } => match &inp.metadata {
            Some(m) => match meta_get(m, key) {
                Some(val) => Some(FieldValue::Metadata { key: key.clone(), value: val }),
                None => None,
            },
            None => None,
        },
    }
}

#[derive(Clone, Copy, Debug, PartialEq, Eq, Structural)]
pub enum CompOp {
    Equal,
    NotEqual,
    GreaterThan,
    LessThan,
    GreaterThanEqual,
    LessThanEqual,
}

/// One atomic comparison: the input field named by `value` against `value`.
#[derive(Debug)]
pub struct Comparison {
    pub op: CompOp,
    pub value: FieldValue,
}

impl Clone for Comparison {
    fn clone(&self) -> (res: Self)
        ensures
            res == *self,
    {
        Comparison { op: self.op, value: self.value.clone() }
    }
}

/// `None` is an interpreter fault: the field is absent, or an ordering
/// comparison was asked of a field that is not the amount.
pub open spec fn spec_eval_comparison(inp: BackendInput, c: Comparison) -> Option<bool> {
    match spec_field_of(inp, c.value) {
        None => None,
        Some(actual) => match c.op {
            CompOp::Equal => Some(fv_eq(actual, c.value)),
            CompOp::NotEqual => Some(!fv_eq(actual, c.value)),
            _ => match (actual, c.value) {
                (FieldValue::Amount(x), FieldValue::Amount(y)) => match c.op {
                    CompOp::GreaterThan => Some(x > y),
                    CompOp::LessThan => Some(x < y),
                    CompOp::GreaterThanEqual => Some(x >= y),
                    CompOp::LessThanEqual => Some(x <= y),
                    _ => None,
                },
                _ => None,
            },
        },
    }
}

pub fn eval_comparison(inp: &BackendInput, c: &Comparison) -> (r: Option<bool>)
    ensures
        r == spec_eval_comparison(*inp, *c),
{
    match field_of(inp, &c.value) {
        None => None,
        Some(actual) => match c.op {
            CompOp::Equal => Some(eq_fv(&actual, &c.value)),
            CompOp::NotEqual => Some(!eq_fv(&actual, &c.value)),
            _ => match (&actual, &c.value) {
                (FieldValue::Amount(x), FieldValue::Amount(y)) => match c.op {
                    CompOp::GreaterThan => Some(*x > *y),
                    CompOp::LessThan => Some(*x < *y),
                    CompOp::GreaterThanEqual => Some(*x >= *y),
                    CompOp::LessThanEqual => Some(*x <= *y),
                    _ => None,
                },
                _ => None,
            },
        },
    }
}

/// One statement: a conjunction of comparisons, evaluated left to right.
/// A false condition decides before a later fault can.
#[derive(Debug)]
pub struct IfStatement {
    pub conditions: Vec<Comparison>,
}

pub open spec fn spec_eval_conjunction(inp: BackendInput, cs: Seq<Comparison>) -> Option<bool>
    decreases cs.len(),
{
    if cs.len() == 0 {
        Some(true)
    } else {
        match spec_eval_comparison(inp, cs[0]) {
            None => None,
            Some(false) => Some(false),
            Some(true) => spec_eval_conjunction(inp, cs.drop_first()),
        }
    }
}

pub fn eval_conjunction(inp: &BackendInput, cs: &Vec<Comparison>) -> (r: Option<bool>)
    ensures
        r == spec_eval_conjunction(*inp, cs@),
{
    proof {
        assert(cs@.subrange(0, cs@.len() as int) =~= cs@);
    }
    let mut i: usize = 0;
    while i < cs.len()
        invariant
            i <= cs@.len(),
            spec_eval_conjunction(*inp, cs@) == spec_eval_conjunction(
                *inp,
                cs@.subrange(i as int, cs@.len() as int),
            ),
        decreases cs@.len() - i,
    {
        let ghost rest = cs@.subrange(i as int, cs@.len() as int);
        proof {
            assert(rest.drop_first() =~= cs@.subrange(i as int + 1, cs@.len() as int));
            assert(rest[0] == cs@[i as int]);
        }
        match eval_comparison(inp, &cs[i]) {
            None => {
                return None;
            },
            Some(false) => {
                return Some(false);
            },
            Some(true) => {},
        }
        i += 1;
    }
    proof {
        assert(cs@.subrange(cs@.len() as int, cs@.len() as int) =~= Seq::<Comparison>::empty());
    }
    Some(true)
}

/// Statements are a disjunction, evaluated in order; a true statement
/// decides before a later fault can.
pub open spec fn spec_eval_statements(inp: BackendInput, ss: Seq<IfStatement>) -> Option<bool>
    decreases ss.len(),
{
    if ss.len() == 0 {
        Some(false)
    } else {
        match spec_eval_conjunction(inp, ss[0].conditions@) {
            None => None,
            Some(true) => Some(true),
            Some(false) => spec_eval_statements(inp, ss.drop_first()),
        }
    }
}

pub fn eval_statements(inp: &BackendInput, ss: &Vec<IfStatement>) -> (r: Option<bool>)
    ensures
        r == spec_eval_statements(*inp, ss@),
{
    proof {
        assert(ss@.subrange(0, ss@.len() as int) =~= ss@);
    }
    let mut i: usize = 0;
    while i < ss.len()
        invariant
            i <= ss@.len(),
            spec_eval_statements(*inp, ss@) == spec_eval_statements(
                *inp,
                ss@.subrange(i as int, ss@.len() as int),
            ),
        decreases ss@.len() - i,
    {
        let ghost rest = ss@.subrange(i as int, ss@.len() as int);
        proof {
            assert(rest.drop_first() =~= ss@.subrange(i as int + 1, ss@.len() as int));
            assert(rest[0] == ss@[i as int]);
        }
        match eval_conjunction(inp, &ss[i].conditions) {
            None => {
                return None;
            },
            Some(true) => {
                return Some(true);
            },
            Some(false) => {},
        }
        i += 1;
    }
    proof {
        assert(ss@.subrange(ss@.len() as int, ss@.len() as int) =~= Seq::<IfStatement>::empty());
    }
    Some(false)
}

/// What a rule or a program's default selects. A program cannot select
/// another program, so there is no nested advanced variant.
#[derive(Debug)]
pub enum ConnectorSelection {
    Single(RoutableConnectorChoice),
    Priority(Vec<RoutableConnectorChoice>),
    VolumeSplit(Vec<ConnectorVolumeSplit>),
}

/// One rule: fires when any statement holds, and then selects.
#[derive(Debug)]
pub struct Rule {
    pub statements: Vec<IfStatement>,
    pub selection: ConnectorSelection,
}

/// A compiled rule program.
#[derive(Debug)]
pub struct Program {
    pub rules: Vec<Rule>,
    pub default_selection: ConnectorSelection,
}

/// The selection of the first rule that fires, the default when none does,
/// and a fault when a rule faults before any fired.
pub open spec fn spec_eval_rules(
    inp: BackendInput,
    rules: Seq<Rule>,
    default_selection: ConnectorSelection,
) -> Option<ConnectorSelection>
    decreases rules.len(),
{
    if rules.len() == 0 {
        Some(default_selection)
    } else {
        match spec_eval_statements(inp, rules[0].statements@) {
            None => None,
            Some(true) => Some(rules[0].selection),
            Some(false) => spec_eval_rules(inp, rules.drop_first(), default_selection),
        }
    }
}

/// What the program selects on this input; `None` is an interpreter fault.
pub open spec fn spec_eval_program(inp: BackendInput, p: Program) -> Option<ConnectorSelection> {
    spec_eval_rules(inp, p.rules@, p.default_selection)
}

/// Runs a program against an input. On success reports which rule fired
/// (`Some(i)`) or that the default selection applies (`None`); faults
/// exactly where the program's evaluation faults.
pub fn eval_program(inp: &BackendInput, p: &Program) -> (r: Result<Option<usize>, RoutingError>)
    ensures
        r matches Ok(Some(i)) ==> i < p.rules@.len() && spec_eval_program(*inp, *p) == Some(
            p.rules@[i as int].selection,
        ),
        r matches Ok(fired) ==> (fired is None ==> spec_eval_program(*inp, *p) == Some(
            p.default_selection,
        )),
        r matches Err(e) ==> spec_eval_program(*inp, *p) is None && e is DslExecutionError,
        r is Ok <==> spec_eval_program(*inp, *p) is Some,
{
    proof {
        assert(p.rules@.subrange(0, p.rules@.len() as int) =~= p.rules@);
    }
    let mut i: usize = 0;
    while i < p.rules.len()
        invariant
            i <= p.rules@.len(),
            spec_eval_program(*inp, *p) == spec_eval_rules(
                *inp,
                p.rules@.subrange(i as int, p.rules@.len() as int),
                p.default_selection,
            ),
        decreases p.rules@.len() - i,
    {
        let ghost rest = p.rules@.subrange(i as int, p.rules@.len() as int);
        proof {
            assert(rest.drop_first() =~= p.rules@.subrange(i as int + 1, p.rules@.len() as int));
            assert(rest[0] == p.rules@[i as int]);
        }
        match eval_statements(inp, &p.rules[i].statements) {
            None => {
                return Err(RoutingError::DslExecutionError);
            },
            Some(true) => {
                return Ok(Some(i));
            },
            Some(false) => {},
        }
        i += 1;
    }
    proof {
        assert(p.rules@.subrange(p.rules@.len() as int, p.rules@.len() as int) =~= Seq::<
            Rule,
        >::empty());
    }
    Ok(None)
}

} // verus!
