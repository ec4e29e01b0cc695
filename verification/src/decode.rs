//! Decoders from stored JSON trees into routing values.
//!
//! The stored algorithm value is an object discriminated by which single
//! field is present: `single`, `priority`, `volume_split` or `advanced`.
//! The profile's routing reference is untagged: any object is the current
//! version, recognized by its shape, and anything else is rejected so a
//! future version can claim it. Metadata decodes softly: a tree that is
//! not an object of strings stands for absent metadata.

use vstd::prelude::*;
use crate::algorithm::RoutingAlgorithm;
use crate::dsl::{CompOp, Comparison, ConnectorSelection, FieldValue, IfStatement, Program, Rule};
use crate::enums::{
    str_is, AuthenticationType, CaptureMethod, CardNetwork, Country, Currency,
    MandateAcceptanceType, MandateType, PaymentMethod, PaymentMethodType, PaymentType,
    SetupFutureUsage,
};
use crate::json::{obj_get, obj_lookup, JsonVal};
use crate::types::{
    ConnectorVolumeSplit, MerchantAccountRoutingAlgorithm, RoutableConnectorChoice,
    RoutingAlgorithmRef,
};

verus! {

pub open spec fn spec_currency_from(s: Seq<char>) -> Option<Currency> {
    if s == "USD"@ {
        Some(Currency::Usd)
    } else if s == "EUR"@ {
        Some(Currency::Eur)
    } else if s == "GBP"@ {
        Some(Currency::Gbp)
    } else if s == "INR"@ {
        Some(Currency::Inr)
    } else if s == "SEK"@ {
        Some(Currency::Sek)
    } else if s == "JPY"@ {
        Some(Currency::Jpy)
    } else {
        None
    }
}

pub fn currency_from_str(s: &str) -> (r: Option<Currency>)
    ensures
        r == spec_currency_from(s@),
{
    if str_is(s, "USD") {
        Some(Currency::Usd)
    } else if str_is(s, "EUR") {
        Some(Currency::Eur)
    } else if str_is(s, "GBP") {
        Some(Currency::Gbp)
    } else if str_is(s, "INR") {
        Some(Currency::Inr)
    } else if str_is(s, "SEK") {
        Some(Currency::Sek)
    } else if str_is(s, "JPY") {
        Some(Currency::Jpy)
    } else {
        None
    }
}

pub open spec fn spec_payment_method_from(s: Seq<char>) -> Option<PaymentMethod> {
    if s == "card"@ {
        Some(PaymentMethod::Card)
    } else if s == "wallet"@ {
        Some(PaymentMethod::Wallet)
    } else if s == "pay_later"@ {
        Some(PaymentMethod::PayLater)
    } else if s == "bank_redirect"@ {
        Some(PaymentMethod::BankRedirect)
    } else if s == "bank_debit"@ {
        Some(PaymentMethod::BankDebit)
    } else if s == "crypto"@ {
        Some(PaymentMethod::Crypto)
    } else {
        None
    }
}

pub fn payment_method_from_str(s: &str) -> (r: Option<PaymentMethod>)
    ensures
        r == spec_payment_method_from(s@),
{
    if str_is(s, "card") {
        Some(PaymentMethod::Card)
    } else if str_is(s, "wallet") {
        Some(PaymentMethod::Wallet)
    } else if str_is(s, "pay_later") {
        Some(PaymentMethod::PayLater)
    } else if str_is(s, "bank_redirect") {
        Some(PaymentMethod::BankRedirect)
    } else if str_is(s, "bank_debit") {
        Some(PaymentMethod::BankDebit)
    } else if str_is(s, "crypto") {
        Some(PaymentMethod::Crypto)
    } else {
        None
    }
}

pub open spec fn spec_payment_method_type_from(s: Seq<char>) -> Option<PaymentMethodType> {
    if s == "card"@ {
        Some(PaymentMethodType::Card)
    } else if s == "wallet"@ {
        Some(PaymentMethodType::Wallet)
    } else if s == "pay_later"@ {
        Some(PaymentMethodType::PayLater)
    } else if s == "bank_redirect"@ {
        Some(PaymentMethodType::BankRedirect)
    } else if s == "bank_debit"@ {
        Some(PaymentMethodType::BankDebit)
    } else if s == "crypto"@ {
        Some(PaymentMethodType::Crypto)
    } else if s == "credit"@ {
        Some(PaymentMethodType::Credit)
    } else if s == "debit"@ {
        Some(PaymentMethodType::Debit)
    } else if s == "apple_pay"@ {
        Some(PaymentMethodType::ApplePay)
    } else if s == "google_pay"@ {
        Some(PaymentMethodType::GooglePay)
    } else if s == "klarna"@ {
        Some(PaymentMethodType::Klarna)
    } else if s == "ideal"@ {
        Some(PaymentMethodType::Ideal)
    } else if s == "ach"@ {
        Some(PaymentMethodType::Ach)
    } else {
        None
    }
}

pub fn payment_method_type_from_str(s: &str) -> (r: Option<PaymentMethodType>)
    ensures
        r == spec_payment_method_type_from(s@),
{
    if str_is(s, "card") {
        Some(PaymentMethodType::Card)
    } else if str_is(s, "wallet") {
        Some(PaymentMethodType::Wallet)
    } else if str_is(s, "pay_later") {
        Some(PaymentMethodType::PayLater)
    } else if str_is(s, "bank_redirect") {
        Some(PaymentMethodType::BankRedirect)
    } else if str_is(s, "bank_debit") {
        Some(PaymentMethodType::BankDebit)
    } else if str_is(s, "crypto") {
        Some(PaymentMethodType::Crypto)
    } else if str_is(s, "credit") {
        Some(PaymentMethodType::Credit)
    } else if str_is(s, "debit") {
        Some(PaymentMethodType::Debit)
    } else if str_is(s, "apple_pay") {
        Some(PaymentMethodType::ApplePay)
    } else if str_is(s, "google_pay") {
        Some(PaymentMethodType::GooglePay)
    } else if str_is(s, "klarna") {
        Some(PaymentMethodType::Klarna)
    } else if str_is(s, "ideal") {
        Some(PaymentMethodType::Ideal)
    } else if str_is(s, "ach") {
        Some(PaymentMethodType::Ach)
    } else {
        None
    }
}

pub open spec fn spec_card_network_from(s: Seq<char>) -> Option<CardNetwork> {
    if s == "Visa"@ {
        Some(CardNetwork::Visa)
    } else if s == "Mastercard"@ {
        Some(CardNetwork::Mastercard)
    } else if s == "AmericanExpress"@ {
        Some(CardNetwork::Amex)
    } else if s == "Discover"@ {
        Some(CardNetwork::Discover)
    } else if s == "RuPay"@ {
        Some(CardNetwork::Rupay)
    } else {
        None
    }
}

pub fn card_network_from_str(s: &str) -> (r: Option<CardNetwork>)
    ensures
        r == spec_card_network_from(s@),
{
    if str_is(s, "Visa") {
        Some(CardNetwork::Visa)
    } else if str_is(s, "Mastercard") {
        Some(CardNetwork::Mastercard)
    } else if str_is(s, "AmericanExpress") {
        Some(CardNetwork::Amex)
    } else if str_is(s, "Discover") {
        Some(CardNetwork::Discover)
    } else if str_is(s, "RuPay") {
        Some(CardNetwork::Rupay)
    } else {
        None
    }
}

pub open spec fn spec_country_from(s: Seq<char>) -> Option<Country> {
    if s == "UnitedStatesOfAmerica"@ {
        Some(Country::UnitedStates)
    } else if s == "UnitedKingdomOfGreatBritainAndNorthernIreland"@ {
        Some(Country::UnitedKingdom)
    } else if s == "Germany"@ {
        Some(Country::Germany)
    } else if s == "France"@ {
        Some(Country::France)
    } else if s == "India"@ {
        Some(Country::India)
    } else if s == "Netherlands"@ {
        Some(Country::Netherlands)
    } else {
        None
    }
}

pub fn country_from_str(s: &str) -> (r: Option<Country>)
    ensures
        r == spec_country_from(s@),
{
    if str_is(s, "UnitedStatesOfAmerica") {
        Some(Country::UnitedStates)
    } else if str_is(s, "UnitedKingdomOfGreatBritainAndNorthernIreland") {
        Some(Country::UnitedKingdom)
    } else if str_is(s, "Germany") {
        Some(Country::Germany)
    } else if str_is(s, "France") {
        Some(Country::France)
    } else if str_is(s, "India") {
        Some(Country::India)
    } else if str_is(s, "Netherlands") {
        Some(Country::Netherlands)
    } else {
        None
    }
}

pub open spec fn spec_auth_type_from(s: Seq<char>) -> Option<AuthenticationType> {
    if s == "three_ds"@ {
        Some(AuthenticationType::ThreeDs)
    } else if s == "no_three_ds"@ {
        Some(AuthenticationType::NoThreeDs)
    } else {
        None
    }
}

pub fn auth_type_from_str(s: &str) -> (r: Option<AuthenticationType>)
    ensures
        r == spec_auth_type_from(s@),
{
    if str_is(s, "three_ds") {
        Some(AuthenticationType::ThreeDs)
    } else if str_is(s, "no_three_ds") {
        Some(AuthenticationType::NoThreeDs)
    } else {
        None
    }
}

pub open spec fn spec_capture_method_from(s: Seq<char>) -> Option<CaptureMethod> {
    if s == "automatic"@ {
        Some(CaptureMethod::Automatic)
    } else if s == "manual"@ {
        Some(CaptureMethod::Manual)
    } else if s == "manual_multiple"@ {
        Some(CaptureMethod::ManualMultiple)
    } else if s == "scheduled"@ {
        Some(CaptureMethod::Scheduled)
    } else {
        None
    }
}

pub fn capture_method_from_str(s: &str) -> (r: Option<CaptureMethod>)
    ensures
        r == spec_capture_method_from(s@),
{
    if str_is(s, "automatic") {
        Some(CaptureMethod::Automatic)
    } else if str_is(s, "manual") {
        Some(CaptureMethod::Manual)
    } else if str_is(s, "manual_multiple") {
        Some(CaptureMethod::ManualMultiple)
    } else if str_is(s, "scheduled") {
        Some(CaptureMethod::Scheduled)
    } else {
        None
    }
}

pub open spec fn spec_future_usage_from(s: Seq<char>) -> Option<SetupFutureUsage> {
    if s == "on_session"@ {
        Some(SetupFutureUsage::OnSession)
    } else if s == "off_session"@ {
        Some(SetupFutureUsage::OffSession)
    } else {
        None
    }
}

pub fn future_usage_from_str(s: &str) -> (r: Option<SetupFutureUsage>)
    ensures
        r == spec_future_usage_from(s@),
{
    if str_is(s, "on_session") {
        Some(SetupFutureUsage::OnSession)
    } else if str_is(s, "off_session") {
        Some(SetupFutureUsage::OffSession)
    } else {
        None
    }
}

pub open spec fn spec_mandate_acceptance_from(s: Seq<char>) -> Option<MandateAcceptanceType> {
    if s == "online"@ {
        Some(MandateAcceptanceType::Online)
    } else if s == "offline"@ {
        Some(MandateAcceptanceType::Offline)
    } else {
        None
    }
}

pub fn mandate_acceptance_from_str(s: &str) -> (r: Option<MandateAcceptanceType>)
    ensures
        r == spec_mandate_acceptance_from(s@),
{
    if str_is(s, "online") {
        Some(MandateAcceptanceType::Online)
    } else if str_is(s, "offline") {
        Some(MandateAcceptanceType::Offline)
    } else {
        None
    }
}

pub open spec fn spec_mandate_type_from(s: Seq<char>) -> Option<MandateType> {
    if s == "single_use"@ {
        Some(MandateType::SingleUse)
    } else if s == "multi_use"@ {
        Some(MandateType::MultiUse)
    } else {
        None
    }
}

pub fn mandate_type_from_str(s: &str) -> (r: Option<MandateType>)
    ensures
        r == spec_mandate_type_from(s@),
{
    if str_is(s, "single_use") {
        Some(MandateType::SingleUse)
    } else if str_is(s, "multi_use") {
        Some(MandateType::MultiUse)
    } else {
        None
    }
}

pub open spec fn spec_payment_type_from(s: Seq<char>) -> Option<PaymentType> {
    if s == "setup_mandate"@ {
        Some(PaymentType::SetupMandate)
    } else if s == "non_mandate"@ {
        Some(PaymentType::NonMandate)
    } else {
        None
    }
}

pub fn payment_type_from_str(s: &str) -> (r: Option<PaymentType>)
    ensures
        r == spec_payment_type_from(s@),
{
    if str_is(s, "setup_mandate") {
        Some(PaymentType::SetupMandate)
    } else if str_is(s, "non_mandate") {
        Some(PaymentType::NonMandate)
    } else {
        None
    }
}

pub open spec fn spec_op_from(s: Seq<char>) -> Option<CompOp> {
    if s == "equal"@ {
        Some(CompOp::Equal)
    } else if s == "not_equal"@ {
        Some(CompOp::NotEqual)
    } else if s == "greater_than"@ {
        Some(CompOp::GreaterThan)
    } else if s == "less_than"@ {
        Some(CompOp::LessThan)
    } else if s == "greater_than_equal"@ {
        Some(CompOp::GreaterThanEqual)
    } else if s == "less_than_equal"@ {
        Some(CompOp::LessThanEqual)
    } else {
        None
    }
}

pub fn op_from_str(s: &str) -> (r: Option<CompOp>)
    ensures
        r == spec_op_from(s@),
{
    if str_is(s, "equal") {
        Some(CompOp::Equal)
    } else if str_is(s, "not_equal") {
        Some(CompOp::NotEqual)
    } else if str_is(s, "greater_than") {
        Some(CompOp::GreaterThan)
    } else if str_is(s, "less_than") {
        Some(CompOp::LessThan)
    } else if str_is(s, "greater_than_equal") {
        Some(CompOp::GreaterThanEqual)
    } else if str_is(s, "less_than_equal") {
        Some(CompOp::LessThanEqual)
    } else {
        None
    }
}

/// A stored candidate connector: `{"connector": name}` with an optional
/// `merchant_connector_id`.
pub open spec fn spec_decode_choice(j: JsonVal) -> Option<RoutableConnectorChoice> {
    match j {
        JsonVal::Obj(o) => match obj_lookup(o@, "connector"@) {
            Some(JsonVal::Str(s)) => match obj_lookup(o@, "merchant_connector_id"@) {
                None => Some(RoutableConnectorChoice { connector: s, merchant_connector_id: None }),
                Some(JsonVal::Null) => Some(
                    RoutableConnectorChoice { connector: s, merchant_connector_id: None },
                ),
                Some(JsonVal::Str(t)) => Some(
                    RoutableConnectorChoice { connector: s, merchant_connector_id: Some(t) },
                ),
                Some(_) => None,
            },
            _ => None,
        },
        _ => None,
    }
}

pub fn decode_choice(j: &JsonVal) -> (r: Option<RoutableConnectorChoice>)
    ensures
        r == spec_decode_choice(*j),
{
    match j {
        JsonVal::Obj(o) => match obj_get(o, "connector") {
            Some(JsonVal::Str(s)) => match obj_get(o, "merchant_connector_id") {
                None => Some(
                    RoutableConnectorChoice { connector: s.clone(), merchant_connector_id: None },
                ),
                Some(JsonVal::Null) => Some(
                    RoutableConnectorChoice { connector: s.clone(), merchant_connector_id: None },
                ),
                Some(JsonVal::Str(t)) => Some(
                    RoutableConnectorChoice {
                        connector: s.clone(),
                        merchant_connector_id: Some(t.clone()),
                    },
                ),
                Some(_) => None,
            },
            _ => None,
        },
        _ => None,
    }
}

/// A stored volume-split entry: `{"connector": choice, "split": weight}`
/// with the weight an unsigned 8-bit integer.
pub open spec fn spec_decode_split(j: JsonVal) -> Option<ConnectorVolumeSplit> {
    match j {
        JsonVal::Obj(o) => match (obj_lookup(o@, "connector"@), obj_lookup(o@, "split"@)) {
            (Some(c), Some(JsonVal::UInt(n))) => if n <= 255 {
                match spec_decode_choice(c) {
                    Some(choice) => Some(
                        ConnectorVolumeSplit { connector: choice, split: n as u8 },
                    ),
                    None => None,
                }
            } else {
                None
            },
            _ => None,
        },
        _ => None,
    }
}

pub fn decode_split(j: &JsonVal) -> (r: Option<ConnectorVolumeSplit>)
    ensures
        r == spec_decode_split(*j),
{
    match j {
        JsonVal::Obj(o) => match (obj_get(o, "connector"), obj_get(o, "split")) {
            (Some(c), Some(JsonVal::UInt(n))) => {
                if *n <= 255 {
                    match decode_choice(c) {
                        Some(choice) => Some(
                            ConnectorVolumeSplit { connector: choice, split: *n as u8 },
                        ),
                        None => None,
                    }
                } else {
                    None
                }
            },
            _ => None,
        },
        _ => None,
    }
}

/// Elementwise decode of a stored candidate-connector list.
pub open spec fn spec_choices_decode(s: Seq<JsonVal>, l: Seq<RoutableConnectorChoice>) -> bool {
    l.len() == s.len() && forall|i: int|
        0 <= i < s.len() ==> spec_decode_choice(s[i]) == Some(l[i])
}

pub open spec fn spec_choices_fail(s: Seq<JsonVal>) -> bool {
    exists|i: int| 0 <= i < s.len() && spec_decode_choice(s[i]) is None
}

#[verifier::loop_isolation(false)]
pub fn decode_choices(a: &Vec<JsonVal>) -> (r: Option<Vec<RoutableConnectorChoice>>)
    ensures
        match r {
            Some(v) => spec_choices_decode(a@, v@),
            None => spec_choices_fail(a@),
        },
{
    let mut acc: Vec<RoutableConnectorChoice> = Vec::new();
    let mut i: usize = 0;
    while i < a.len()
        invariant
            i <= a@.len(),
            acc@.len() == i,
            forall|j: int| 0 <= j < i ==> spec_decode_choice(a@[j]) == Some(acc@[j]),
        decreases a@.len() - i,
    {
        match decode_choice(&a[i]) {
            None => {
                return None;
            },
            Some(c) => acc.push(c),
        }
        i += 1;
    }
    Some(acc)
}

/// Elementwise decode of a stored volume-split list.
pub open spec fn spec_splits_decode(s: Seq<JsonVal>, l: Seq<ConnectorVolumeSplit>) -> bool {
    l.len() == s.len() && forall|i: int| 0 <= i < s.len() ==> spec_decode_split(s[i]) == Some(l[i])
}

pub open spec fn spec_splits_fail(s: Seq<JsonVal>) -> bool {
    exists|i: int| 0 <= i < s.len() && spec_decode_split(s[i]) is None
}

#[verifier::loop_isolation(false)]
pub fn decode_splits(a: &Vec<JsonVal>) -> (r: Option<Vec<ConnectorVolumeSplit>>)
    ensures
        match r {
            Some(v) => spec_splits_decode(a@, v@),
            None => spec_splits_fail(a@),
        },
{
    let mut acc: Vec<ConnectorVolumeSplit> = Vec::new();
    let mut i: usize = 0;
    while i < a.len()
        invariant
            i <= a@.len(),
            acc@.len() == i,
            forall|j: int| 0 <= j < i ==> spec_decode_split(a@[j]) == Some(acc@[j]),
        decreases a@.len() - i,
    {
        match decode_split(&a[i]) {
            None => {
                return None;
            },
            Some(c) => acc.push(c),
        }
        i += 1;
    }
    Some(acc)
}

/// The typed comparison value stored under `field`/`value` (and `key` for
/// metadata comparisons).
pub open spec fn spec_decode_field_value(o: Seq<(String, JsonVal)>) -> Option<FieldValue> {
    match obj_lookup(o, "field"@) {
        Some(JsonVal::Str(f)) => if f@ == "amount"@ {
            match obj_lookup(o, "value"@) {
                Some(JsonVal::UInt(n)) => Some(FieldValue::Amount(n)),
                _ => None,
            }
        } else if f@ == "card_bin"@ {
            match obj_lookup(o, "value"@) {
                Some(JsonVal::Str(s)) => Some(FieldValue::CardBin(s)),
                _ => None,
            }
        } else if f@ == "business_label"@ {
            match obj_lookup(o, "value"@) {
                Some(JsonVal::Str(s)) => Some(FieldValue::BusinessLabel(s)),
                _ => None,
            }
        } else if f@ == "metadata"@ {
            match (obj_lookup(o, "key"@), obj_lookup(o, "value"@)) {
                (Some(JsonVal::Str(k)), Some(JsonVal::Str(v))) => Some(
                    FieldValue::Metadata { key: k, value: v },
                ),
                _ => None,
            }
        } else {
            match obj_lookup(o, "value"@) {
                Some(JsonVal::Str(s)) => if f@ == "currency"@ {
                    match spec_currency_from(s@) {
                        Some(c) => Some(FieldValue::Currency(c)),
                        None => None,
                    }
                } else if f@ == "authentication_type"@ {
                    match spec_auth_type_from(s@) {
                        Some(c) => Some(FieldValue::AuthenticationType(c)),
                        None => None,
                    }
                } else if f@ == "capture_method"@ {
                    match spec_capture_method_from(s@) {
                        Some(c) => Some(FieldValue::CaptureMethod(c)),
                        None => None,
                    }
                } else if f@ == "business_country"@ {
                    match spec_country_from(s@) {
                        Some(c) => Some(FieldValue::BusinessCountry(c)),
                        None => None,
                    }
                } else if f@ == "billing_country"@ {
                    match spec_country_from(s@) {
                        Some(c) => Some(FieldValue::BillingCountry(c)),
                        None => None,
                    }
                } else if f@ == "setup_future_usage"@ {
                    match spec_future_usage_from(s@) {
                        Some(c) => Some(FieldValue::SetupFutureUsage(c)),
                        None => None,
                    }
                } else if f@ == "payment_method"@ {
                    match spec_payment_method_from(s@) {
                        Some(c) => Some(FieldValue::PaymentMethod(c)),
                        None => None,
                    }
                } else if f@ == "payment_method_type"@ {
                    match spec_payment_method_type_from(s@) {
                        Some(c) => Some(FieldValue::PaymentMethodType(c)),
                        None => None,
                    }
                } else if f@ == "card_network"@ {
                    match spec_card_network_from(s@) {
                        Some(c) => Some(FieldValue::CardNetwork(c)),
                        None => None,
                    }
                } else if f@ == "mandate_acceptance_type"@ {
                    match spec_mandate_acceptance_from(s@) {
                        Some(c) => Some(FieldValue::MandateAcceptanceType(c)),
                        None => None,
                    }
                } else if f@ == "mandate_type"@ {
                    match spec_mandate_type_from(s@) {
                        Some(c) => Some(FieldValue::MandateType(c)),
                        None => None,
                    }
                } else if f@ == "payment_type"@ {
                    match spec_payment_type_from(s@) {
                        Some(c) => Some(FieldValue::PaymentType(c)),
                        None => None,
                    }
                } else {
                    None
                },
                _ => None,
            }
        },
        _ => None,
    }
}

pub fn decode_field_value(o: &Vec<(String, JsonVal)>) -> (r: Option<FieldValue>)
    ensures
        r == spec_decode_field_value(o@),
{
    match obj_get(o, "field") {
        Some(JsonVal::Str(f)) => {
            if str_is(f.as_str(), "amount") {
                match obj_get(o, "value") {
                    Some(JsonVal::UInt(n)) => Some(FieldValue::Amount(*n)),
                    _ => None,
                }
            } else if str_is(f.as_str(), "card_bin") {
                match obj_get(o, "value") {
                    Some(JsonVal::Str(s)) => Some(FieldValue::CardBin(s.clone())),
                    _ => None,
                }
            } else if str_is(f.as_str(), "business_label") {
                match obj_get(o, "value") {
                    Some(JsonVal::Str(s)) => Some(FieldValue::BusinessLabel(s.clone())),
                    _ => None,
                }
            } else if str_is(f.as_str(), "metadata") {
                match (obj_get(o, "key"), obj_get(o, "value")) {
                    (Some(JsonVal::Str(k)), Some(JsonVal::Str(v))) => Some(
                        FieldValue::Metadata { key: k.clone(), value: v.clone() },
                    ),
                    _ => None,
                }
            } else {
                match obj_get(o, "value") {
                    Some(JsonVal::Str(s)) => {
                        if str_is(f.as_str(), "currency") {
                            match currency_from_str(s.as_str()) {
                                Some(c) => Some(FieldValue::Currency(c)),
                                None => None,
                            }
                        } else if str_is(f.as_str(), "authentication_type") {
                            match auth_type_from_str(s.as_str()) {
                                Some(c) => Some(FieldValue::AuthenticationType(c)),
                                None => None,
                            }
                        } else if str_is(f.as_str(), "capture_method") {
                            match capture_method_from_str(s.as_str()) {
                                Some(c) => Some(FieldValue::CaptureMethod(c)),
                                None => None,
                            }
                        } else if str_is(f.as_str(), "business_country") {
                            match country_from_str(s.as_str()) {
                                Some(c) => Some(FieldValue::BusinessCountry(c)),
                                None => None,
                            }
                        } else if str_is(f.as_str(), "billing_country") {
                            match country_from_str(s.as_str()) {
                                Some(c) => Some(FieldValue::BillingCountry(c)),
                                None => None,
                            }
                        } else if str_is(f.as_str(), "setup_future_usage") {
                            match future_usage_from_str(s.as_str()) {
                                Some(c) => Some(FieldValue::SetupFutureUsage(c)),
                                None => None,
                            }
                        } else if str_is(f.as_str(), "payment_method") {
                            match payment_method_from_str(s.as_str()) {
                                Some(c) => Some(FieldValue::PaymentMethod(c)),
                                None => None,
                            }
                        } else if str_is(f.as_str(), "payment_method_type") {
                            match payment_method_type_from_str(s.as_str()) {
                                Some(c) => Some(FieldValue::PaymentMethodType(c)),
                                None => None,
                            }
                        } else if str_is(f.as_str(), "card_network") {
                            match card_network_from_str(s.as_str()) {
                                Some(c) => Some(FieldValue::CardNetwork(c)),
                                None => None,
                            }
                        } else if str_is(f.as_str(), "mandate_acceptance_type") {
                            match mandate_acceptance_from_str(s.as_str()) {
                                Some(c) => Some(FieldValue::MandateAcceptanceType(c)),
                                None => None,
                            }
                        } else if str_is(f.as_str(), "mandate_type") {
                            match mandate_type_from_str(s.as_str()) {
                                Some(c) => Some(FieldValue::MandateType(c)),
                                None => None,
                            }
                        } else if str_is(f.as_str(), "payment_type") {
                            match payment_type_from_str(s.as_str()) {
                                Some(c) => Some(FieldValue::PaymentType(c)),
                                None => None,
                            }
                        } else {
                            None
                        }
                    },
                    _ => None,
                }
            }
        },
        _ => None,
    }
}

/// One stored comparison: an object carrying `op` and the field/value keys.
pub open spec fn spec_decode_comparison(j: JsonVal) -> Option<Comparison> {
    match j {
        JsonVal::Obj(o) => match obj_lookup(o@, "op"@) {
            Some(JsonVal::Str(ops)) => match spec_op_from(ops@) {
                Some(op) => match spec_decode_field_value(o@) {
                    Some(v) => Some(Comparison { op, value: v }),
                    None => None,
                },
                None => None,
            },
            _ => None,
        },
        _ => None,
    }
}

pub fn decode_comparison(j: &JsonVal) -> (r: Option<Comparison>)
    ensures
        r == spec_decode_comparison(*j),
{
    match j {
        JsonVal::Obj(o) => match obj_get(o, "op") {
            Some(JsonVal::Str(ops)) => match op_from_str(ops.as_str()) {
                Some(op) => match decode_field_value(o) {
                    Some(v) => Some(Comparison { op, value: v }),
                    None => None,
                },
                None => None,
            },
            _ => None,
        },
        _ => None,
    }
}

/// Elementwise decode of a stored comparison list.
pub open spec fn spec_comparisons_decode(s: Seq<JsonVal>, l: Seq<Comparison>) -> bool {
    l.len() == s.len() && forall|i: int|
        0 <= i < s.len() ==> spec_decode_comparison(s[i]) == Some(l[i])
}

pub open spec fn spec_comparisons_fail(s: Seq<JsonVal>) -> bool {
    exists|i: int| 0 <= i < s.len() && spec_decode_comparison(s[i]) is None
}

#[verifier::loop_isolation(false)]
pub fn decode_comparisons(a: &Vec<JsonVal>) -> (r: Option<Vec<Comparison>>)
    ensures
        match r {
            Some(v) => spec_comparisons_decode(a@, v@),
            None => spec_comparisons_fail(a@),
        },
{
    let mut acc: Vec<Comparison> = Vec::new();
    let mut i: usize = 0;
    while i < a.len()
        invariant
            i <= a@.len(),
            acc@.len() == i,
            forall|j: int| 0 <= j < i ==> spec_decode_comparison(a@[j]) == Some(acc@[j]),
        decreases a@.len() - i,
    {
        match decode_comparison(&a[i]) {
            None => {
                return None;
            },
            Some(c) => acc.push(c),
        }
        i += 1;
    }
    Some(acc)
}

/// A stored statement is an array of comparisons, all of which must hold.
pub open spec fn spec_stmt_decodes(j: JsonVal, st: IfStatement) -> bool {
    match j {
        JsonVal::Arr(a) => spec_comparisons_decode(a@, st.conditions@),
        _ => false,
    }
}

pub open spec fn spec_stmt_fail(j: JsonVal) -> bool {
    match j {
        JsonVal::Arr(a) => spec_comparisons_fail(a@),
        _ => true,
    }
}

pub fn decode_statement(j: &JsonVal) -> (r: Option<IfStatement>)
    ensures
        match r {
            Some(st) => spec_stmt_decodes(*j, st),
            None => spec_stmt_fail(*j),
        },
{
    match j {
        JsonVal::Arr(a) => match decode_comparisons(a) {
            Some(cs) => Some(IfStatement { conditions: cs }),
            None => None,
        },
        _ => None,
    }
}

pub open spec fn spec_statements_decode(s: Seq<JsonVal>, l: Seq<IfStatement>) -> bool {
    l.len() == s.len() && forall|i: int| 0 <= i < s.len() ==> spec_stmt_decodes(s[i], #[trigger] l[i])
}

pub open spec fn spec_statements_fail(s: Seq<JsonVal>) -> bool {
    exists|i: int| 0 <= i < s.len() && spec_stmt_fail(s[i])
}

#[verifier::loop_isolation(false)]
pub fn decode_statements(a: &Vec<JsonVal>) -> (r: Option<Vec<IfStatement>>)
    ensures
        match r {
            Some(v) => spec_statements_decode(a@, v@),
            None => spec_statements_fail(a@),
        },
{
    let mut acc: Vec<IfStatement> = Vec::new();
    let mut i: usize = 0;
    while i < a.len()
        invariant
            i <= a@.len(),
            acc@.len() == i,
            forall|j: int| 0 <= j < i ==> spec_stmt_decodes(a@[j], #[trigger] acc@[j]),
        decreases a@.len() - i,
    {
        match decode_statement(&a[i]) {
            None => {
                return None;
            },
            Some(st) => acc.push(st),
        }
        i += 1;
    }
    Some(acc)
}

/// A stored selection: an object discriminated by which of `single`,
/// `priority` or `volume_split` is present.
pub open spec fn spec_sel_decodes(j: JsonVal, s: ConnectorSelection) -> bool {
    match j {
        JsonVal::Obj(o) => match obj_lookup(o@, "single"@) {
            Some(c) => s matches ConnectorSelection::Single(ch) && spec_decode_choice(c) == Some(
                ch,
            ),
            None => match obj_lookup(o@, "priority"@) {
                Some(JsonVal::Arr(a)) => s matches ConnectorSelection::Priority(l)
                    && spec_choices_decode(a@, l@),
                Some(_) => false,
                None => match obj_lookup(o@, "volume_split"@) {
                    Some(JsonVal::Arr(a)) => s matches ConnectorSelection::VolumeSplit(v)
                        && spec_splits_decode(a@, v@),
                    _ => false,
                },
            },
        },
        _ => false,
    }
}

pub open spec fn spec_sel_fail(j: JsonVal) -> bool {
    match j {
        JsonVal::Obj(o) => match obj_lookup(o@, "single"@) {
            Some(c) => spec_decode_choice(c) is None,
            None => match obj_lookup(o@, "priority"@) {
                Some(JsonVal::Arr(a)) => spec_choices_fail(a@),
                Some(_) => true,
                None => match obj_lookup(o@, "volume_split"@) {
                    Some(JsonVal::Arr(a)) => spec_splits_fail(a@),
                    _ => true,
                },
            },
        },
        _ => true,
    }
}

pub fn decode_selection(j: &JsonVal) -> (r: Option<ConnectorSelection>)
    ensures
        match r {
            Some(s) => spec_sel_decodes(*j, s),
            None => spec_sel_fail(*j),
        },
{
    match j {
        JsonVal::Obj(o) => match obj_get(o, "single") {
            Some(c) => match decode_choice(c) {
                Some(ch) => Some(ConnectorSelection::Single(ch)),
                None => None,
            },
            None => match obj_get(o, "priority") {
                Some(JsonVal::Arr(a)) => match decode_choices(a) {
                    Some(l) => Some(ConnectorSelection::Priority(l)),
                    None => None,
                },
                Some(_) => None,
                None => match obj_get(o, "volume_split") {
                    Some(JsonVal::Arr(a)) => match decode_splits(a) {
                        Some(v) => Some(ConnectorSelection::VolumeSplit(v)),
                        None => None,
                    },
                    _ => None,
                },
            },
        },
        _ => None,
    }
}

/// A stored rule: its selection and its statements.
pub open spec fn spec_rule_decodes(j: JsonVal, r: Rule) -> bool {
    match j {
        JsonVal::Obj(o) => match (obj_lookup(o@, "selection"@), obj_lookup(o@, "statements"@)) {
            (Some(sj), Some(JsonVal::Arr(sa))) => spec_sel_decodes(sj, r.selection)
                && spec_statements_decode(sa@, r.statements@),
            _ => false,
        },
        _ => false,
    }
}

pub open spec fn spec_rule_fail(j: JsonVal) -> bool {
    match j {
        JsonVal::Obj(o) => match (obj_lookup(o@, "selection"@), obj_lookup(o@, "statements"@)) {
            (Some(sj), Some(JsonVal::Arr(sa))) => spec_sel_fail(sj) || spec_statements_fail(sa@),
            _ => true,
        },
        _ => true,
    }
}

pub fn decode_rule(j: &JsonVal) -> (r: Option<Rule>)
    ensures
        match r {
            Some(rule) => spec_rule_decodes(*j, rule),
            None => spec_rule_fail(*j),
        },
{
    match j {
        JsonVal::Obj(o) => match (obj_get(o, "selection"), obj_get(o, "statements")) {
            (Some(sj), Some(JsonVal::Arr(sa))) => match decode_selection(sj) {
                Some(sel) => match decode_statements(sa) {
                    Some(sts) => Some(Rule { statements: sts, selection: sel }),
                    None => None,
                },
                None => None,
            },
            _ => None,
        },
        _ => None,
    }
}

pub open spec fn spec_rules_decode(s: Seq<JsonVal>, l: Seq<Rule>) -> bool {
    l.len() == s.len() && forall|i: int| 0 <= i < s.len() ==> spec_rule_decodes(s[i], #[trigger] l[i])
}

pub open spec fn spec_rules_fail(s: Seq<JsonVal>) -> bool {
    exists|i: int| 0 <= i < s.len() && spec_rule_fail(s[i])
}

#[verifier::loop_isolation(false)]
pub fn decode_rules(a: &Vec<JsonVal>) -> (r: Option<Vec<Rule>>)
    ensures
        match r {
            Some(v) => spec_rules_decode(a@, v@),
            None => spec_rules_fail(a@),
        },
{
    let mut acc: Vec<Rule> = Vec::new();
    let mut i: usize = 0;
    while i < a.len()
        invariant
            i <= a@.len(),
            acc@.len() == i,
            forall|j: int| 0 <= j < i ==> spec_rule_decodes(a@[j], #[trigger] acc@[j]),
        decreases a@.len() - i,
    {
        match decode_rule(&a[i]) {
            None => {
                return None;
            },
            Some(rule) => acc.push(rule),
        }
        i += 1;
    }
    Some(acc)
}

/// A stored rule program: its rules and its default selection.
pub open spec fn spec_program_decodes(j: JsonVal, p: Program) -> bool {
    match j {
        JsonVal::Obj(o) => match (obj_lookup(o@, "default_selection"@), obj_lookup(o@, "rules"@)) {
            (Some(dj), Some(JsonVal::Arr(ra))) => spec_sel_decodes(dj, p.default_selection)
                && spec_rules_decode(ra@, p.rules@),
            _ => false,
        },
        _ => false,
    }
}

pub open spec fn spec_program_fail(j: JsonVal) -> bool {
    match j {
        JsonVal::Obj(o) => match (obj_lookup(o@, "default_selection"@), obj_lookup(o@, "rules"@)) {
            (Some(dj), Some(JsonVal::Arr(ra))) => spec_sel_fail(dj) || spec_rules_fail(ra@),
            _ => true,
        },
        _ => true,
    }
}

pub fn decode_program(j: &JsonVal) -> (r: Option<Program>)
    ensures
        match r {
            Some(p) => spec_program_decodes(*j, p),
            None => spec_program_fail(*j),
        },
{
    match j {
        JsonVal::Obj(o) => match (obj_get(o, "default_selection"), obj_get(o, "rules")) {
            (Some(dj), Some(JsonVal::Arr(ra))) => match decode_selection(dj) {
                Some(d) => match decode_rules(ra) {
                    Some(rs) => Some(Program { rules: rs, default_selection: d }),
                    None => None,
                },
                None => None,
            },
            _ => None,
        },
        _ => None,
    }
}

/// A stored routing algorithm: an object discriminated by which of
/// `single`, `priority`, `volume_split` or `advanced` is present.
pub open spec fn spec_algorithm_decodes(j: JsonVal, alg: RoutingAlgorithm) -> bool {
    match j {
        JsonVal::Obj(o) => match obj_lookup(o@, "single"@) {
            Some(c) => alg matches RoutingAlgorithm::Single(ch) && spec_decode_choice(c) == Some(
                ch,
            ),
            None => match obj_lookup(o@, "priority"@) {
                Some(JsonVal::Arr(a)) => alg matches RoutingAlgorithm::Priority(l)
                    && spec_choices_decode(a@, l@),
                Some(_) => false,
                None => match obj_lookup(o@, "volume_split"@) {
                    Some(JsonVal::Arr(a)) => alg matches RoutingAlgorithm::VolumeSplit(v)
                        && spec_splits_decode(a@, v@),
                    Some(_) => false,
                    None => match obj_lookup(o@, "advanced"@) {
                        Some(pj) => alg matches RoutingAlgorithm::Advanced(p)
                            && spec_program_decodes(pj, p),
                        None => false,
                    },
                },
            },
        },
        _ => false,
    }
}

pub open spec fn spec_algorithm_fail(j: JsonVal) -> bool {
    match j {
        JsonVal::Obj(o) => match obj_lookup(o@, "single"@) {
            Some(c) => spec_decode_choice(c) is None,
            None => match obj_lookup(o@, "priority"@) {
                Some(JsonVal::Arr(a)) => spec_choices_fail(a@),
                Some(_) => true,
                None => match obj_lookup(o@, "volume_split"@) {
                    Some(JsonVal::Arr(a)) => spec_splits_fail(a@),
                    Some(_) => true,
                    None => match obj_lookup(o@, "advanced"@) {
                        Some(pj) => spec_program_fail(pj),
                        None => true,
                    },
                },
            },
        },
        _ => true,
    }
}

pub fn decode_algorithm(j: &JsonVal) -> (r: Option<RoutingAlgorithm>)
    ensures
        match r {
            Some(alg) => spec_algorithm_decodes(*j, alg),
            None => spec_algorithm_fail(*j),
        },
{
    match j {
        JsonVal::Obj(o) => match obj_get(o, "single") {
            Some(c) => match decode_choice(c) {
                Some(ch) => Some(RoutingAlgorithm::Single(ch)),
                None => None,
            },
            None => match obj_get(o, "priority") {
                Some(JsonVal::Arr(a)) => match decode_choices(a) {
                    Some(l) => Some(RoutingAlgorithm::Priority(l)),
                    None => None,
                },
                Some(_) => None,
                None => match obj_get(o, "volume_split") {
                    Some(JsonVal::Arr(a)) => match decode_splits(a) {
                        Some(v) => Some(RoutingAlgorithm::VolumeSplit(v)),
                        None => None,
                    },
                    Some(_) => None,
                    None => match obj_get(o, "advanced") {
                        Some(pj) => match decode_program(pj) {
                            Some(p) => Some(RoutingAlgorithm::Advanced(p)),
                            None => None,
                        },
                        None => None,
                    },
                },
            },
        },
        _ => None,
    }
}

/// The profile's routing reference, untagged: any object is the current
/// version, whose optional `algorithm_id` must be a string or null;
/// anything else has a shape no known version has.
pub open spec fn spec_decode_routing_ref(j: JsonVal) -> Option<MerchantAccountRoutingAlgorithm> {
    match j {
        JsonVal::Obj(o) => match obj_lookup(o@, "algorithm_id"@) {
            Some(JsonVal::Str(s)) => Some(
                MerchantAccountRoutingAlgorithm::V1(RoutingAlgorithmRef { algorithm_id: Some(s) }),
            ),
            Some(JsonVal::Null) => Some(
                MerchantAccountRoutingAlgorithm::V1(RoutingAlgorithmRef { algorithm_id: None }),
            ),
            None => Some(
                MerchantAccountRoutingAlgorithm::V1(RoutingAlgorithmRef { algorithm_id: None }),
            ),
            Some(_) => None,
        },
        _ => None,
    }
}

pub fn decode_routing_ref(j: &JsonVal) -> (r: Option<MerchantAccountRoutingAlgorithm>)
    ensures
        r == spec_decode_routing_ref(*j),
{
    match j {
        JsonVal::Obj(o) => match obj_get(o, "algorithm_id") {
            Some(JsonVal::Str(s)) => Some(
                MerchantAccountRoutingAlgorithm::V1(
                    RoutingAlgorithmRef { algorithm_id: Some(s.clone()) },
                ),
            ),
            Some(JsonVal::Null) => Some(
                MerchantAccountRoutingAlgorithm::V1(RoutingAlgorithmRef { algorithm_id: None }),
            ),
            None => Some(
                MerchantAccountRoutingAlgorithm::V1(RoutingAlgorithmRef { algorithm_id: None }),
            ),
            Some(_) => None,
        },
        _ => None,
    }
}

/// Metadata routing parameters: an object all of whose values are strings.
/// Anything else does not decode, and the caller treats it as absent.
pub open spec fn spec_meta_pairs(s: Seq<(String, JsonVal)>, l: Seq<(String, String)>) -> bool {
    l.len() == s.len() && forall|i: int|
        0 <= i < s.len() ==> ((#[trigger] s[i]).1 matches JsonVal::Str(v) && l[i].0@ == s[i].0@
            && l[i].1@ == v@)
}

pub open spec fn spec_meta_fail(s: Seq<(String, JsonVal)>) -> bool {
    exists|i: int| 0 <= i < s.len() && !((#[trigger] s[i]).1 matches JsonVal::Str(v))
}

/// Whether a metadata tree decodes as routing parameters at all.
pub open spec fn spec_metadata_decodable(j: JsonVal) -> bool {
    match j {
        JsonVal::Obj(o) => !spec_meta_fail(o@),
        _ => false,
    }
}

#[verifier::loop_isolation(false)]
pub fn decode_metadata(j: &JsonVal) -> (r: Option<Vec<(String, String)>>)
    ensures
        r is Some <==> spec_metadata_decodable(*j),
        match r {
            Some(v) => *j matches JsonVal::Obj(o) && spec_meta_pairs(o@, v@),
            None => true,
        },
{
    match j {
        JsonVal::Obj(o) => {
            let mut acc: Vec<(String, String)> = Vec::new();
            let mut i: usize = 0;
            while i < o.len()
                invariant
                    i <= o@.len(),
                    acc@.len() == i,
                    forall|k: int|
                        0 <= k < i ==> ((#[trigger] o@[k]).1 matches JsonVal::Str(v) && acc@[k].0@
                            == o@[k].0@ && acc@[k].1@ == v@),
                decreases o@.len() - i,
            {
                match &o[i].1 {
                    JsonVal::Str(v) => acc.push((o[i].0.clone(), v.clone())),
                    _ => {
                        return None;
                    },
                }
                i += 1;
            }
            Some(acc)
        },
        _ => None,
    }
}


/// A list that decodes has no failing element.
pub proof fn lemma_choices_decode_excludes_fail(s: Seq<JsonVal>, l: Seq<RoutableConnectorChoice>)
    requires
        spec_choices_decode(s, l),
    ensures
        !spec_choices_fail(s),
{
    if spec_choices_fail(s) {
        let i = choose|i: int| 0 <= i < s.len() && spec_decode_choice(s[i]) is None;
        assert(spec_decode_choice(s[i]) == Some(l[i]));
    }
}

pub proof fn lemma_splits_decode_excludes_fail(s: Seq<JsonVal>, l: Seq<ConnectorVolumeSplit>)
    requires
        spec_splits_decode(s, l),
    ensures
        !spec_splits_fail(s),
{
    if spec_splits_fail(s) {
        let i = choose|i: int| 0 <= i < s.len() && spec_decode_split(s[i]) is None;
        assert(spec_decode_split(s[i]) == Some(l[i]));
    }
}

/// Two split lists decoded from the same values are the same values.
pub proof fn lemma_splits_decode_unique(
    s: Seq<JsonVal>,
    l1: Seq<ConnectorVolumeSplit>,
    l2: Seq<ConnectorVolumeSplit>,
)
    requires
        spec_splits_decode(s, l1),
        spec_splits_decode(s, l2),
    ensures
        l1 == l2,
{
    assert forall|i: int| 0 <= i < l1.len() implies l1[i] == l2[i] by {
        assert(spec_decode_split(s[i]) == Some(l1[i]));
        assert(spec_decode_split(s[i]) == Some(l2[i]));
    };
    assert(l1 =~= l2);
}

pub proof fn lemma_sel_decode_excludes_fail(j: JsonVal, sel: ConnectorSelection)
    requires
        spec_sel_decodes(j, sel),
    ensures
        !spec_sel_fail(j),
{
    match j {
        JsonVal::Obj(o) => match obj_lookup(o@, "single"@) {
            Some(_) => {},
            None => match obj_lookup(o@, "priority"@) {
                Some(JsonVal::Arr(a)) => {
                    match sel {
                        ConnectorSelection::Priority(l) => {
                            lemma_choices_decode_excludes_fail(a@, l@);
                        },
                        _ => {},
                    }
                },
                Some(_) => {},
                None => match obj_lookup(o@, "volume_split"@) {
                    Some(JsonVal::Arr(a)) => {
                        match sel {
                            ConnectorSelection::VolumeSplit(v) => {
                                lemma_splits_decode_excludes_fail(a@, v@);
                            },
                            _ => {},
                        }
                    },
                    _ => {},
                },
            },
        },
        _ => {},
    }
}

/// Two selections decoded from the same value are equally well-formed.
pub proof fn lemma_sel_decode_valid_congruent(
    j: JsonVal,
    s1: ConnectorSelection,
    s2: ConnectorSelection,
)
    requires
        spec_sel_decodes(j, s1),
        spec_sel_decodes(j, s2),
    ensures
        crate::algorithm::spec_selection_valid(s1) == crate::algorithm::spec_selection_valid(s2),
{
    match j {
        JsonVal::Obj(o) => match obj_lookup(o@, "single"@) {
            Some(_) => {},
            None => match obj_lookup(o@, "priority"@) {
                Some(JsonVal::Arr(_)) => {},
                Some(_) => {},
                None => match obj_lookup(o@, "volume_split"@) {
                    Some(JsonVal::Arr(a)) => {
                        match (s1, s2) {
                            (
                                ConnectorSelection::VolumeSplit(v1),
                                ConnectorSelection::VolumeSplit(v2),
                            ) => {
                                lemma_splits_decode_unique(a@, v1@, v2@);
                            },
                            _ => {},
                        }
                    },
                    _ => {},
                },
            },
        },
        _ => {},
    }
}

pub proof fn lemma_statements_decode_excludes_fail(s: Seq<JsonVal>, l: Seq<IfStatement>)
    requires
        spec_statements_decode(s, l),
    ensures
        !spec_statements_fail(s),
{
    if spec_statements_fail(s) {
        let i = choose|i: int| 0 <= i < s.len() && spec_stmt_fail(s[i]);
        assert(spec_stmt_decodes(s[i], l[i]));
        match s[i] {
            JsonVal::Arr(a) => {
                if spec_comparisons_fail(a@) {
                    let k = choose|k: int| 0 <= k < a@.len() && spec_decode_comparison(a@[k]) is None;
                    assert(spec_decode_comparison(a@[k]) == Some(l[i].conditions@[k]));
                }
            },
            _ => {},
        }
    }
}

pub proof fn lemma_rules_decode_excludes_fail(s: Seq<JsonVal>, l: Seq<Rule>)
    requires
        spec_rules_decode(s, l),
    ensures
        !spec_rules_fail(s),
{
    if spec_rules_fail(s) {
        let i = choose|i: int| 0 <= i < s.len() && spec_rule_fail(s[i]);
        assert(spec_rule_decodes(s[i], l[i]));
        match s[i] {
            JsonVal::Obj(o) => {
                match (obj_lookup(o@, "selection"@), obj_lookup(o@, "statements"@)) {
                    (Some(sj), Some(JsonVal::Arr(sa))) => {
                        lemma_sel_decode_excludes_fail(sj, l[i].selection);
                        lemma_statements_decode_excludes_fail(sa@, l[i].statements@);
                    },
                    _ => {},
                }
            },
            _ => {},
        }
    }
}

/// Two programs decoded from the same value are equally well-formed.
pub proof fn lemma_program_decode_valid_congruent(j: JsonVal, p1: Program, p2: Program)
    requires
        spec_program_decodes(j, p1),
        spec_program_decodes(j, p2),
    ensures
        crate::algorithm::spec_program_valid(p1) == crate::algorithm::spec_program_valid(p2),
{
    match j {
        JsonVal::Obj(o) => match (obj_lookup(o@, "default_selection"@), obj_lookup(o@, "rules"@)) {
            (Some(dj), Some(JsonVal::Arr(ra))) => {
                lemma_sel_decode_valid_congruent(dj, p1.default_selection, p2.default_selection);
                assert forall|i: int| 0 <= i < p1.rules@.len() implies
                    crate::algorithm::spec_selection_valid(#[trigger] p1.rules@[i].selection)
                        == crate::algorithm::spec_selection_valid(p2.rules@[i].selection) by {
                    assert(spec_rule_decodes(ra@[i], p1.rules@[i]));
                    assert(spec_rule_decodes(ra@[i], p2.rules@[i]));
                    match ra@[i] {
                        JsonVal::Obj(ro) => {
                            match (obj_lookup(ro@, "selection"@), obj_lookup(ro@, "statements"@)) {
                                (Some(sj), Some(JsonVal::Arr(_))) => {
                                    lemma_sel_decode_valid_congruent(
                                        sj,
                                        p1.rules@[i].selection,
                                        p2.rules@[i].selection,
                                    );
                                },
                                _ => {},
                            }
                        },
                        _ => {},
                    }
                };
                if crate::algorithm::spec_program_valid(p1) {
                    assert forall|i: int| 0 <= i < p2.rules@.len() implies
                        crate::algorithm::spec_selection_valid(
                            #[trigger] p2.rules@[i].selection,
                        ) by {
                        assert(crate::algorithm::spec_selection_valid(p1.rules@[i].selection));
                    };
                }
                if crate::algorithm::spec_program_valid(p2) {
                    assert forall|i: int| 0 <= i < p1.rules@.len() implies
                        crate::algorithm::spec_selection_valid(
                            #[trigger] p1.rules@[i].selection,
                        ) by {
                        assert(crate::algorithm::spec_selection_valid(p2.rules@[i].selection));
                    };
                }
            },
            _ => {},
        },
        _ => {},
    }
}

pub proof fn lemma_program_decode_excludes_fail(j: JsonVal, p: Program)
    requires
        spec_program_decodes(j, p),
    ensures
        !spec_program_fail(j),
{
    match j {
        JsonVal::Obj(o) => match (obj_lookup(o@, "default_selection"@), obj_lookup(o@, "rules"@)) {
            (Some(dj), Some(JsonVal::Arr(ra))) => {
                lemma_sel_decode_excludes_fail(dj, p.default_selection);
                lemma_rules_decode_excludes_fail(ra@, p.rules@);
            },
            _ => {},
        },
        _ => {},
    }
}

/// A value that decodes as an algorithm cannot also be a parse failure.
pub proof fn lemma_algorithm_decode_excludes_fail(j: JsonVal, alg: RoutingAlgorithm)
    requires
        spec_algorithm_decodes(j, alg),
    ensures
        !spec_algorithm_fail(j),
{
    match j {
        JsonVal::Obj(o) => match obj_lookup(o@, "single"@) {
            Some(_) => {},
            None => match obj_lookup(o@, "priority"@) {
                Some(JsonVal::Arr(a)) => {
                    match alg {
                        RoutingAlgorithm::Priority(l) => {
                            lemma_choices_decode_excludes_fail(a@, l@);
                        },
                        _ => {},
                    }
                },
                Some(_) => {},
                None => match obj_lookup(o@, "volume_split"@) {
                    Some(JsonVal::Arr(a)) => {
                        match alg {
                            RoutingAlgorithm::VolumeSplit(v) => {
                                lemma_splits_decode_excludes_fail(a@, v@);
                            },
                            _ => {},
                        }
                    },
                    Some(_) => {},
                    None => match obj_lookup(o@, "advanced"@) {
                        Some(pj) => {
                            match alg {
                                RoutingAlgorithm::Advanced(p) => {
                                    lemma_program_decode_excludes_fail(pj, p);
                                },
                                _ => {},
                            }
                        },
                        None => {},
                    },
                },
            },
        },
        _ => {},
    }
}

/// Two algorithms decoded from the same value agree on their variant, on
/// compiling, and on the parse-level rejection.
pub proof fn lemma_algorithm_decode_congruent(j: JsonVal, a1: RoutingAlgorithm, a2: RoutingAlgorithm)
    requires
        spec_algorithm_decodes(j, a1),
        spec_algorithm_decodes(j, a2),
    ensures
        (a1 is Advanced) == (a2 is Advanced),
        crate::algorithm::spec_algorithm_compiles(a1) == crate::algorithm::spec_algorithm_compiles(
            a2,
        ),
        crate::algorithm::spec_parse_invalid(a1) == crate::algorithm::spec_parse_invalid(a2),
{
    match j {
        JsonVal::Obj(o) => match obj_lookup(o@, "single"@) {
            Some(_) => {},
            None => match obj_lookup(o@, "priority"@) {
                Some(JsonVal::Arr(_)) => {},
                Some(_) => {},
                None => match obj_lookup(o@, "volume_split"@) {
                    Some(JsonVal::Arr(a)) => {
                        match (a1, a2) {
                            (RoutingAlgorithm::VolumeSplit(v1), RoutingAlgorithm::VolumeSplit(v2)) => {
                                lemma_splits_decode_unique(a@, v1@, v2@);
                            },
                            _ => {},
                        }
                    },
                    Some(_) => {},
                    None => match obj_lookup(o@, "advanced"@) {
                        Some(pj) => {
                            match (a1, a2) {
                                (RoutingAlgorithm::Advanced(p1), RoutingAlgorithm::Advanced(p2)) => {
                                    lemma_program_decode_valid_congruent(pj, p1, p2);
                                },
                                _ => {},
                            }
                        },
                        None => {},
                    },
                },
            },
        },
        _ => {},
    }
}

} // verus!
