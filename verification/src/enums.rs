//! Plain enumerations of the routing vocabulary.
//!
//! The storage vocabulary and the rule-DSL vocabulary are normalized into
//! these types by the input builders.

use vstd::prelude::*;

verus! {

#[derive(Clone, Copy, Debug, PartialEq, Eq, Structural)]
pub enum TransactionType {
    Payment,
    Payout,
}

#[derive(Clone, Copy, Debug, PartialEq, Eq, Structural)]
pub enum Currency {
    Usd,
    Eur,
    Gbp,
    Inr,
    Sek,
    Jpy,
}

#[derive(Clone, Copy, Debug, PartialEq, Eq, Structural)]
pub enum Country {
    UnitedStates,
    UnitedKingdom,
    Germany,
    France,
    India,
    Netherlands,
}

#[derive(Clone, Copy, Debug, PartialEq, Eq, Structural)]
pub enum PaymentMethod {
    Card,
    Wallet,
    PayLater,
    BankRedirect,
    BankDebit,
    Crypto,
}

#[derive(Clone, Copy, Debug, PartialEq, Eq, Structural)]
pub enum PaymentMethodType {
    Card,
    Wallet,
    PayLater,
    BankRedirect,
    BankDebit,
    Crypto,
    Credit,
    Debit,
    ApplePay,
    GooglePay,
    Klarna,
    Ideal,
    Ach,
}

#[derive(Clone, Copy, Debug, PartialEq, Eq, Structural)]
pub enum CardNetwork {
    Visa,
    Mastercard,
    Amex,
    Discover,
    Rupay,
}

#[derive(Clone, Copy, Debug, PartialEq, Eq, Structural)]
pub enum AuthenticationType {
    ThreeDs,
    NoThreeDs,
}

#[derive(Clone, Copy, Debug, PartialEq, Eq, Structural)]
pub enum CaptureMethod {
    Automatic,
    Manual,
    ManualMultiple,
    Scheduled,
}

#[derive(Clone, Copy, Debug, PartialEq, Eq, Structural)]
pub enum SetupFutureUsage {
    OnSession,
    OffSession,
}

#[derive(Clone, Copy, Debug, PartialEq, Eq, Structural)]
pub enum MandateAcceptanceType {
    Online,
    Offline,
}

#[derive(Clone, Copy, Debug, PartialEq, Eq, Structural)]
pub enum MandateType {
    SingleUse,
    MultiUse,
}

#[derive(Clone, Copy, Debug, PartialEq, Eq, Structural)]
pub enum PaymentType {
    SetupMandate,
    NonMandate,
}

/// The declared role of a merchant connector account.
#[derive(Clone, Copy, Debug, PartialEq, Eq, Structural)]
pub enum ConnectorType {
    PaymentProcessor,
    PaymentVas,
    PaymentMethodAuth,
    PayoutProcessor,
    AuthenticationProcessor,
}

/// The coarse payment method a payment-method type belongs to.
pub open spec fn spec_payment_method_of(pmt: PaymentMethodType) -> PaymentMethod {
    match pmt {
        PaymentMethodType::Card => PaymentMethod::Card,
        PaymentMethodType::Credit => PaymentMethod::Card,
        PaymentMethodType::Debit => PaymentMethod::Card,
        PaymentMethodType::Wallet => PaymentMethod::Wallet,
        PaymentMethodType::ApplePay => PaymentMethod::Wallet,
        PaymentMethodType::GooglePay => PaymentMethod::Wallet,
        PaymentMethodType::PayLater => PaymentMethod::PayLater,
        PaymentMethodType::Klarna => PaymentMethod::PayLater,
        PaymentMethodType::BankRedirect => PaymentMethod::BankRedirect,
        PaymentMethodType::Ideal => PaymentMethod::BankRedirect,
        PaymentMethodType::BankDebit => PaymentMethod::BankDebit,
        PaymentMethodType::Ach => PaymentMethod::BankDebit,
        PaymentMethodType::Crypto => PaymentMethod::Crypto,
    }
}

pub fn payment_method_of(pmt: PaymentMethodType) -> (pm: PaymentMethod)
    ensures
        pm == spec_payment_method_of(pmt),
{
    match pmt {
        PaymentMethodType::Card => PaymentMethod::Card,
        PaymentMethodType::Credit => PaymentMethod::Card,
        PaymentMethodType::Debit => PaymentMethod::Card,
        PaymentMethodType::Wallet => PaymentMethod::Wallet,
        PaymentMethodType::ApplePay => PaymentMethod::Wallet,
        PaymentMethodType::GooglePay => PaymentMethod::Wallet,
        PaymentMethodType::PayLater => PaymentMethod::PayLater,
        PaymentMethodType::Klarna => PaymentMethod::PayLater,
        PaymentMethodType::BankRedirect => PaymentMethod::BankRedirect,
        PaymentMethodType::Ideal => PaymentMethod::BankRedirect,
        PaymentMethodType::BankDebit => PaymentMethod::BankDebit,
        PaymentMethodType::Ach => PaymentMethod::BankDebit,
        PaymentMethodType::Crypto => PaymentMethod::Crypto,
    }
}

/// Two-letter country codes recognized by the input builders. An unknown
/// code is treated as an absent country: the builders invent no default.
pub open spec fn spec_country_from_alpha2(code: Seq<char>) -> Option<Country> {
    if code == "US"@ {
        Some(Country::UnitedStates)
    } else if code == "GB"@ {
        Some(Country::UnitedKingdom)
    } else if code == "DE"@ {
        Some(Country::Germany)
    } else if code == "FR"@ {
        Some(Country::France)
    } else if code == "IN"@ {
        Some(Country::India)
    } else if code == "NL"@ {
        Some(Country::Netherlands)
    } else {
        None
    }
}

/// Tests a string for one exact content.
pub fn str_is(s: &str, lit: &str) -> (b: bool)
    ensures
        b == (s@ == lit@),
{
    let a = s.to_owned();
    let c = lit.to_owned();
    a == c
}

pub fn country_from_alpha2(code: &str) -> (r: Option<Country>)
    ensures
        r == spec_country_from_alpha2(code@),
{
    if str_is(code, "US") {
        Some(Country::UnitedStates)
    } else if str_is(code, "GB") {
        Some(Country::UnitedKingdom)
    } else if str_is(code, "DE") {
        Some(Country::Germany)
    } else if str_is(code, "FR") {
        Some(Country::France)
    } else if str_is(code, "IN") {
        Some(Country::India)
    } else if str_is(code, "NL") {
        Some(Country::Netherlands)
    } else {
        None
    }
}

} // verus!
