//! Payment-connector routing core.
//!
//! Given a payment or payout in flight, these modules select an ordered list
//! of downstream payment processors ("connectors") to attempt, honoring a
//! merchant-configured routing algorithm and a constraint graph of
//! per-connector eligibility rules. Compiled algorithms and constraint
//! graphs are cached per `(merchant, profile, transaction type)`.

pub mod algorithm;
pub mod cache;
pub mod enums;
pub mod errors;
pub mod json;
pub mod laws;
pub mod orchestrator;
pub mod session;
pub mod state;
pub mod types;
pub mod cgraph;
pub mod decode;
pub mod dsl;
pub mod hashing;
pub mod volume_split;
