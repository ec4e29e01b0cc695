//! Error taxonomy of the routing core.
//!
//! Every fatal failure of a selection call surfaces as one of these kinds.
//! Metadata parse failures are always downgraded to absent metadata before
//! they reach a caller, and fallback-config fetch failures inside the
//! eligibility-with-fallback entry point are recovered as an empty fallback.

use vstd::prelude::*;

verus! {

#[derive(Debug)]
pub enum RoutingError {
    /// A payment carried no profile id where one was required.
    ProfileIdMissing,
    /// A stored profile routing algorithm had a shape no known version has.
    InvalidRoutingAlgorithmStructure,
    /// The business profile was not found in the store.
    ProfileNotFound,
    /// The referenced routing algorithm row is missing from the store.
    DslMissingInDb,
    /// The stored algorithm data did not decode into a routing algorithm.
    DslParsingError,
    /// An advanced rule program failed compilation.
    DslBackendInitError,
    /// The rule interpreter faulted (missing input field, bad predicate).
    DslExecutionError,
    /// A rule program produced a selection variant this layer rejects.
    DslIncorrectSelectionAlgorithm,
    /// The volume split that followed a rule program's output failed.
    DslFinalConnectorSelectionFailed,
    /// An input field the evaluation needed was absent.
    DslMissingRequiredField { field_name: String },
    /// The volume split had no positive weight to draw from.
    VolumeSplitFailed,
    /// Connector selection through a compiled algorithm failed.
    ConnectorSelectionFailed,
    /// Metadata did not decode as routing parameters (always soft).
    MetadataParsingError,
    /// Rebuilding the constraint graph failed.
    KgraphCacheRefreshFailed,
    /// Projecting or evaluating a candidate against the graph failed.
    KgraphAnalysisError,
    /// A configured filter or a selection referenced an unknown connector.
    InvalidConnectorName { name: String },
    /// The merchant default fallback configuration could not be fetched.
    FallbackConfigFetchFailed,
}

impl Clone for RoutingError {
    fn clone(&self) -> (res: Self)
        ensures
            res == *self,
    {
        match self {
            RoutingError::ProfileIdMissing => RoutingError::ProfileIdMissing,
            RoutingError::InvalidRoutingAlgorithmStructure => RoutingError::InvalidRoutingAlgorithmStructure,
            RoutingError::ProfileNotFound => RoutingError::ProfileNotFound,
            RoutingError::DslMissingInDb => RoutingError::DslMissingInDb,
            RoutingError::DslParsingError => RoutingError::DslParsingError,
            RoutingError::DslBackendInitError => RoutingError::DslBackendInitError,
            RoutingError::DslExecutionError => RoutingError::DslExecutionError,
            RoutingError::DslIncorrectSelectionAlgorithm => RoutingError::DslIncorrectSelectionAlgorithm,
            RoutingError::DslFinalConnectorSelectionFailed => RoutingError::DslFinalConnectorSelectionFailed,
            RoutingError::DslMissingRequiredField { field_name } => RoutingError::DslMissingRequiredField {
                field_name: field_name.clone(),
            },
            RoutingError::VolumeSplitFailed => RoutingError::VolumeSplitFailed,
            RoutingError::ConnectorSelectionFailed => RoutingError::ConnectorSelectionFailed,
            RoutingError::MetadataParsingError => RoutingError::MetadataParsingError,
            RoutingError::KgraphCacheRefreshFailed => RoutingError::KgraphCacheRefreshFailed,
            RoutingError::KgraphAnalysisError => RoutingError::KgraphAnalysisError,
            RoutingError::InvalidConnectorName { name } => RoutingError::InvalidConnectorName {
                name: name.clone(),
            },
            RoutingError::FallbackConfigFetchFailed => RoutingError::FallbackConfigFetchFailed,
        }
    }
}

pub type RoutingResult<T> = Result<T, RoutingError>;

} // verus!
