//! The ways a run can fail.
use vstd::prelude::*;

verus! {

/// A terminal failure of a run, with a descriptive message.
#[derive(Debug, Clone)]
pub enum RunError {
    /// The manifest file could not be opened or read.
    ManifestRead(String),
    /// The manifest is not a well-formed document of services.
    ManifestFormat(String),
    /// The orchestration command could not be started.
    Invocation(String),
    /// The container engine could not be queried.
    EngineQuery(String),
    /// The report could not be serialized.
    Serialization(String),
}

} // verus!
