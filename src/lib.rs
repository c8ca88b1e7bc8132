//! Deploys a compose manifest's services and samples the engine's view of
//! the named containers: the decisions of that run, with their contracts.
pub mod deploy;
pub mod error;
pub mod manifest;
pub mod monitor;
pub mod names;
