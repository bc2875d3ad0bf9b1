//! Error taxonomy of the node bootstrapper. Configuration errors and
//! primary-server start failures abort startup; binding and secondary-server
//! failures are likewise fatal. Only the deliberate absence of a vote
//! service is a non-fatal state.

use vstd::prelude::*;

verus! {

/// Failure to obtain a configuration value.
#[derive(Clone, Copy, Debug, PartialEq, Eq, Structural)]
pub enum ConfigError {
    /// The configuration document could not be read at all.
    Unreadable,
    /// The document was read but does not match the expected schema.
    Malformed,
}

/// Failure to bind the vote services to a persistence strategy.
#[derive(Clone, Copy, Debug, PartialEq, Eq, Structural)]
pub enum BindError {
    /// Schema or table initialization failed for the durable strategy.
    SchemaInit,
    /// The in-memory adapter over the application interface could not be built.
    AdapterFailure,
}

/// Failure reported by the service registry.
#[derive(Clone, Copy, Debug, PartialEq, Eq, Structural)]
pub enum RegistryError {
    /// A binding for this node identity already exists; it is never overwritten.
    AlreadyConfigured,
}

/// Failure of the server lifecycle itself.
#[derive(Clone, Copy, Debug, PartialEq, Eq, Structural)]
pub enum OrchestratorError {
    /// The primary application server could not start.
    PrimaryStartFailed,
    /// The secondary vote server could not bind its port.
    SecondaryStartFailed,
}

/// Any fatal startup failure of the node, for reporting at the top level.
#[derive(Clone, Copy, Debug, PartialEq, Eq, Structural)]
pub enum NodeError {
    Config(ConfigError),
    Bind(BindError),
    Registry(RegistryError),
    Orchestrator(OrchestratorError),
}

} // verus!
