//! A node bootstrapper for a small voting cluster: it resolves a layered
//! configuration (file document, then environment overrides, then compiled
//! defaults), selects a persistence strategy for the vote services, registers
//! them under the node's identity, and drives the lifecycle of a primary
//! application server and an optional secondary vote server as one unit.

pub mod config;
pub mod document;
pub mod errors;
pub mod json;
pub mod numeric;
pub mod orchestrator;
pub mod registry;
pub mod services;
