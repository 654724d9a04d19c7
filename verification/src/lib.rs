//! Engine API core: the validating dispatcher between a consensus-layer
//! JSON-RPC endpoint and an execution-layer node.
//!
//! The crate verifies the logic that sits between the transport and the
//! node's asynchronous subsystems: version-gated schema validation of
//! payloads and attributes, construction of beacon-engine requests with
//! per-request reply slots, historical payload-body lookups with bounded
//! ranges and sparse results, and reconciliation of the terminal
//! proof-of-work configuration between the two layers.

pub mod chain_spec;
pub mod copying;
pub mod engine_api;
pub mod error;
pub mod message;
pub mod payload_store;
pub mod store;
pub mod types;
pub mod version;
