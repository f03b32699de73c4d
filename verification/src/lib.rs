//! Scripted transaction-orchestration bridge for a Starknet-style network.
//!
//! The crate covers the core of a contract-scripting tool: resolving a
//! network endpoint and signing identity, validating and building the four
//! on-chain operations (declare, deploy, invoke, call), and deciding the
//! confirmation-polling state machine. Network transport, signing and the
//! scripting host are collaborators behind narrow interfaces; everything
//! that decides or computes lives here, with contracts.

pub mod account;
pub mod args;
pub mod artifacts;
pub mod block;
pub mod bridge;
pub mod call;
pub mod config;
pub mod declare;
pub mod deploy;
pub mod endpoint;
pub mod errors;
pub mod felt;
pub mod invoke;
pub mod protocol;
pub mod transaction;

pub use errors::Error;
pub use errors::ErrorExtLua;
