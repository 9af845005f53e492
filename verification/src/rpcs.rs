//! Typed errors and configuration for the RPC providers the bridge talks to.
pub mod error;
pub mod eth_errors;
pub mod errors;
pub mod aligned;
