//! Delegated-wallet authentication and remote-signing broker.
//!
//! The library validates a bearer token against a fixed issuer, audience and
//! verification key, resolves the resulting claims to the user's delegated
//! custodial wallet, and builds the request that asks the remote custodian to
//! sign and broadcast a transaction. All transport (HTTP) is left to the
//! caller; every decision taken on the values that come back is made here,
//! under a contract.

pub mod config;
pub mod processor;
pub mod selector;
pub mod signing;
pub mod types;
pub mod wallet_manager;
