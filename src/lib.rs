//! Claim-and-sweep pipeline for a batch of accounts: balance and nonce
//! resolution, a gas-availability poll, paired transaction construction,
//! signing and per-transaction outcome tracking.
pub mod broadcast;
pub mod builder;
pub mod chain;
pub mod keystore;
pub mod laws;
pub mod poll;
pub mod secrets;
pub mod types;
pub mod uint;
pub mod wallet;
