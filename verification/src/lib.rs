//! A liquid-staking ledger for a fungible token: deposits, time-weighted
//! rewards, a delayed-withdrawal queue with slashing, and signed permits
//! protected by per-account nonces.

pub mod account_map;
pub mod admin;
pub mod error;
pub mod events;
pub mod gateway;
pub mod hashing;
pub mod laws;
pub mod ledger;
pub mod model;
pub mod params;
pub mod permit;
pub mod records;
pub mod reward;
pub mod snapshot;
pub mod state;
pub mod transaction;
pub mod types;
pub mod unbonding;
pub mod wire;
