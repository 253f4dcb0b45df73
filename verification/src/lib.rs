//! The record-management core of a social-feed ledger: deterministic
//! derivation of storage addresses for comments and reactions, creation and
//! destruction of those records with ownership enforcement, and saturating
//! aggregate counters on the parent tweet record.

pub mod address;
pub mod counters;
pub mod errors;
pub mod instructions;
mod kv;
pub mod laws;
pub mod states;
pub mod store;
