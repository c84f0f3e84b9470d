//! Presale lifecycle for a token launch: contributions under a hard cap,
//! a stake-weighted launch-or-refund vote, and the settlement operations
//! (migration, refunds, token claims) that move custody between vaults.
//!
//! Every operation is a verified transition on plain account records. The
//! host program reads the accounts, calls into this library, performs the
//! value transfers that an operation returns, and writes the records back.

pub mod address;
pub mod error;
pub mod state;
pub mod auth;
pub mod derivation;
pub mod events;
pub mod contribute;
pub mod vote;
pub mod settlement;
pub mod admin;
pub mod laws;
