use vstd::prelude::*;
use crate::address::Address;

verus! {

/// Emitted by an accepted contribution.
#[derive(Clone, Copy, Debug, PartialEq, Eq)]
pub struct ContributePublicEvent {
    pub user: Address,
    pub presale: Address,
    pub amount_lamports: u64,
    /// Tokens allocated by this contribution alone.
    pub tokens_allocated: u64,
    pub total_raised: u64,
}

/// Emitted when the presale is finalized.
#[derive(Clone, Copy, Debug, PartialEq, Eq)]
pub struct FinalizePresaleEvent {
    pub presale: Address,
    pub total_raised: u64,
}

/// Emitted by a migration; also the list of transfers it made.
#[derive(Clone, Copy, Debug, PartialEq, Eq)]
pub struct MigrateAndCreateLpEvent {
    pub presale: Address,
    pub lp_tokens: u64,
    pub lp_sol: u64,
    pub ecosystem_tokens: u64,
    pub remaining_sol_to_treasury: u64,
}

/// Emitted by a token claim.
#[derive(Clone, Copy, Debug, PartialEq, Eq)]
pub struct ClaimTokensEvent {
    pub user: Address,
    pub presale: Address,
    pub tokens_claimed: u64,
}

} // verus!
