use vstd::prelude::*;
use crate::address::Address;

verus! {

/// Scale of one whole token in the allocation formula (nine decimals).
pub const TOKEN_PRECISION: u64 = 1_000_000_000;

/// Tokens offered to public contributors (400M in minor units).
pub const PUBLIC_TOKEN_CAP: u64 = 400_000_000_000_000;

/// Tokens set aside for the liquidity pool (300M in minor units).
pub const LP_TOKEN_ALLOCATION: u64 = 300_000_000_000_000;

/// Tokens set aside for the ecosystem vault (100M in minor units).
pub const ECOSYSTEM_ALLOCATION: u64 = 100_000_000_000_000;

/// Grace window, in seconds, for the launch after a successful vote.
pub const LAUNCH_GRACE_SECONDS: i64 = 86_400;

/// Stage of the presale lifecycle.
#[derive(Clone, Copy, Debug, PartialEq, Eq, Structural)]
pub enum Phase {
    Pending,
    PublicActive,
    Voting,
    Launchable,
    Refundable,
    Launched,
}

/// Result of the community vote.
#[derive(Clone, Copy, Debug, PartialEq, Eq, Structural)]
pub enum Outcome {
    Undecided,
    Launch,
    Refund,
}

/// The stored code of a phase.
pub open spec fn phase_code(p: Phase) -> u8 {
    match p {
        Phase::Pending => 0,
        Phase::PublicActive => 1,
        Phase::Voting => 2,
        Phase::Launchable => 3,
        Phase::Refundable => 4,
        Phase::Launched => 5,
    }
}

/// The stored code of an outcome.
pub open spec fn outcome_code(o: Outcome) -> u8 {
    match o {
        Outcome::Undecided => 0,
        Outcome::Launch => 1,
        Outcome::Refund => 2,
    }
}

impl Phase {
    /// The code under which the phase is stored in an account.
    pub fn to_u8(&self) -> (r: u8)
        ensures
            r == phase_code(*self),
    {
        match self {
            Phase::Pending => 0,
            Phase::PublicActive => 1,
            Phase::Voting => 2,
            Phase::Launchable => 3,
            Phase::Refundable => 4,
            Phase::Launched => 5,
        }
    }

    /// The phase stored under `code`, if the code names one.
    pub fn from_u8(code: u8) -> (r: Option<Phase>)
        ensures
            r matches Some(p) ==> phase_code(p) == code,
            r is None <==> code > 5,
    {
        match code {
            0 => Some(Phase::Pending),
            1 => Some(Phase::PublicActive),
            2 => Some(Phase::Voting),
            3 => Some(Phase::Launchable),
            4 => Some(Phase::Refundable),
            5 => Some(Phase::Launched),
            _ => None,
        }
    }
}

impl Outcome {
    /// The code under which the outcome is stored in an account.
    pub fn to_u8(&self) -> (r: u8)
        ensures
            r == outcome_code(*self),
    {
        match self {
            Outcome::Undecided => 0,
            Outcome::Launch => 1,
            Outcome::Refund => 2,
        }
    }

    /// The outcome stored under `code`, if the code names one.
    pub fn from_u8(code: u8) -> (r: Option<Outcome>)
        ensures
            r matches Some(o) ==> outcome_code(o) == code,
            r is None <==> code > 2,
    {
        match code {
            0 => Some(Outcome::Undecided),
            1 => Some(Outcome::Launch),
            2 => Some(Outcome::Refund),
            _ => None,
        }
    }
}

/// Platform-wide configuration: the two admin principals and the treasury.
#[derive(Clone, Copy, Debug, PartialEq, Eq)]
pub struct PlatformConfig {
    pub owner: Address,
    pub operator: Address,
    pub treasury: Address,
    pub fee_bps: u16,
    pub bump: u8,
}

/// The presale aggregate: caps, totals, vote tallies, deadlines and outcome.
#[derive(Clone, Copy, Debug, PartialEq, Eq)]
pub struct Presale {
    pub platform: Address,
    pub authority: Address,
    pub mint: Address,
    pub public_start_ts: i64,
    pub public_end_ts: i64,
    /// Token generation time: when the launch is expected.
    pub tge_ts: i64,
    pub public_token_cap: u64,
    pub lp_token_allocation: u64,
    pub ecosystem_allocation: u64,
    pub public_price_lamports_per_token: u64,
    pub hard_cap_lamports: u64,
    pub public_raised_lamports: u64,
    pub vip_raised_lamports: u64,
    pub is_finalized: bool,
    pub is_migrated: bool,
    pub phase: Phase,
    pub vote_yes_weight: u64,
    pub vote_no_weight: u64,
    pub voting_ends_ts: i64,
    pub refund_enabled: bool,
    /// After this time an unlaunched, launchable presale may open refunds.
    pub launch_deadline_ts: i64,
    pub outcome: Outcome,
    pub ecosystem_vault: Address,
    pub lp_authority: Address,
    pub bump: u8,
}

impl Presale {
    /// What holds of every presale record in every reachable state.
    pub open spec fn wf(&self) -> bool {
        &&& self.public_raised_lamports <= self.hard_cap_lamports
        &&& self.public_token_cap == PUBLIC_TOKEN_CAP
        &&& self.lp_token_allocation == LP_TOKEN_ALLOCATION
        &&& self.ecosystem_allocation == ECOSYSTEM_ALLOCATION
    }
}

/// The phase graph: `to` may follow `from` in one operation.
pub open spec fn phase_may_follow(from: Phase, to: Phase) -> bool {
    ||| from == to
    ||| from == Phase::Pending && to == Phase::PublicActive
    ||| from == Phase::PublicActive && to == Phase::Voting
    ||| from == Phase::Voting && to == Phase::Launchable
    ||| from == Phase::Voting && to == Phase::Refundable
    ||| from == Phase::Launchable && to == Phase::Refundable
    ||| from == Phase::Launchable && to == Phase::Launched
}

/// One operation may take the presale record from `pre` to `post`: the phase
/// moves along the graph, the finalized and migrated flags never reset, the
/// raised total never shrinks, and the configuration stays fixed.
pub open spec fn lifecycle_step(pre: Presale, post: Presale) -> bool {
    &&& phase_may_follow(pre.phase, post.phase)
    &&& pre.is_finalized ==> post.is_finalized
    &&& pre.is_migrated ==> post.is_migrated
    &&& pre.public_raised_lamports <= post.public_raised_lamports
    &&& post.hard_cap_lamports == pre.hard_cap_lamports
    &&& post.public_price_lamports_per_token == pre.public_price_lamports_per_token
    &&& post.public_token_cap == pre.public_token_cap
    &&& post.lp_token_allocation == pre.lp_token_allocation
    &&& post.ecosystem_allocation == pre.ecosystem_allocation
    &&& post.tge_ts == pre.tge_ts
}

/// A contributor's ledger entry in one presale.
#[derive(Clone, Copy, Debug, PartialEq, Eq)]
pub struct UserPosition {
    pub presale: Address,
    pub user: Address,
    pub public_contribution_lamports: u64,
    pub tokens_allocated: u64,
    pub tokens_claimed: u64,
    pub refunded: bool,
    /// Set once this position has voted; never cleared.
    pub has_voted: bool,
    pub bump: u8,
}

impl UserPosition {
    /// No position has claimed more tokens than it was allocated.
    pub open spec fn wf(&self) -> bool {
        self.tokens_claimed <= self.tokens_allocated
    }

    /// The empty position that a first contribution starts from.
    pub fn new(presale: Address, user: Address, bump: u8) -> (r: UserPosition)
        ensures
            r.presale == presale,
            r.user == user,
            r.public_contribution_lamports == 0,
            r.tokens_allocated == 0,
            r.tokens_claimed == 0,
            !r.refunded,
            !r.has_voted,
            r.bump == bump,
            r.wf(),
    {
        UserPosition {
            presale,
            user,
            public_contribution_lamports: 0,
            tokens_allocated: 0,
            tokens_claimed: 0,
            refunded: false,
            has_voted: false,
            bump,
        }
    }
}

/// A per-contributor whitelist entry. Tier zero means not whitelisted; a
/// zero cap means no cap beyond the hard cap.
#[derive(Clone, Copy, Debug, PartialEq, Eq)]
pub struct WhitelistEntry {
    pub presale: Address,
    pub user: Address,
    pub tier: u8,
    pub max_contribution_lamports: u64,
    pub bump: u8,
}

/// Revenue split with a creator; reserved, not used by any operation yet.
#[derive(Clone, Copy, Debug, PartialEq, Eq)]
pub struct InfluencerConfig {
    pub creator: Address,
    pub presale: Address,
    pub creator_share_bps: u16,
    pub vip_share_from_creator_bps: u16,
    pub vip_share_from_platform_bps: u16,
    pub bump: u8,
}

/// Pool of VIP contributions; reserved, not used by any operation yet.
#[derive(Clone, Copy, Debug, PartialEq, Eq)]
pub struct VipPool {
    pub presale: Address,
    pub total_contributions: u64,
    pub bump: u8,
}

/// A VIP contributor's entry; reserved, not used by any operation yet.
#[derive(Clone, Copy, Debug, PartialEq, Eq)]
pub struct VipPosition {
    pub vip_pool: Address,
    pub user: Address,
    pub contribution_lamports: u64,
    pub rewards_earned: u64,
    pub bump: u8,
}

} // verus!
