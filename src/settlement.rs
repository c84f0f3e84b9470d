use vstd::prelude::*;
use crate::address::Address;
use crate::auth::{assert_admin, is_admin};
use crate::error::PresaleError;
use crate::events::{ClaimTokensEvent, MigrateAndCreateLpEvent};
use crate::state::{lifecycle_step, Phase, PlatformConfig, Presale, UserPosition};

verus! {

/// The balances that a migration moves: lamports of the presale's vault, of
/// the liquidity-pool staging account and of the treasury; tokens of the
/// presale's token vault, of the pool's token account and of the ecosystem
/// vault.
#[derive(Clone, Copy, Debug, PartialEq, Eq)]
pub struct MigrationBalances {
    pub sol_vault: u64,
    pub lp_sol_account: u64,
    pub treasury: u64,
    pub token_vault: u64,
    pub lp_token_account: u64,
    pub ecosystem_vault: u64,
}

/// Why a migration is refused, guards taken in order; `None` when it runs.
pub open spec fn migrate_rejection(
    platform: PlatformConfig,
    presale: Presale,
    admin: Address,
    treasury: Address,
    lp_sol_amount: u64,
    b: MigrationBalances,
) -> Option<PresaleError> {
    let lp_tokens = presale.lp_token_allocation;
    let eco_tokens = presale.ecosystem_allocation;
    if !is_admin(platform, admin) {
        Some(PresaleError::Unauthorized)
    } else if treasury@ != platform.treasury@ {
        Some(PresaleError::Unauthorized)
    } else if !presale.is_finalized {
        Some(PresaleError::PresaleNotFinalized)
    } else if presale.is_migrated {
        Some(PresaleError::PresaleAlreadyMigrated)
    } else if b.token_vault < lp_tokens || b.lp_token_account + lp_tokens > u64::MAX {
        Some(PresaleError::InsufficientFunds)
    } else if b.sol_vault < lp_sol_amount || b.lp_sol_account + lp_sol_amount > u64::MAX {
        Some(PresaleError::InsufficientFunds)
    } else if b.token_vault - lp_tokens < eco_tokens || b.ecosystem_vault + eco_tokens > u64::MAX {
        Some(PresaleError::InsufficientFunds)
    } else if b.treasury + (b.sol_vault - lp_sol_amount) > u64::MAX {
        Some(PresaleError::InsufficientFunds)
    } else {
        None
    }
}

/// The balances after a migration that ran: the pool allocation and
/// `lp_sol_amount` staged for the pool, the ecosystem allocation in its
/// vault, and every lamport left in the presale's vault in the treasury.
pub open spec fn migrated_balances(
    presale: Presale,
    lp_sol_amount: u64,
    b: MigrationBalances,
) -> MigrationBalances {
    MigrationBalances {
        sol_vault: 0,
        lp_sol_account: (b.lp_sol_account + lp_sol_amount) as u64,
        treasury: (b.treasury + (b.sol_vault - lp_sol_amount)) as u64,
        token_vault: (b.token_vault - presale.lp_token_allocation
            - presale.ecosystem_allocation) as u64,
        lp_token_account: (b.lp_token_account + presale.lp_token_allocation) as u64,
        ecosystem_vault: (b.ecosystem_vault + presale.ecosystem_allocation) as u64,
    }
}

/// The balances after a migration call: moved when it runs, as they were
/// when it is refused.
pub open spec fn migration_balances(
    platform: PlatformConfig,
    presale: Presale,
    admin: Address,
    treasury: Address,
    lp_sol_amount: u64,
    b: MigrationBalances,
) -> MigrationBalances {
    if migrate_rejection(platform, presale, admin, treasury, lp_sol_amount, b) is Some {
        b
    } else {
        migrated_balances(presale, lp_sol_amount, b)
    }
}

/// The event of a migration that ran.
pub open spec fn migration_event(
    presale: Presale,
    presale_key: Address,
    lp_sol_amount: u64,
    b: MigrationBalances,
) -> MigrateAndCreateLpEvent {
    MigrateAndCreateLpEvent {
        presale: presale_key,
        lp_tokens: presale.lp_token_allocation,
        lp_sol: lp_sol_amount,
        ecosystem_tokens: presale.ecosystem_allocation,
        remaining_sol_to_treasury: (b.sol_vault - lp_sol_amount) as u64,
    }
}

/// The presale after a migration that ran.
pub open spec fn migrated(presale: Presale) -> Presale {
    Presale { is_migrated: true, ..presale }
}

/// Hands the finalized presale's custody over for the launch, once: moves the
/// pool's token allocation and `lp_sol_amount` lamports to the pool's staging
/// accounts, the ecosystem allocation to the ecosystem vault, and sweeps the
/// rest of the vault's lamports to the platform's treasury; then marks the
/// presale migrated. Admin only, and `treasury` must be the platform's.
/// `balances` are updated in place; the event lists the transfers made.
pub fn migrate_and_create_lp(
    platform: &PlatformConfig,
    presale: &mut Presale,
    presale_key: &Address,
    admin: &Address,
    treasury: &Address,
    lp_sol_amount: u64,
    balances: &mut MigrationBalances,
) -> (r: Result<MigrateAndCreateLpEvent, PresaleError>)
    ensures
        *final(balances) == migration_balances(
            *platform,
            *old(presale),
            *admin,
            *treasury,
            lp_sol_amount,
            *old(balances),
        ),
        migrate_rejection(*platform, *old(presale), *admin, *treasury, lp_sol_amount, *old(balances))
            matches Some(e) ==> r == Err::<MigrateAndCreateLpEvent, PresaleError>(e) && *final(presale)
            == *old(presale),
        migrate_rejection(*platform, *old(presale), *admin, *treasury, lp_sol_amount, *old(balances))
            is None ==> {
            &&& r == Ok::<MigrateAndCreateLpEvent, PresaleError>(
                migration_event(*old(presale), *presale_key, lp_sol_amount, *old(balances)),
            )
            &&& *final(presale) == migrated(*old(presale))
        },
        final(balances).sol_vault + final(balances).lp_sol_account + final(balances).treasury == old(
            balances,
        ).sol_vault + old(balances).lp_sol_account + old(balances).treasury,
        final(balances).token_vault + final(balances).lp_token_account
            + final(balances).ecosystem_vault == old(balances).token_vault + old(
            balances,
        ).lp_token_account + old(balances).ecosystem_vault,
        lifecycle_step(*old(presale), *final(presale)),
        old(presale).wf() ==> final(presale).wf(),
{
    assert_admin(platform, admin)?;
    if !treasury.same_as(&platform.treasury) {
        return Err(PresaleError::Unauthorized);
    }
    if !presale.is_finalized {
        return Err(PresaleError::PresaleNotFinalized);
    }
    if presale.is_migrated {
        return Err(PresaleError::PresaleAlreadyMigrated);
    }
    let lp_tokens = presale.lp_token_allocation;
    let eco_tokens = presale.ecosystem_allocation;
    if balances.token_vault < lp_tokens {
        return Err(PresaleError::InsufficientFunds);
    }
    let lp_token_account = match balances.lp_token_account.checked_add(lp_tokens) {
        Some(v) => v,
        None => return Err(PresaleError::InsufficientFunds),
    };
    if balances.sol_vault < lp_sol_amount {
        return Err(PresaleError::InsufficientFunds);
    }
    let lp_sol_account = match balances.lp_sol_account.checked_add(lp_sol_amount) {
        Some(v) => v,
        None => return Err(PresaleError::InsufficientFunds),
    };
    let tokens_left = balances.token_vault - lp_tokens;
    if tokens_left < eco_tokens {
        return Err(PresaleError::InsufficientFunds);
    }
    let ecosystem_vault = match balances.ecosystem_vault.checked_add(eco_tokens) {
        Some(v) => v,
        None => return Err(PresaleError::InsufficientFunds),
    };
    let remaining_sol = balances.sol_vault - lp_sol_amount;
    let treasury_after = match balances.treasury.checked_add(remaining_sol) {
        Some(v) => v,
        None => return Err(PresaleError::InsufficientFunds),
    };
    *balances = MigrationBalances {
        sol_vault: 0,
        lp_sol_account,
        treasury: treasury_after,
        token_vault: tokens_left - eco_tokens,
        lp_token_account,
        ecosystem_vault,
    };
    presale.is_migrated = true;
    Ok(
        MigrateAndCreateLpEvent {
            presale: *presale_key,
            lp_tokens,
            lp_sol: lp_sol_amount,
            ecosystem_tokens: eco_tokens,
            remaining_sol_to_treasury: remaining_sol,
        },
    )
}

/// Whether tokens can be claimed: the vaults were initialized for the
/// launch, which puts the presale in the launched phase.
pub open spec fn claims_open(presale: Presale) -> bool {
    presale.phase == Phase::Launched
}

/// Why `claim_tokens` is refused; `None` when the claim is paid.
pub open spec fn claim_rejection(
    presale: Presale,
    position: UserPosition,
    user: Address,
    token_vault: u64,
    user_tokens: u64,
) -> Option<PresaleError> {
    let claimable = position.tokens_allocated - position.tokens_claimed;
    if !claims_open(presale) {
        Some(PresaleError::PresaleNotMigrated)
    } else if position.user@ != user@ {
        Some(PresaleError::Unauthorized)
    } else if claimable <= 0 {
        Some(PresaleError::NothingToClaim)
    } else if token_vault < claimable || user_tokens + claimable > u64::MAX {
        Some(PresaleError::InsufficientFunds)
    } else {
        None
    }
}

/// The token vault's and the contributor's token balances after a claim
/// call: moved by the claimable amount when it is paid, as they were when it
/// is refused.
pub open spec fn claim_balances(
    presale: Presale,
    position: UserPosition,
    user: Address,
    token_vault: u64,
    user_tokens: u64,
) -> (u64, u64) {
    let claimable = position.tokens_allocated - position.tokens_claimed;
    if claim_rejection(presale, position, user, token_vault, user_tokens) is Some {
        (token_vault, user_tokens)
    } else {
        ((token_vault - claimable) as u64, (user_tokens + claimable) as u64)
    }
}

/// The position after a claim was paid: all of its allocation claimed.
pub open spec fn claimed_position(position: UserPosition) -> UserPosition {
    UserPosition { tokens_claimed: position.tokens_allocated, ..position }
}

/// Pays the position's owner every allocated token not claimed yet
/// (`tokens_allocated - tokens_claimed`) from the token vault, and records
/// them as claimed. Open once the vaults are initialized (phase launched);
/// refused when nothing is left to claim. `token_vault` and `user_tokens` are
/// the two token balances, updated in place.
pub fn claim_tokens(
    presale: &Presale,
    position: &mut UserPosition,
    presale_key: &Address,
    user: &Address,
    token_vault: &mut u64,
    user_tokens: &mut u64,
) -> (r: Result<ClaimTokensEvent, PresaleError>)
    ensures
        (*final(token_vault), *final(user_tokens)) == claim_balances(
            *presale,
            *old(position),
            *user,
            *old(token_vault),
            *old(user_tokens),
        ),
        claim_rejection(*presale, *old(position), *user, *old(token_vault), *old(user_tokens))
            matches Some(e) ==> r == Err::<ClaimTokensEvent, PresaleError>(e) && *final(position)
            == *old(position),
        claim_rejection(*presale, *old(position), *user, *old(token_vault), *old(user_tokens))
            is None ==> {
            &&& r == Ok::<ClaimTokensEvent, PresaleError>(
                ClaimTokensEvent {
                    user: *user,
                    presale: *presale_key,
                    tokens_claimed: (old(position).tokens_allocated
                        - old(position).tokens_claimed) as u64,
                },
            )
            &&& *final(position) == claimed_position(*old(position))
        },
        final(position).tokens_claimed <= final(position).tokens_allocated || *final(position)
            == *old(position),
        old(position).wf() ==> final(position).wf(),
{
    if presale.phase != Phase::Launched {
        return Err(PresaleError::PresaleNotMigrated);
    }
    if !position.user.same_as(user) {
        return Err(PresaleError::Unauthorized);
    }
    let claimable = match position.tokens_allocated.checked_sub(position.tokens_claimed) {
        Some(c) => c,
        None => return Err(PresaleError::NothingToClaim),
    };
    if claimable == 0 {
        return Err(PresaleError::NothingToClaim);
    }
    if *token_vault < claimable {
        return Err(PresaleError::InsufficientFunds);
    }
    let user_after = match user_tokens.checked_add(claimable) {
        Some(v) => v,
        None => return Err(PresaleError::InsufficientFunds),
    };
    *token_vault = *token_vault - claimable;
    *user_tokens = user_after;
    position.tokens_claimed = position.tokens_allocated;
    Ok(ClaimTokensEvent { user: *user, presale: *presale_key, tokens_claimed: claimable })
}

} // verus!
