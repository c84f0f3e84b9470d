use vstd::prelude::*;
use crate::address::Address;
use crate::auth::is_admin;
use crate::contribute::{contribute_rejection, contributed};
use crate::error::PresaleError;
use crate::settlement::{
    claim_balances, claim_rejection, claimed_position, migrate_rejection, migrated, migration_balances,
    MigrationBalances,
};
use crate::state::{PlatformConfig, Presale, UserPosition, WhitelistEntry};
use crate::vote::{refund_balances, refund_rejection, refunded_position};

verus! {

/// One call of `contribute_public`: the position it is made against, its
/// caller, the whitelist entry supplied with it, and the amount offered.
#[derive(Clone, Copy, Debug)]
pub struct ContributionAttempt {
    pub position: UserPosition,
    pub user: Address,
    pub whitelist: Option<WhitelistEntry>,
    pub amount: u64,
}

/// Whether `attempt` is accepted when it meets the presale in state `presale`.
pub open spec fn accepted(presale: Presale, attempt: ContributionAttempt) -> bool {
    contribute_rejection(presale, attempt.position, attempt.user, attempt.whitelist, attempt.amount) is None
}

/// The presale after the attempts, made one after the other: an accepted one
/// leaves what `contribute_public` leaves, a refused one changes nothing.
pub open spec fn presale_after_attempts(presale: Presale, attempts: Seq<ContributionAttempt>) -> Presale
    decreases attempts.len(),
{
    if attempts.len() == 0 {
        presale
    } else {
        let before = presale_after_attempts(presale, attempts.drop_last());
        if accepted(before, attempts.last()) {
            contributed(before, attempts.last().amount)
        } else {
            before
        }
    }
}

/// The sum of the amounts of the attempts that were accepted.
pub open spec fn accepted_total(presale: Presale, attempts: Seq<ContributionAttempt>) -> int
    decreases attempts.len(),
{
    if attempts.len() == 0 {
        0
    } else {
        let before = presale_after_attempts(presale, attempts.drop_last());
        accepted_total(presale, attempts.drop_last()) + if accepted(before, attempts.last()) {
            attempts.last().amount as int
        } else {
            0
        }
    }
}

/// Over any sequence of contributions to a well-formed presale, the raised
/// total grows by exactly the sum of the accepted amounts, and never exceeds
/// the hard cap.
pub proof fn lemma_raised_total_is_sum_of_accepted(
    presale: Presale,
    attempts: Seq<ContributionAttempt>,
)
    requires
        presale.wf(),
    ensures
        presale_after_attempts(presale, attempts).public_raised_lamports
            == presale.public_raised_lamports + accepted_total(presale, attempts),
        presale_after_attempts(presale, attempts).public_raised_lamports
            <= presale.hard_cap_lamports,
        presale_after_attempts(presale, attempts).hard_cap_lamports == presale.hard_cap_lamports,
        presale_after_attempts(presale, attempts).wf(),
    decreases attempts.len(),
{
    if attempts.len() > 0 {
        lemma_raised_total_is_sum_of_accepted(presale, attempts.drop_last());
    }
}

/// A migration runs at most once: after one has run, every further call is
/// refused, with `PresaleAlreadyMigrated` when an admin makes it with the
/// platform's treasury, and leaves every vault and account balance as it was.
pub proof fn lemma_migration_runs_once(
    platform: PlatformConfig,
    presale: Presale,
    admin: Address,
    treasury: Address,
    lp_sol_amount: u64,
    balances: MigrationBalances,
    next_admin: Address,
    next_treasury: Address,
    next_lp_sol_amount: u64,
    next_balances: MigrationBalances,
)
    requires
        migrate_rejection(platform, presale, admin, treasury, lp_sol_amount, balances) is None,
    ensures
        migrate_rejection(
            platform,
            migrated(presale),
            next_admin,
            next_treasury,
            next_lp_sol_amount,
            next_balances,
        ) is Some,
        is_admin(platform, next_admin) && next_treasury@ == platform.treasury@ ==> migrate_rejection(
            platform,
            migrated(presale),
            next_admin,
            next_treasury,
            next_lp_sol_amount,
            next_balances,
        ) == Some(PresaleError::PresaleAlreadyMigrated),
        migration_balances(
            platform,
            migrated(presale),
            next_admin,
            next_treasury,
            next_lp_sol_amount,
            next_balances,
        ) == next_balances,
{
}

/// A refund is paid at most once per position: after it was paid, a second
/// call for the same position by its owner is refused with `NothingToClaim`
/// and leaves the vault's and the contributor's balances as they were.
pub proof fn lemma_refund_paid_once(
    presale: Presale,
    position: UserPosition,
    user: Address,
    vault_lamports: u64,
    user_lamports: u64,
    next_vault_lamports: u64,
    next_user_lamports: u64,
)
    requires
        refund_rejection(presale, position, user, vault_lamports, user_lamports) is None,
    ensures
        refund_rejection(
            presale,
            refunded_position(position),
            user,
            next_vault_lamports,
            next_user_lamports,
        ) == Some(PresaleError::NothingToClaim),
        refund_balances(
            presale,
            refunded_position(position),
            user,
            next_vault_lamports,
            next_user_lamports,
        ) == (next_vault_lamports, next_user_lamports),
{
}

/// Allocated tokens are paid at most once: after a claim was paid, the
/// position has claimed exactly its allocation, and a second claim by its
/// owner is refused with `NothingToClaim` and moves no tokens.
pub proof fn lemma_claim_paid_once(
    presale: Presale,
    position: UserPosition,
    user: Address,
    token_vault: u64,
    user_tokens: u64,
    next_token_vault: u64,
    next_user_tokens: u64,
)
    requires
        claim_rejection(presale, position, user, token_vault, user_tokens) is None,
    ensures
        claimed_position(position).wf(),
        claim_rejection(
            presale,
            claimed_position(position),
            user,
            next_token_vault,
            next_user_tokens,
        ) == Some(PresaleError::NothingToClaim),
        claim_balances(
            presale,
            claimed_position(position),
            user,
            next_token_vault,
            next_user_tokens,
        ) == (next_token_vault, next_user_tokens),
{
}

} // verus!
