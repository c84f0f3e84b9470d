use vstd::prelude::*;
use crate::address::Address;
use crate::auth::{assert_admin, is_admin};
use crate::error::PresaleError;
use crate::state::{
    lifecycle_step, Outcome, Phase, PlatformConfig, Presale, UserPosition, LAUNCH_GRACE_SECONDS,
};

verus! {

/// Why `start_vote` is refused; `None` when it is accepted.
pub open spec fn start_vote_rejection(
    platform: PlatformConfig,
    presale: Presale,
    admin: Address,
    now: i64,
    voting_ends_ts: i64,
) -> Option<PresaleError> {
    if !is_admin(platform, admin) {
        Some(PresaleError::Unauthorized)
    } else if voting_ends_ts <= now {
        Some(PresaleError::PresaleNotActive)
    } else if presale.phase != Phase::PublicActive {
        Some(PresaleError::PresaleNotActive)
    } else {
        None
    }
}

/// The presale once a vote ending at `voting_ends_ts` has started.
pub open spec fn vote_started(presale: Presale, voting_ends_ts: i64) -> Presale {
    Presale {
        phase: Phase::Voting,
        vote_yes_weight: 0,
        vote_no_weight: 0,
        voting_ends_ts,
        outcome: Outcome::Undecided,
        ..presale
    }
}

/// Opens the vote, which ends at `voting_ends_ts`, with both tallies at zero
/// and the outcome undecided. Admin only, from the public sale phase alone,
/// and the end must lie after `now`. There is one voting round per presale:
/// a vote already open cannot be restarted, so no cast vote is ever erased,
/// and each position votes at most once.
pub fn start_vote(
    platform: &PlatformConfig,
    presale: &mut Presale,
    admin: &Address,
    now: i64,
    voting_ends_ts: i64,
) -> (r: Result<(), PresaleError>)
    ensures
        start_vote_rejection(*platform, *old(presale), *admin, now, voting_ends_ts) matches Some(e)
            ==> r == Err::<(), PresaleError>(e) && *final(presale) == *old(presale),
        start_vote_rejection(*platform, *old(presale), *admin, now, voting_ends_ts) is None ==> r
            is Ok && *final(presale) == vote_started(*old(presale), voting_ends_ts),
        lifecycle_step(*old(presale), *final(presale)),
        old(presale).wf() ==> final(presale).wf(),
{
    assert_admin(platform, admin)?;
    if voting_ends_ts <= now {
        return Err(PresaleError::PresaleNotActive);
    }
    if presale.phase != Phase::PublicActive {
        return Err(PresaleError::PresaleNotActive);
    }
    presale.phase = Phase::Voting;
    presale.vote_yes_weight = 0;
    presale.vote_no_weight = 0;
    presale.voting_ends_ts = voting_ends_ts;
    presale.outcome = Outcome::Undecided;
    Ok(())
}

/// Why `cast_vote` is refused; `None` when the vote counts.
pub open spec fn cast_vote_rejection(
    presale: Presale,
    position: UserPosition,
    voter: Address,
    now: i64,
    support_launch: bool,
) -> Option<PresaleError> {
    let weight = position.public_contribution_lamports;
    if presale.phase != Phase::Voting {
        Some(PresaleError::PresaleNotActive)
    } else if now > presale.voting_ends_ts {
        Some(PresaleError::PresaleNotActive)
    } else if position.user@ != voter@ {
        Some(PresaleError::Unauthorized)
    } else if position.has_voted {
        Some(PresaleError::Unauthorized)
    } else if weight == 0 {
        Some(PresaleError::NothingToClaim)
    } else if support_launch && presale.vote_yes_weight + weight > u64::MAX {
        Some(PresaleError::HardCapExceeded)
    } else if !support_launch && presale.vote_no_weight + weight > u64::MAX {
        Some(PresaleError::HardCapExceeded)
    } else {
        None
    }
}

/// The presale once a vote of `weight` for or against the launch is counted.
pub open spec fn vote_counted(presale: Presale, weight: u64, support_launch: bool) -> Presale {
    if support_launch {
        Presale { vote_yes_weight: (presale.vote_yes_weight + weight) as u64, ..presale }
    } else {
        Presale { vote_no_weight: (presale.vote_no_weight + weight) as u64, ..presale }
    }
}

/// Counts the vote of the position's owner, weighted by its lifetime
/// contribution, while the vote is open (`now <= voting_ends_ts`), and marks
/// the position as having voted. Refused for another signer, a position that
/// already voted, or a position with no contribution.
pub fn cast_vote(
    presale: &mut Presale,
    position: &mut UserPosition,
    voter: &Address,
    now: i64,
    support_launch: bool,
) -> (r: Result<(), PresaleError>)
    ensures
        cast_vote_rejection(*old(presale), *old(position), *voter, now, support_launch) matches Some(
            e,
        ) ==> r == Err::<(), PresaleError>(e) && *final(presale) == *old(presale) && *final(position)
            == *old(position),
        cast_vote_rejection(*old(presale), *old(position), *voter, now, support_launch) is None ==> {
            &&& r is Ok
            &&& *final(presale) == vote_counted(
                *old(presale),
                old(position).public_contribution_lamports,
                support_launch,
            )
            &&& *final(position) == (UserPosition { has_voted: true, ..*old(position) })
        },
        lifecycle_step(*old(presale), *final(presale)),
        old(presale).wf() ==> final(presale).wf(),
        old(position).wf() ==> final(position).wf(),
{
    if presale.phase != Phase::Voting {
        return Err(PresaleError::PresaleNotActive);
    }
    if now > presale.voting_ends_ts {
        return Err(PresaleError::PresaleNotActive);
    }
    if !position.user.same_as(voter) {
        return Err(PresaleError::Unauthorized);
    }
    if position.has_voted {
        return Err(PresaleError::Unauthorized);
    }
    let weight = position.public_contribution_lamports;
    if weight == 0 {
        return Err(PresaleError::NothingToClaim);
    }
    if support_launch {
        presale.vote_yes_weight = match presale.vote_yes_weight.checked_add(weight) {
            Some(w) => w,
            None => return Err(PresaleError::HardCapExceeded),
        };
    } else {
        presale.vote_no_weight = match presale.vote_no_weight.checked_add(weight) {
            Some(w) => w,
            None => return Err(PresaleError::HardCapExceeded),
        };
    }
    position.has_voted = true;
    Ok(())
}

/// The launch deadline set when the vote passes at time `now`: the grace
/// window after the later of `now` and the token generation time.
pub open spec fn launch_deadline(now: i64, tge_ts: i64) -> int {
    (if now > tge_ts { now } else { tge_ts }) + LAUNCH_GRACE_SECONDS
}

/// Whether a vote with these tallies decides to launch: only a strict
/// majority for the launch does; a tie refunds.
pub open spec fn vote_passes(yes_weight: u64, no_weight: u64) -> bool {
    yes_weight > no_weight
}

/// Why `resolve_vote` is refused; `None` when it resolves.
pub open spec fn resolve_vote_rejection(presale: Presale, now: i64) -> Option<PresaleError> {
    if presale.phase != Phase::Voting {
        Some(PresaleError::PresaleNotActive)
    } else if now < presale.voting_ends_ts {
        Some(PresaleError::PresaleNotActive)
    } else if vote_passes(presale.vote_yes_weight, presale.vote_no_weight) && launch_deadline(
        now,
        presale.tge_ts,
    ) > i64::MAX {
        Some(PresaleError::PresaleNotActive)
    } else {
        None
    }
}

/// The presale once its vote is resolved at time `now`.
pub open spec fn vote_resolved(presale: Presale, now: i64) -> Presale {
    if vote_passes(presale.vote_yes_weight, presale.vote_no_weight) {
        Presale {
            outcome: Outcome::Launch,
            phase: Phase::Launchable,
            launch_deadline_ts: launch_deadline(now, presale.tge_ts) as i64,
            refund_enabled: false,
            ..presale
        }
    } else {
        Presale {
            outcome: Outcome::Refund,
            phase: Phase::Refundable,
            refund_enabled: true,
            ..presale
        }
    }
}

/// Resolves the vote once it has ended (`now >= voting_ends_ts`): a strict
/// majority for the launch makes the presale launchable, with a launch
/// deadline one grace window after the later of `now` and the token
/// generation time; anything else, a tie included, opens refunds.
pub fn resolve_vote(presale: &mut Presale, now: i64) -> (r: Result<(), PresaleError>)
    ensures
        resolve_vote_rejection(*old(presale), now) matches Some(e) ==> r == Err::<(), PresaleError>(e)
            && *final(presale) == *old(presale),
        resolve_vote_rejection(*old(presale), now) is None ==> r is Ok && *final(presale)
            == vote_resolved(*old(presale), now),
        r is Ok ==> (final(presale).phase == Phase::Launchable <==> old(presale).vote_yes_weight > old(
            presale,
        ).vote_no_weight),
        r is Ok ==> (final(presale).phase == Phase::Refundable <==> old(presale).vote_yes_weight <= old(
            presale,
        ).vote_no_weight),
        lifecycle_step(*old(presale), *final(presale)),
        old(presale).wf() ==> final(presale).wf(),
{
    if presale.phase != Phase::Voting {
        return Err(PresaleError::PresaleNotActive);
    }
    if now < presale.voting_ends_ts {
        return Err(PresaleError::PresaleNotActive);
    }
    if presale.vote_yes_weight > presale.vote_no_weight {
        let base_ts = if now > presale.tge_ts {
            now
        } else {
            presale.tge_ts
        };
        let deadline = match base_ts.checked_add(LAUNCH_GRACE_SECONDS) {
            Some(d) => d,
            None => return Err(PresaleError::PresaleNotActive),
        };
        presale.outcome = Outcome::Launch;
        presale.phase = Phase::Launchable;
        presale.launch_deadline_ts = deadline;
        presale.refund_enabled = false;
    } else {
        presale.outcome = Outcome::Refund;
        presale.phase = Phase::Refundable;
        presale.refund_enabled = true;
    }
    Ok(())
}

/// Why `enable_refunds_if_deadline_passed` is refused; `None` when it applies.
pub open spec fn deadline_refund_rejection(presale: Presale, now: i64) -> Option<PresaleError> {
    if presale.phase != Phase::Launchable {
        Some(PresaleError::PresaleNotActive)
    } else if now <= presale.launch_deadline_ts {
        Some(PresaleError::PresaleNotActive)
    } else {
        None
    }
}

/// The presale once a missed launch deadline has opened refunds.
pub open spec fn deadline_missed(presale: Presale) -> Presale {
    Presale {
        phase: Phase::Refundable,
        refund_enabled: true,
        outcome: Outcome::Refund,
        ..presale
    }
}

/// Opens refunds for a launchable presale whose launch deadline has passed
/// (`now > launch_deadline_ts`).
pub fn enable_refunds_if_deadline_passed(presale: &mut Presale, now: i64) -> (r: Result<
    (),
    PresaleError,
>)
    ensures
        deadline_refund_rejection(*old(presale), now) matches Some(e) ==> r == Err::<(), PresaleError>(
            e,
        ) && *final(presale) == *old(presale),
        deadline_refund_rejection(*old(presale), now) is None ==> r is Ok && *final(presale)
            == deadline_missed(*old(presale)),
        lifecycle_step(*old(presale), *final(presale)),
        old(presale).wf() ==> final(presale).wf(),
{
    if presale.phase != Phase::Launchable {
        return Err(PresaleError::PresaleNotActive);
    }
    if now <= presale.launch_deadline_ts {
        return Err(PresaleError::PresaleNotActive);
    }
    presale.phase = Phase::Refundable;
    presale.refund_enabled = true;
    presale.outcome = Outcome::Refund;
    Ok(())
}

/// Why `claim_refund` is refused; `None` when the refund is paid.
pub open spec fn refund_rejection(
    presale: Presale,
    position: UserPosition,
    user: Address,
    vault_lamports: u64,
    user_lamports: u64,
) -> Option<PresaleError> {
    let amount = position.public_contribution_lamports;
    if !presale.refund_enabled || presale.phase != Phase::Refundable {
        Some(PresaleError::PresaleNotMigrated)
    } else if position.user@ != user@ {
        Some(PresaleError::Unauthorized)
    } else if position.refunded {
        Some(PresaleError::NothingToClaim)
    } else if amount == 0 {
        Some(PresaleError::NothingToClaim)
    } else if vault_lamports < amount {
        Some(PresaleError::InsufficientFunds)
    } else if user_lamports + amount > u64::MAX {
        Some(PresaleError::InsufficientFunds)
    } else {
        None
    }
}

/// The vault's and the contributor's lamports after a refund call: moved by
/// the full contribution when it is paid, as they were when it is refused.
pub open spec fn refund_balances(
    presale: Presale,
    position: UserPosition,
    user: Address,
    vault_lamports: u64,
    user_lamports: u64,
) -> (u64, u64) {
    if refund_rejection(presale, position, user, vault_lamports, user_lamports) is Some {
        (vault_lamports, user_lamports)
    } else {
        let amount = position.public_contribution_lamports;
        ((vault_lamports - amount) as u64, (user_lamports + amount) as u64)
    }
}

/// The position after its refund was paid.
pub open spec fn refunded_position(position: UserPosition) -> UserPosition {
    UserPosition { refunded: true, ..position }
}

/// Pays back the position's whole contribution from the presale's vault to
/// its owner, once, while refunds are open; marks the position refunded.
/// `vault_lamports` and `user_lamports` are the two balances, updated in
/// place. Returns the amount refunded.
pub fn claim_refund(
    presale: &Presale,
    position: &mut UserPosition,
    user: &Address,
    vault_lamports: &mut u64,
    user_lamports: &mut u64,
) -> (r: Result<u64, PresaleError>)
    ensures
        (*final(vault_lamports), *final(user_lamports)) == refund_balances(
            *presale,
            *old(position),
            *user,
            *old(vault_lamports),
            *old(user_lamports),
        ),
        refund_rejection(*presale, *old(position), *user, *old(vault_lamports), *old(user_lamports))
            matches Some(e) ==> r == Err::<u64, PresaleError>(e) && *final(position) == *old(position),
        refund_rejection(*presale, *old(position), *user, *old(vault_lamports), *old(user_lamports))
            is None ==> r == Ok::<u64, PresaleError>(old(position).public_contribution_lamports)
            && *final(position) == refunded_position(*old(position)),
        old(position).wf() ==> final(position).wf(),
{
    if !presale.refund_enabled || presale.phase != Phase::Refundable {
        return Err(PresaleError::PresaleNotMigrated);
    }
    if !position.user.same_as(user) {
        return Err(PresaleError::Unauthorized);
    }
    if position.refunded {
        return Err(PresaleError::NothingToClaim);
    }
    let amount = position.public_contribution_lamports;
    if amount == 0 {
        return Err(PresaleError::NothingToClaim);
    }
    let vault_after = match vault_lamports.checked_sub(amount) {
        Some(v) => v,
        None => return Err(PresaleError::InsufficientFunds),
    };
    let user_after = match user_lamports.checked_add(amount) {
        Some(v) => v,
        None => return Err(PresaleError::InsufficientFunds),
    };
    *vault_lamports = vault_after;
    *user_lamports = user_after;
    position.refunded = true;
    Ok(amount)
}

} // verus!
