use vstd::prelude::*;
use crate::address::{is_zero_address, Address};
use crate::error::PresaleError;
use crate::events::ContributePublicEvent;
use crate::state::{lifecycle_step, Presale, UserPosition, WhitelistEntry, TOKEN_PRECISION};

verus! {

/// Tokens that `amount` lamports buy at `price` lamports per whole token,
/// rounded down; `None` where the scaled amount overflows or the price is zero.
pub open spec fn allocation_for(amount: u64, price: u64) -> Option<u64> {
    if price == 0 || amount * TOKEN_PRECISION > u64::MAX {
        None
    } else {
        Some(((amount * TOKEN_PRECISION) / (price as int)) as u64)
    }
}

/// Computes `amount * TOKEN_PRECISION / price` with checked multiplication
/// and division.
pub fn token_allocation(amount: u64, price: u64) -> (r: Option<u64>)
    ensures
        r == allocation_for(amount, price),
{
    match amount.checked_mul(TOKEN_PRECISION) {
        Some(scaled) => {
            if price == 0 {
                None
            } else {
                Some(scaled / price)
            }
        },
        None => None,
    }
}

/// Why a contribution of `amount` is refused, guards taken in order; `None`
/// when it is accepted.
pub open spec fn contribute_rejection(
    presale: Presale,
    position: UserPosition,
    user: Address,
    whitelist: Option<WhitelistEntry>,
    amount: u64,
) -> Option<PresaleError> {
    let tokens = allocation_for(amount, presale.public_price_lamports_per_token);
    if presale.is_finalized {
        Some(PresaleError::PresaleAlreadyFinalized)
    } else if presale.public_raised_lamports + amount > presale.hard_cap_lamports {
        Some(PresaleError::HardCapExceeded)
    } else if !is_zero_address(position.user) && position.user@ != user@ {
        Some(PresaleError::Unauthorized)
    } else if position.refunded {
        Some(PresaleError::PresaleNotActive)
    } else if whitelist matches Some(w) && w.tier < 1 {
        Some(PresaleError::NotWhitelisted)
    } else if whitelist matches Some(w) && w.max_contribution_lamports != 0 && amount
        > w.max_contribution_lamports {
        Some(PresaleError::ContributionTooLarge)
    } else if tokens is None {
        Some(PresaleError::TokenCapExceeded)
    } else if position.tokens_allocated + tokens->Some_0 > presale.public_token_cap {
        Some(PresaleError::TokenCapExceeded)
    } else if position.public_contribution_lamports + amount > u64::MAX {
        Some(PresaleError::HardCapExceeded)
    } else {
        None
    }
}

/// The presale after an accepted contribution of `amount`.
pub open spec fn contributed(presale: Presale, amount: u64) -> Presale {
    Presale { public_raised_lamports: (presale.public_raised_lamports + amount) as u64, ..presale }
}

/// The contributor's position after an accepted contribution of `amount`.
pub open spec fn contributed_position(
    presale: Presale,
    position: UserPosition,
    presale_key: Address,
    user: Address,
    amount: u64,
) -> UserPosition {
    let tokens = allocation_for(amount, presale.public_price_lamports_per_token)->Some_0;
    UserPosition {
        presale: presale_key,
        user,
        public_contribution_lamports: (position.public_contribution_lamports + amount) as u64,
        tokens_allocated: (position.tokens_allocated + tokens) as u64,
        refunded: false,
        ..position
    }
}

/// The event of an accepted contribution.
pub open spec fn contribution_event(
    presale: Presale,
    presale_key: Address,
    user: Address,
    amount: u64,
) -> ContributePublicEvent {
    ContributePublicEvent {
        user,
        presale: presale_key,
        amount_lamports: amount,
        tokens_allocated: allocation_for(amount, presale.public_price_lamports_per_token)->Some_0,
        total_raised: (presale.public_raised_lamports + amount) as u64,
    }
}

/// Records a contribution of `amount_lamports` by `user` against their
/// position (blank, with an all-zero owner, before a first contribution):
/// raises the presale's total and the position's contribution by the amount,
/// and its allocation by `amount * TOKEN_PRECISION / price` tokens. Refused,
/// with nothing changed, once the presale is finalized, over the hard cap,
/// for a position owned by someone else, for a position that was refunded
/// (its contribution stays as it was refunded), for a whitelist entry of tier
/// zero or with a smaller cap, or past the public token cap. The caller moves
/// the lamports into the presale's vault when this succeeds.
pub fn contribute_public(
    presale: &mut Presale,
    position: &mut UserPosition,
    presale_key: &Address,
    user: &Address,
    whitelist: Option<WhitelistEntry>,
    amount_lamports: u64,
) -> (r: Result<ContributePublicEvent, PresaleError>)
    ensures
        contribute_rejection(*old(presale), *old(position), *user, whitelist, amount_lamports) matches Some(e)
            ==> r == Err::<ContributePublicEvent, PresaleError>(e) && *final(presale) == *old(presale)
            && *final(position) == *old(position),
        contribute_rejection(*old(presale), *old(position), *user, whitelist, amount_lamports) is None ==> {
            &&& r == Ok::<ContributePublicEvent, PresaleError>(
                contribution_event(*old(presale), *presale_key, *user, amount_lamports),
            )
            &&& *final(presale) == contributed(*old(presale), amount_lamports)
            &&& *final(position) == contributed_position(
                *old(presale),
                *old(position),
                *presale_key,
                *user,
                amount_lamports,
            )
        },
        !old(presale).is_finalized && old(presale).public_raised_lamports + amount_lamports > old(
            presale,
        ).hard_cap_lamports ==> r == Err::<ContributePublicEvent, PresaleError>(
            PresaleError::HardCapExceeded,
        ) && *final(presale) == *old(presale) && *final(position) == *old(position),
        final(presale).public_raised_lamports <= final(presale).hard_cap_lamports
            || *final(presale) == *old(presale),
        lifecycle_step(*old(presale), *final(presale)),
        old(presale).wf() ==> final(presale).wf(),
        old(position).refunded ==> *final(position) == *old(position),
        old(position).wf() ==> final(position).wf(),
{
    if presale.is_finalized {
        return Err(PresaleError::PresaleAlreadyFinalized);
    }
    let raised = match presale.public_raised_lamports.checked_add(amount_lamports) {
        Some(v) => v,
        None => return Err(PresaleError::HardCapExceeded),
    };
    if raised > presale.hard_cap_lamports {
        return Err(PresaleError::HardCapExceeded);
    }
    if !position.user.is_zero() && !position.user.same_as(user) {
        return Err(PresaleError::Unauthorized);
    }
    if position.refunded {
        return Err(PresaleError::PresaleNotActive);
    }
    match whitelist {
        Some(w) => {
            if w.tier < 1 {
                return Err(PresaleError::NotWhitelisted);
            }
            if w.max_contribution_lamports != 0 && amount_lamports > w.max_contribution_lamports {
                return Err(PresaleError::ContributionTooLarge);
            }
        },
        None => {},
    }
    let tokens = match token_allocation(amount_lamports, presale.public_price_lamports_per_token) {
        Some(t) => t,
        None => return Err(PresaleError::TokenCapExceeded),
    };
    let new_total_tokens = match position.tokens_allocated.checked_add(tokens) {
        Some(t) => t,
        None => return Err(PresaleError::TokenCapExceeded),
    };
    if new_total_tokens > presale.public_token_cap {
        return Err(PresaleError::TokenCapExceeded);
    }
    let contribution = match position.public_contribution_lamports.checked_add(amount_lamports) {
        Some(c) => c,
        None => return Err(PresaleError::HardCapExceeded),
    };
    presale.public_raised_lamports = raised;
    position.presale = *presale_key;
    position.user = *user;
    position.public_contribution_lamports = contribution;
    position.tokens_allocated = new_total_tokens;
    position.refunded = false;
    Ok(
        ContributePublicEvent {
            user: *user,
            presale: *presale_key,
            amount_lamports,
            tokens_allocated: tokens,
            total_raised: raised,
        },
    )
}

} // verus!
