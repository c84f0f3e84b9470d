use vstd::prelude::*;
use crate::address::{is_zero_address, Address};
use crate::auth::{assert_admin, is_admin};
use crate::derivation::{derive_address, role_address, AccountRole};
use crate::error::PresaleError;
use crate::events::FinalizePresaleEvent;
use crate::state::{
    lifecycle_step, Outcome, Phase, PlatformConfig, Presale, WhitelistEntry, ECOSYSTEM_ALLOCATION,
    LP_TOKEN_ALLOCATION, PUBLIC_TOKEN_CAP,
};

verus! {

/// Sets up the platform: `owner` (the signer) and `operator` are its admins,
/// `treasury` receives what a migration sweeps.
pub fn initialize_platform(
    owner: &Address,
    operator: &Address,
    treasury: &Address,
    fee_bps: u16,
    bump: u8,
) -> (r: PlatformConfig)
    ensures
        r == (PlatformConfig {
            owner: *owner,
            operator: *operator,
            treasury: *treasury,
            fee_bps,
            bump,
        }),
{
    PlatformConfig { owner: *owner, operator: *operator, treasury: *treasury, fee_bps, bump }
}

/// `p` is the record of a newly created presale: public sale open, nothing
/// raised, no vote, the fixed token allocations, the token generation time
/// at the end of the public sale, and no ecosystem vault recorded yet.
pub open spec fn is_fresh_presale(
    p: Presale,
    platform_key: Address,
    mint: Address,
    authority: Address,
    public_start_ts: i64,
    public_end_ts: i64,
    price: u64,
    hard_cap: u64,
    lp_authority: Address,
    bump: u8,
) -> bool {
    &&& p == Presale {
        platform: platform_key,
        authority,
        mint,
        public_start_ts,
        public_end_ts,
        tge_ts: public_end_ts,
        public_token_cap: PUBLIC_TOKEN_CAP,
        lp_token_allocation: LP_TOKEN_ALLOCATION,
        ecosystem_allocation: ECOSYSTEM_ALLOCATION,
        public_price_lamports_per_token: price,
        hard_cap_lamports: hard_cap,
        public_raised_lamports: 0,
        vip_raised_lamports: 0,
        is_finalized: false,
        is_migrated: false,
        phase: Phase::PublicActive,
        vote_yes_weight: 0,
        vote_no_weight: 0,
        voting_ends_ts: 0,
        refund_enabled: false,
        launch_deadline_ts: 0,
        outcome: Outcome::Undecided,
        ecosystem_vault: p.ecosystem_vault,
        lp_authority,
        bump,
    }
    &&& is_zero_address(p.ecosystem_vault)
}

/// Builds the record of a new presale whose pool authority is `lp_authority`.
pub fn new_presale(
    platform_key: &Address,
    mint: &Address,
    authority: &Address,
    public_start_ts: i64,
    public_end_ts: i64,
    public_price_lamports_per_token: u64,
    hard_cap_lamports: u64,
    lp_authority: &Address,
    bump: u8,
) -> (r: Presale)
    ensures
        is_fresh_presale(
            r,
            *platform_key,
            *mint,
            *authority,
            public_start_ts,
            public_end_ts,
            public_price_lamports_per_token,
            hard_cap_lamports,
            *lp_authority,
            bump,
        ),
        r.wf(),
{
    Presale {
        platform: *platform_key,
        authority: *authority,
        mint: *mint,
        public_start_ts,
        public_end_ts,
        tge_ts: public_end_ts,
        public_token_cap: PUBLIC_TOKEN_CAP,
        lp_token_allocation: LP_TOKEN_ALLOCATION,
        ecosystem_allocation: ECOSYSTEM_ALLOCATION,
        public_price_lamports_per_token,
        hard_cap_lamports,
        public_raised_lamports: 0,
        vip_raised_lamports: 0,
        is_finalized: false,
        is_migrated: false,
        phase: Phase::PublicActive,
        vote_yes_weight: 0,
        vote_no_weight: 0,
        voting_ends_ts: 0,
        refund_enabled: false,
        launch_deadline_ts: 0,
        outcome: Outcome::Undecided,
        ecosystem_vault: Address::zero(),
        lp_authority: *lp_authority,
        bump,
    }
}

/// Creates the presale stored at `presale_key`, admin only. Its pool
/// authority is the address derived for the `lp_authority` role of the
/// presale under `program_id`; where none can be derived the creation is
/// refused with `InvalidAccountAddress`.
pub fn create_presale(
    platform: &PlatformConfig,
    platform_key: &Address,
    admin: &Address,
    presale_key: &Address,
    program_id: &Address,
    mint: &Address,
    authority: &Address,
    public_start_ts: i64,
    public_end_ts: i64,
    public_price_lamports_per_token: u64,
    hard_cap_lamports: u64,
    bump: u8,
) -> (r: Result<Presale, PresaleError>)
    ensures
        !is_admin(*platform, *admin) ==> r == Err::<Presale, PresaleError>(
            PresaleError::Unauthorized,
        ),
        is_admin(*platform, *admin) && role_address(
            AccountRole::LpAuthority { presale: *presale_key },
            *program_id,
        ) is None ==> r == Err::<Presale, PresaleError>(PresaleError::InvalidAccountAddress),
        is_admin(*platform, *admin) && role_address(
            AccountRole::LpAuthority { presale: *presale_key },
            *program_id,
        ) is Some ==> r is Ok,
        r matches Ok(p) ==> {
            &&& is_admin(*platform, *admin)
            &&& role_address(AccountRole::LpAuthority { presale: *presale_key }, *program_id)
                matches Some((a, _)) && a == p.lp_authority@
            &&& is_fresh_presale(
                p,
                *platform_key,
                *mint,
                *authority,
                public_start_ts,
                public_end_ts,
                public_price_lamports_per_token,
                hard_cap_lamports,
                p.lp_authority,
                bump,
            )
            &&& p.wf()
        },
{
    assert_admin(platform, admin)?;
    let role = AccountRole::LpAuthority { presale: *presale_key };
    let lp_authority = match derive_address(&role, program_id) {
        Some((a, _)) => a,
        None => return Err(PresaleError::InvalidAccountAddress),
    };
    Ok(
        new_presale(
            platform_key,
            mint,
            authority,
            public_start_ts,
            public_end_ts,
            public_price_lamports_per_token,
            hard_cap_lamports,
            &lp_authority,
            bump,
        ),
    )
}

/// Authorizes funding the presale's token vault with `amount` tokens: admin
/// only. Hands back the amount that the caller then transfers.
pub fn fund_presale_tokens(platform: &PlatformConfig, authority: &Address, amount: u64) -> (r: Result<
    u64,
    PresaleError,
>)
    ensures
        is_admin(*platform, *authority) ==> r == Ok::<u64, PresaleError>(amount),
        !is_admin(*platform, *authority) ==> r == Err::<u64, PresaleError>(
            PresaleError::Unauthorized,
        ),
{
    assert_admin(platform, authority)?;
    Ok(amount)
}

/// Creates or replaces the whitelist entry of `user` in the presale at
/// `presale_key`, admin only.
pub fn whitelist_user(
    platform: &PlatformConfig,
    admin: &Address,
    presale_key: &Address,
    user: &Address,
    tier: u8,
    max_contribution_lamports: u64,
    bump: u8,
) -> (r: Result<WhitelistEntry, PresaleError>)
    ensures
        is_admin(*platform, *admin) ==> r == Ok::<WhitelistEntry, PresaleError>(
            WhitelistEntry {
                presale: *presale_key,
                user: *user,
                tier,
                max_contribution_lamports,
                bump,
            },
        ),
        !is_admin(*platform, *admin) ==> r == Err::<WhitelistEntry, PresaleError>(
            PresaleError::Unauthorized,
        ),
{
    assert_admin(platform, admin)?;
    Ok(WhitelistEntry { presale: *presale_key, user: *user, tier, max_contribution_lamports, bump })
}

/// Why `finalize_presale` is refused; `None` when it runs.
pub open spec fn finalize_rejection(
    platform: PlatformConfig,
    presale: Presale,
    admin: Address,
) -> Option<PresaleError> {
    if !is_admin(platform, admin) {
        Some(PresaleError::Unauthorized)
    } else if presale.is_finalized {
        Some(PresaleError::PresaleAlreadyFinalized)
    } else {
        None
    }
}

/// Closes the public sale, once: no contribution is accepted afterwards.
/// Admin only.
pub fn finalize_presale(
    platform: &PlatformConfig,
    presale: &mut Presale,
    presale_key: &Address,
    admin: &Address,
) -> (r: Result<FinalizePresaleEvent, PresaleError>)
    ensures
        finalize_rejection(*platform, *old(presale), *admin) matches Some(e) ==> r == Err::<
            FinalizePresaleEvent,
            PresaleError,
        >(e) && *final(presale) == *old(presale),
        finalize_rejection(*platform, *old(presale), *admin) is None ==> {
            &&& r == Ok::<FinalizePresaleEvent, PresaleError>(
                FinalizePresaleEvent {
                    presale: *presale_key,
                    total_raised: old(presale).public_raised_lamports,
                },
            )
            &&& *final(presale) == (Presale { is_finalized: true, ..*old(presale) })
        },
        lifecycle_step(*old(presale), *final(presale)),
        old(presale).wf() ==> final(presale).wf(),
{
    assert_admin(platform, admin)?;
    if presale.is_finalized {
        return Err(PresaleError::PresaleAlreadyFinalized);
    }
    presale.is_finalized = true;
    Ok(FinalizePresaleEvent { presale: *presale_key, total_raised: presale.public_raised_lamports })
}

/// Why `initialize_vaults` is refused; `None` when it runs.
pub open spec fn vaults_rejection(
    platform: PlatformConfig,
    presale: Presale,
    admin: Address,
) -> Option<PresaleError> {
    if !is_admin(platform, admin) {
        Some(PresaleError::Unauthorized)
    } else if presale.phase != Phase::Launchable && presale.phase != Phase::Launched {
        Some(PresaleError::PresaleNotFinalized)
    } else {
        None
    }
}

/// Records the ecosystem vault of a presale whose vote passed and marks the
/// presale launched, which opens token claims. Admin only.
pub fn initialize_vaults(
    platform: &PlatformConfig,
    presale: &mut Presale,
    admin: &Address,
    ecosystem_vault: &Address,
) -> (r: Result<(), PresaleError>)
    ensures
        vaults_rejection(*platform, *old(presale), *admin) matches Some(e) ==> r == Err::<
            (),
            PresaleError,
        >(e) && *final(presale) == *old(presale),
        vaults_rejection(*platform, *old(presale), *admin) is None ==> r is Ok && *final(presale)
            == (Presale {
            ecosystem_vault: *ecosystem_vault,
            phase: Phase::Launched,
            ..*old(presale)
        }),
        lifecycle_step(*old(presale), *final(presale)),
        old(presale).wf() ==> final(presale).wf(),
{
    assert_admin(platform, admin)?;
    if presale.phase != Phase::Launchable && presale.phase != Phase::Launched {
        return Err(PresaleError::PresaleNotFinalized);
    }
    presale.ecosystem_vault = *ecosystem_vault;
    presale.phase = Phase::Launched;
    Ok(())
}

} // verus!
