use onlypump_presale::address::Address;
use onlypump_presale::admin::{initialize_platform, new_presale};
use onlypump_presale::error::PresaleError;
use onlypump_presale::settlement::{claim_tokens, migrate_and_create_lp, MigrationBalances};
use onlypump_presale::state::{
    Phase, PlatformConfig, Presale, UserPosition, ECOSYSTEM_ALLOCATION, LP_TOKEN_ALLOCATION,
};
use onlypump_presale::vote::claim_refund;

fn key(b: u8) -> Address {
    Address::new([b; 32])
}

fn platform() -> PlatformConfig {
    initialize_platform(&key(1), &key(2), &key(3), 100, 255)
}

fn presale() -> Presale {
    new_presale(&key(1), &key(20), &key(21), 0, 500, 10, 1000, &key(4), 254)
}

fn funded() -> MigrationBalances {
    MigrationBalances {
        sol_vault: 1_000,
        lp_sol_account: 5,
        treasury: 7,
        token_vault: 800_000_000_000_000,
        lp_token_account: 0,
        ecosystem_vault: 0,
    }
}

#[test]
fn migration_moves_custody_and_sweeps_rest_to_treasury() {
    let mut p = presale();
    p.is_finalized = true;
    let mut b = funded();
    let ev = migrate_and_create_lp(&platform(), &mut p, &key(9), &key(1), &key(3), 600, &mut b).unwrap();
    assert!(p.is_migrated);
    assert_eq!(ev.lp_tokens, LP_TOKEN_ALLOCATION);
    assert_eq!(ev.ecosystem_tokens, ECOSYSTEM_ALLOCATION);
    assert_eq!(ev.lp_sol, 600);
    assert_eq!(ev.remaining_sol_to_treasury, 400);
    assert_eq!(ev.presale, key(9));
    assert_eq!(
        b,
        MigrationBalances {
            sol_vault: 0,
            lp_sol_account: 605,
            treasury: 407,
            token_vault: 400_000_000_000_000,
            lp_token_account: LP_TOKEN_ALLOCATION,
            ecosystem_vault: ECOSYSTEM_ALLOCATION,
        }
    );
}

#[test]
fn second_migration_is_rejected_and_moves_nothing() {
    let mut p = presale();
    p.is_finalized = true;
    let mut b = funded();
    migrate_and_create_lp(&platform(), &mut p, &key(9), &key(1), &key(3), 600, &mut b).unwrap();
    let after_first = b;
    let r = migrate_and_create_lp(&platform(), &mut p, &key(9), &key(2), &key(3), 0, &mut b);
    assert_eq!(r, Err(PresaleError::PresaleAlreadyMigrated));
    assert_eq!(b, after_first);
}

#[test]
fn migration_rejections() {
    let mut p = presale();
    let mut b = funded();
    let r = migrate_and_create_lp(&platform(), &mut p, &key(9), &key(1), &key(3), 0, &mut b);
    assert_eq!(r, Err(PresaleError::PresaleNotFinalized));
    p.is_finalized = true;
    let r = migrate_and_create_lp(&platform(), &mut p, &key(9), &key(8), &key(3), 0, &mut b);
    assert_eq!(r, Err(PresaleError::Unauthorized));
    let r = migrate_and_create_lp(&platform(), &mut p, &key(9), &key(1), &key(8), 0, &mut b);
    assert_eq!(r, Err(PresaleError::Unauthorized));
    let r = migrate_and_create_lp(&platform(), &mut p, &key(9), &key(1), &key(3), 1_001, &mut b);
    assert_eq!(r, Err(PresaleError::InsufficientFunds));
    let mut short = MigrationBalances { token_vault: LP_TOKEN_ALLOCATION, ..funded() };
    let r = migrate_and_create_lp(&platform(), &mut p, &key(9), &key(1), &key(3), 0, &mut short);
    assert_eq!(r, Err(PresaleError::InsufficientFunds));
    assert_eq!(short.token_vault, LP_TOKEN_ALLOCATION);
    assert_eq!(b, funded());
    assert!(!p.is_migrated);
}

fn refundable() -> Presale {
    let mut p = presale();
    p.phase = Phase::Refundable;
    p.refund_enabled = true;
    p
}

fn contributed(user: u8, amount: u64) -> UserPosition {
    let mut pos = UserPosition::new(key(9), key(user), 255);
    pos.public_contribution_lamports = amount;
    pos
}

#[test]
fn refund_pays_back_contribution_once() {
    let p = refundable();
    let mut pos = contributed(5, 300);
    let mut vault: u64 = 1_000;
    let mut wallet: u64 = 50;
    assert_eq!(claim_refund(&p, &mut pos, &key(5), &mut vault, &mut wallet), Ok(300));
    assert_eq!(vault, 700);
    assert_eq!(wallet, 350);
    assert!(pos.refunded);
    let r = claim_refund(&p, &mut pos, &key(5), &mut vault, &mut wallet);
    assert_eq!(r, Err(PresaleError::NothingToClaim));
    assert_eq!(vault, 700);
    assert_eq!(wallet, 350);
}

#[test]
fn refund_rejections() {
    let mut pos = contributed(5, 300);
    let mut vault: u64 = 1_000;
    let mut wallet: u64 = 0;
    let closed = presale();
    assert_eq!(claim_refund(&closed, &mut pos, &key(5), &mut vault, &mut wallet), Err(PresaleError::PresaleNotMigrated));
    let p = refundable();
    assert_eq!(claim_refund(&p, &mut pos, &key(6), &mut vault, &mut wallet), Err(PresaleError::Unauthorized));
    let mut empty = contributed(7, 0);
    assert_eq!(claim_refund(&p, &mut empty, &key(7), &mut vault, &mut wallet), Err(PresaleError::NothingToClaim));
    let mut poor: u64 = 299;
    assert_eq!(claim_refund(&p, &mut pos, &key(5), &mut poor, &mut wallet), Err(PresaleError::InsufficientFunds));
    let mut rich: u64 = u64::MAX;
    assert_eq!(claim_refund(&p, &mut pos, &key(5), &mut vault, &mut rich), Err(PresaleError::InsufficientFunds));
    assert_eq!((vault, wallet, poor, rich), (1_000, 0, 299, u64::MAX));
    assert!(!pos.refunded);
}

fn launched() -> Presale {
    let mut p = presale();
    p.phase = Phase::Launched;
    p
}

#[test]
fn claim_pays_remaining_allocation() {
    let p = launched();
    let mut pos = UserPosition::new(key(9), key(5), 255);
    pos.tokens_allocated = 10_000_000_000;
    pos.tokens_claimed = 4_000_000_000;
    let mut vault: u64 = 50_000_000_000;
    let mut wallet: u64 = 0;
    let ev = claim_tokens(&p, &mut pos, &key(9), &key(5), &mut vault, &mut wallet).unwrap();
    assert_eq!(ev.tokens_claimed, 6_000_000_000);
    assert_eq!(ev.user, key(5));
    assert_eq!(pos.tokens_claimed, 10_000_000_000);
    assert_eq!(vault, 44_000_000_000);
    assert_eq!(wallet, 6_000_000_000);
    let r = claim_tokens(&p, &mut pos, &key(9), &key(5), &mut vault, &mut wallet);
    assert_eq!(r, Err(PresaleError::NothingToClaim));
    assert!(pos.tokens_claimed <= pos.tokens_allocated);
}

#[test]
fn claim_opens_after_vault_initialization() {
    let mut p = presale();
    p.phase = Phase::Launched;
    let mut pos = UserPosition::new(key(9), key(5), 255);
    pos.tokens_allocated = 10;
    let mut vault: u64 = 10;
    let mut wallet: u64 = 0;
    assert!(claim_tokens(&p, &mut pos, &key(9), &key(5), &mut vault, &mut wallet).is_ok());
    assert_eq!(wallet, 10);
}

#[test]
fn claim_rejections() {
    let mut pos = UserPosition::new(key(9), key(5), 255);
    pos.tokens_allocated = 10;
    let mut vault: u64 = 100;
    let mut wallet: u64 = 0;
    let p = presale();
    assert_eq!(claim_tokens(&p, &mut pos, &key(9), &key(5), &mut vault, &mut wallet), Err(PresaleError::PresaleNotMigrated));
    let mut migrated_only = presale();
    migrated_only.is_migrated = true;
    migrated_only.phase = Phase::Launchable;
    assert_eq!(claim_tokens(&migrated_only, &mut pos, &key(9), &key(5), &mut vault, &mut wallet), Err(PresaleError::PresaleNotMigrated));
    let p = launched();
    assert_eq!(claim_tokens(&p, &mut pos, &key(9), &key(6), &mut vault, &mut wallet), Err(PresaleError::Unauthorized));
    let mut low: u64 = 9;
    assert_eq!(claim_tokens(&p, &mut pos, &key(9), &key(5), &mut low, &mut wallet), Err(PresaleError::InsufficientFunds));
    let mut bad = pos;
    bad.tokens_claimed = 11;
    assert_eq!(claim_tokens(&p, &mut bad, &key(9), &key(5), &mut vault, &mut wallet), Err(PresaleError::NothingToClaim));
    assert_eq!((vault, wallet, pos.tokens_claimed), (100, 0, 0));
}
