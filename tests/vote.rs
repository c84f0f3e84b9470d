use onlypump_presale::address::Address;
use onlypump_presale::admin::{initialize_platform, new_presale};
use onlypump_presale::error::PresaleError;
use onlypump_presale::state::{Outcome, Phase, PlatformConfig, Presale, UserPosition};
use onlypump_presale::vote::{cast_vote, enable_refunds_if_deadline_passed, resolve_vote, start_vote};

fn key(b: u8) -> Address {
    Address::new([b; 32])
}

fn platform() -> PlatformConfig {
    initialize_platform(&key(1), &key(2), &key(3), 100, 255)
}

fn presale() -> Presale {
    new_presale(&key(1), &key(20), &key(21), 0, 500, 10, 1000, &key(4), 254)
}

fn voting(yes: u64, no: u64) -> Presale {
    let mut p = presale();
    p.phase = Phase::Voting;
    p.vote_yes_weight = yes;
    p.vote_no_weight = no;
    p.voting_ends_ts = 1_000;
    p
}

fn position(user: u8, contribution: u64) -> UserPosition {
    let mut pos = UserPosition::new(key(9), key(user), 255);
    pos.public_contribution_lamports = contribution;
    pos
}

#[test]
fn tie_resolves_to_refund() {
    let mut p = voting(100, 100);
    assert_eq!(resolve_vote(&mut p, 1_000), Ok(()));
    assert_eq!(p.phase, Phase::Refundable);
    assert_eq!(p.outcome, Outcome::Refund);
    assert!(p.refund_enabled);
}

#[test]
fn strict_majority_resolves_to_launch() {
    let mut p = voting(101, 100);
    assert_eq!(resolve_vote(&mut p, 2_000), Ok(()));
    assert_eq!(p.phase, Phase::Launchable);
    assert_eq!(p.outcome, Outcome::Launch);
    assert!(!p.refund_enabled);
    assert_eq!(p.launch_deadline_ts, 2_000 + 86_400);
}

#[test]
fn launch_deadline_counts_from_tge_when_later() {
    let mut p = voting(5, 0);
    p.tge_ts = 50_000;
    assert_eq!(resolve_vote(&mut p, 1_000), Ok(()));
    assert_eq!(p.launch_deadline_ts, 50_000 + 86_400);
}

#[test]
fn deadline_overflow_is_rejected() {
    let mut p = voting(5, 0);
    p.tge_ts = i64::MAX - 10;
    let before = p;
    assert_eq!(resolve_vote(&mut p, 1_000), Err(PresaleError::PresaleNotActive));
    assert_eq!(p, before);
}

#[test]
fn resolve_before_end_or_outside_voting_is_rejected() {
    let mut p = voting(5, 0);
    assert_eq!(resolve_vote(&mut p, 999), Err(PresaleError::PresaleNotActive));
    let mut q = presale();
    assert_eq!(resolve_vote(&mut q, 5_000), Err(PresaleError::PresaleNotActive));
}

#[test]
fn start_vote_opens_voting_for_admin() {
    let mut p = presale();
    p.vote_yes_weight = 7;
    assert_eq!(start_vote(&platform(), &mut p, &key(2), 100, 200), Ok(()));
    assert_eq!(p.phase, Phase::Voting);
    assert_eq!(p.vote_yes_weight, 0);
    assert_eq!(p.vote_no_weight, 0);
    assert_eq!(p.voting_ends_ts, 200);
    assert_eq!(p.outcome, Outcome::Undecided);
}

#[test]
fn start_vote_rejections() {
    let mut p = presale();
    assert_eq!(start_vote(&platform(), &mut p, &key(7), 100, 200), Err(PresaleError::Unauthorized));
    assert_eq!(start_vote(&platform(), &mut p, &key(1), 200, 200), Err(PresaleError::PresaleNotActive));
    p.phase = Phase::Refundable;
    assert_eq!(start_vote(&platform(), &mut p, &key(1), 100, 200), Err(PresaleError::PresaleNotActive));
    assert_eq!(p.phase, Phase::Refundable);
}

#[test]
fn cast_vote_adds_contribution_weight_once() {
    let mut p = voting(0, 0);
    let mut a = position(5, 300);
    let mut b = position(6, 200);
    assert_eq!(cast_vote(&mut p, &mut a, &key(5), 1_000, true), Ok(()));
    assert_eq!(cast_vote(&mut p, &mut b, &key(6), 10, false), Ok(()));
    assert_eq!(p.vote_yes_weight, 300);
    assert_eq!(p.vote_no_weight, 200);
    assert!(a.has_voted);
    assert_eq!(cast_vote(&mut p, &mut a, &key(5), 1_000, true), Err(PresaleError::Unauthorized));
    assert_eq!(p.vote_yes_weight, 300);
}

#[test]
fn cast_vote_rejections() {
    let mut p = voting(0, 0);
    let mut a = position(5, 300);
    assert_eq!(cast_vote(&mut p, &mut a, &key(6), 10, true), Err(PresaleError::Unauthorized));
    assert_eq!(cast_vote(&mut p, &mut a, &key(5), 1_001, true), Err(PresaleError::PresaleNotActive));
    let mut empty = position(7, 0);
    assert_eq!(cast_vote(&mut p, &mut empty, &key(7), 10, true), Err(PresaleError::NothingToClaim));
    let mut big = position(8, 10);
    p.vote_no_weight = u64::MAX;
    assert_eq!(cast_vote(&mut p, &mut big, &key(8), 10, false), Err(PresaleError::HardCapExceeded));
    assert!(!big.has_voted);
    let mut q = presale();
    assert_eq!(cast_vote(&mut q, &mut a, &key(5), 10, true), Err(PresaleError::PresaleNotActive));
}

#[test]
fn missed_launch_deadline_opens_refunds() {
    let mut p = voting(2, 1);
    resolve_vote(&mut p, 1_000).unwrap();
    let deadline = p.launch_deadline_ts;
    assert_eq!(enable_refunds_if_deadline_passed(&mut p, deadline), Err(PresaleError::PresaleNotActive));
    assert_eq!(enable_refunds_if_deadline_passed(&mut p, deadline + 1), Ok(()));
    assert_eq!(p.phase, Phase::Refundable);
    assert_eq!(p.outcome, Outcome::Refund);
    assert!(p.refund_enabled);
    assert_eq!(enable_refunds_if_deadline_passed(&mut p, deadline + 2), Err(PresaleError::PresaleNotActive));
}

#[test]
fn phase_and_outcome_codes_round_trip() {
    for code in 0u8..6 {
        assert_eq!(Phase::from_u8(code).unwrap().to_u8(), code);
    }
    assert_eq!(Phase::from_u8(6), None);
    assert_eq!(Phase::Launched.to_u8(), 5);
    for code in 0u8..3 {
        assert_eq!(Outcome::from_u8(code).unwrap().to_u8(), code);
    }
    assert_eq!(Outcome::from_u8(3), None);
}

#[test]
fn open_vote_cannot_be_restarted() {
    let pf = platform();
    let mut p = presale();
    start_vote(&pf, &mut p, &key(1), 100, 200).unwrap();
    let mut a = position(5, 300);
    cast_vote(&mut p, &mut a, &key(5), 150, true).unwrap();
    let before = p;
    assert_eq!(start_vote(&pf, &mut p, &key(1), 160, 400), Err(PresaleError::PresaleNotActive));
    assert_eq!(p, before);
    assert_eq!(p.vote_yes_weight, 300);
    assert_eq!(cast_vote(&mut p, &mut a, &key(5), 170, true), Err(PresaleError::Unauthorized));
}

#[test]
fn start_vote_only_from_public_sale() {
    let pf = platform();
    for phase in [Phase::Pending, Phase::Voting, Phase::Launchable, Phase::Refundable, Phase::Launched] {
        let mut p = presale();
        p.phase = phase;
        let before = p;
        assert_eq!(start_vote(&pf, &mut p, &key(1), 100, 200), Err(PresaleError::PresaleNotActive));
        assert_eq!(p, before);
    }
}
