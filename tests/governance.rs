use bin_farm::governance::{
    accept_authority, apply_fee, apply_revenue_dest, bot_pause, bot_unpause, cancel_pending_fee,
    cancel_pending_revenue_dest, initialize_rover, pause, propose_fee, propose_revenue_dest,
    transfer_authority, unpause, update_bot, update_keeper_tip_bps, update_priority_slots,
};
use bin_farm::pubkey::Pubkey;
use bin_farm::state::{initialize, Config};
use bin_farm::types::CoreError;

fn key(n: u8) -> Pubkey {
    Pubkey::new([n; 32])
}

const AUTHORITY: u8 = 1;
const AGENT: u8 = 2;
const STRANGER: u8 = 30;

fn config() -> Config {
    initialize(&key(AUTHORITY), &key(AGENT), 30).unwrap()
}

#[test]
fn initialize_sets_defaults() {
    let c = config();
    assert_eq!(c.fee_bps, 30);
    assert_eq!(c.keeper_tip_bps, 1000);
    assert_eq!(c.priority_slots, 100);
    assert!(c.pending_authority.is_zero());
    assert!(c.authority.same(&key(AUTHORITY)));
    assert!(c.bot.same(&key(AGENT)));
    assert!(!c.paused && !c.bot_paused);
    assert_eq!(initialize(&key(1), &key(2), 1000).unwrap().fee_bps, 1000);
    assert_eq!(initialize(&key(1), &key(2), 1001).unwrap_err(), CoreError::FeeTooHigh);
}

#[test]
fn fee_change_waits_for_timelock() {
    let mut c = config();
    propose_fee(&mut c, &key(AUTHORITY), 50, 1_000).unwrap();
    assert_eq!(c.fee_bps, 30);
    assert_eq!(c.pending_fee_bps, 50);
    assert_eq!(c.fee_change_at, 87_400);
    assert_eq!(apply_fee(&mut c, 87_399).unwrap_err(), CoreError::FeeTimelockNotExpired);
    assert_eq!(c.fee_bps, 30);
    apply_fee(&mut c, 87_400).unwrap();
    assert_eq!(c.fee_bps, 50);
    assert_eq!(c.pending_fee_bps, 0);
    assert_eq!(c.fee_change_at, 0);
    assert_eq!(apply_fee(&mut c, 99_999).unwrap_err(), CoreError::NoPendingFeeChange);
}

#[test]
fn cancelled_fee_change_never_lands() {
    let mut c = config();
    propose_fee(&mut c, &key(AUTHORITY), 900, 10).unwrap();
    assert_eq!(cancel_pending_fee(&mut c, &key(STRANGER)).unwrap_err(), CoreError::Unauthorized);
    cancel_pending_fee(&mut c, &key(AUTHORITY)).unwrap();
    assert_eq!(apply_fee(&mut c, i64::MAX).unwrap_err(), CoreError::NoPendingFeeChange);
    assert_eq!(c.fee_bps, 30);
    assert_eq!(cancel_pending_fee(&mut c, &key(AUTHORITY)).unwrap_err(), CoreError::NoPendingFeeChange);
}

#[test]
fn fee_proposal_is_checked() {
    let mut c = config();
    assert_eq!(propose_fee(&mut c, &key(STRANGER), 50, 0).unwrap_err(), CoreError::Unauthorized);
    assert_eq!(propose_fee(&mut c, &key(AUTHORITY), 1001, 0).unwrap_err(), CoreError::FeeTooHigh);
    assert_eq!(propose_fee(&mut c, &key(AUTHORITY), 10, i64::MAX - 86_399).unwrap_err(), CoreError::Overflow);
    assert_eq!(c.fee_change_at, 0);
    propose_fee(&mut c, &key(AUTHORITY), 10, 0).unwrap();
    propose_fee(&mut c, &key(AUTHORITY), 20, 100).unwrap();
    assert_eq!((c.pending_fee_bps, c.fee_change_at), (20, 86_500));
}

#[test]
fn admin_switches_are_authority_only() {
    let mut c = config();
    assert_eq!(pause(&mut c, &key(STRANGER)).unwrap_err(), CoreError::Unauthorized);
    pause(&mut c, &key(AUTHORITY)).unwrap();
    assert!(c.paused);
    unpause(&mut c, &key(AUTHORITY)).unwrap();
    assert!(!c.paused);
    bot_pause(&mut c, &key(AUTHORITY)).unwrap();
    assert!(c.bot_paused);
    assert_eq!(bot_unpause(&mut c, &key(AGENT)).unwrap_err(), CoreError::Unauthorized);
    bot_unpause(&mut c, &key(AUTHORITY)).unwrap();
    assert!(!c.bot_paused);
    update_bot(&mut c, &key(AUTHORITY), &key(44)).unwrap();
    assert!(c.bot.same(&key(44)));
}

#[test]
fn tip_and_staleness_bounds() {
    let mut c = config();
    update_keeper_tip_bps(&mut c, &key(AUTHORITY), 5000).unwrap();
    assert_eq!(c.keeper_tip_bps, 5000);
    assert_eq!(update_keeper_tip_bps(&mut c, &key(AUTHORITY), 5001).unwrap_err(), CoreError::FeeTooHigh);
    update_priority_slots(&mut c, &key(AUTHORITY), 9000).unwrap();
    assert_eq!(c.priority_slots, 9000);
    assert_eq!(update_priority_slots(&mut c, &key(AUTHORITY), 9001).unwrap_err(), CoreError::PrioritySlotsExceedMax);
    assert_eq!(update_priority_slots(&mut c, &key(STRANGER), 1).unwrap_err(), CoreError::Unauthorized);
}

#[test]
fn authority_transfer_takes_two_steps() {
    let mut c = config();
    assert_eq!(accept_authority(&mut c, &key(9)).unwrap_err(), CoreError::Unauthorized);
    assert_eq!(accept_authority(&mut c, &Pubkey::zero()).unwrap_err(), CoreError::NoPendingAuthority);
    assert_eq!(transfer_authority(&mut c, &key(9), &key(9)).unwrap_err(), CoreError::Unauthorized);
    transfer_authority(&mut c, &key(AUTHORITY), &key(9)).unwrap();
    assert!(c.authority.same(&key(AUTHORITY)));
    assert_eq!(accept_authority(&mut c, &key(STRANGER)).unwrap_err(), CoreError::Unauthorized);
    accept_authority(&mut c, &key(9)).unwrap();
    assert!(c.authority.same(&key(9)));
    assert!(c.pending_authority.is_zero());
}

#[test]
fn revenue_destination_change_is_timelocked() {
    let c = config();
    assert_eq!(initialize_rover(&c, &key(AUTHORITY), &Pubkey::zero()).unwrap_err(), CoreError::InvalidDistPool);
    assert_eq!(initialize_rover(&c, &key(STRANGER), &key(60)).unwrap_err(), CoreError::Unauthorized);
    let mut r = initialize_rover(&c, &key(AUTHORITY), &key(60)).unwrap();
    assert_eq!(r.total_rover_positions, 0);
    assert_eq!(propose_revenue_dest(&c, &mut r, &key(AUTHORITY), &Pubkey::zero(), 0).unwrap_err(), CoreError::InvalidDistPool);
    propose_revenue_dest(&c, &mut r, &key(AUTHORITY), &key(61), 100).unwrap();
    assert_eq!(apply_revenue_dest(&mut r, 86_499).unwrap_err(), CoreError::FeeTimelockNotExpired);
    assert!(r.revenue_dest.same(&key(60)));
    apply_revenue_dest(&mut r, 86_500).unwrap();
    assert!(r.revenue_dest.same(&key(61)));
    assert!(r.pending_revenue_dest.is_zero());
    assert_eq!(apply_revenue_dest(&mut r, 90_000).unwrap_err(), CoreError::NoPendingFeeChange);
}

#[test]
fn cancelled_revenue_destination_never_lands() {
    let c = config();
    let mut r = initialize_rover(&c, &key(AUTHORITY), &key(60)).unwrap();
    propose_revenue_dest(&c, &mut r, &key(AUTHORITY), &key(61), 100).unwrap();
    assert_eq!(cancel_pending_revenue_dest(&c, &mut r, &key(STRANGER)).unwrap_err(), CoreError::Unauthorized);
    cancel_pending_revenue_dest(&c, &mut r, &key(AUTHORITY)).unwrap();
    assert_eq!(apply_revenue_dest(&mut r, i64::MAX).unwrap_err(), CoreError::NoPendingFeeChange);
    assert!(r.revenue_dest.same(&key(60)));
}
