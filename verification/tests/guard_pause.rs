//! Reentrancy guard, operation cooldown, and pause/unpause timing on
//! concrete values.

use dreamt::constants::UNPAUSE_COOLDOWN;
use dreamt::error::DiamondTokenError;
use dreamt::ops::{close_token_state, pause, unpause};
use dreamt::state::{Address, TokenState};

fn addr(n: u64) -> Address {
    Address { w0: n, w1: 0, w2: 0, w3: 0 }
}

fn fresh_state() -> TokenState {
    TokenState {
        authority: addr(1),
        mint: addr(2),
        total_supply: 8_000_000,
        max_supply: 100_000_000,
        is_paused: false,
        last_pause_timestamp: 0,
        multisig: addr(3),
        vault_owner: addr(4),
        bump: 255,
        in_operation: false,
        last_operation_timestamp: 0,
    }
}

#[test]
fn second_start_operation_is_reentrancy_denied() {
    let mut s = fresh_state();
    s.start_operation(10).expect("first start succeeds");
    assert!(s.in_operation);
    // Regardless of how much time has elapsed.
    let r = s.start_operation(1_000_000);
    assert_eq!(r.unwrap_err(), DiamondTokenError::ReentrancyNotAllowed);
}

#[test]
fn start_operation_respects_cooldown() {
    let mut s = fresh_state();
    s.last_operation_timestamp = 10;
    let r = s.start_operation(10);
    assert_eq!(r.unwrap_err(), DiamondTokenError::OperationCooldownNotElapsed);
    s.start_operation(11).expect("one second later the cooldown has elapsed");
    assert_eq!(s.last_operation_timestamp, 11);
}

#[test]
fn start_operation_detects_time_difference_overflow() {
    let mut s = fresh_state();
    s.last_operation_timestamp = i64::MAX;
    let r = s.start_operation(-2);
    assert_eq!(r.unwrap_err(), DiamondTokenError::MathOverflow);
}

#[test]
fn end_operation_releases_guard() {
    let mut s = fresh_state();
    s.start_operation(10).unwrap();
    s.end_operation();
    assert!(!s.in_operation);
    s.start_operation(12).expect("guard released, cooldown elapsed");
}

#[test]
fn pause_twice_fails_with_already_paused() {
    let mut s = fresh_state();
    let ev = pause(&mut s, &addr(3), &addr(1), 1000).expect("first pause succeeds");
    assert!(s.is_paused);
    assert_eq!(s.last_pause_timestamp, 1000);
    assert_eq!(ev.authority, addr(1));
    assert_eq!(ev.timestamp, 1000);
    let r = pause(&mut s, &addr(3), &addr(1), 1001);
    assert_eq!(r.unwrap_err(), DiamondTokenError::AlreadyPaused);
}

#[test]
fn pause_with_wrong_multisig_fails() {
    let mut s = fresh_state();
    let r = pause(&mut s, &addr(30), &addr(1), 1000);
    assert_eq!(r.unwrap_err(), DiamondTokenError::InvalidMultisig);
    assert!(!s.is_paused);
}

#[test]
fn unpause_before_cooldown_fails_at_boundary_succeeds() {
    let mut s = fresh_state();
    pause(&mut s, &addr(3), &addr(1), 1000).unwrap();
    let r = unpause(&mut s, &addr(3), &addr(1), 1000 + UNPAUSE_COOLDOWN - 1);
    assert_eq!(r.unwrap_err(), DiamondTokenError::UnpauseCooldownNotElapsed);
    assert!(s.is_paused);
    let ev = unpause(&mut s, &addr(3), &addr(1), 1000 + UNPAUSE_COOLDOWN)
        .expect("exactly at the boundary the unpause succeeds");
    assert!(!s.is_paused);
    assert_eq!(ev.authority, addr(1));
    assert_eq!(ev.timestamp, 1000 + UNPAUSE_COOLDOWN);
}

#[test]
fn unpause_when_not_paused_fails() {
    let mut s = fresh_state();
    let r = unpause(&mut s, &addr(3), &addr(1), 1000);
    assert_eq!(r.unwrap_err(), DiamondTokenError::NotPaused);
}

#[test]
fn unpause_with_wrong_multisig_fails() {
    let mut s = fresh_state();
    pause(&mut s, &addr(3), &addr(1), 1000).unwrap();
    let r = unpause(&mut s, &addr(30), &addr(1), 1000 + UNPAUSE_COOLDOWN);
    assert_eq!(r.unwrap_err(), DiamondTokenError::InvalidMultisig);
}

#[test]
fn unpause_detects_time_difference_overflow() {
    let mut s = fresh_state();
    s.is_paused = true;
    s.last_pause_timestamp = i64::MIN;
    let r = unpause(&mut s, &addr(3), &addr(1), 1);
    assert_eq!(r.unwrap_err(), DiamondTokenError::MathOverflow);
}

#[test]
fn close_is_authority_gated_and_pause_gated() {
    let mut s = fresh_state();
    let r = close_token_state(&s, &addr(99));
    assert_eq!(r.unwrap_err(), DiamondTokenError::NotAuthorized);
    let r = close_token_state(&s, &addr(1));
    assert_eq!(r.unwrap_err(), DiamondTokenError::ProgramPaused);
    s.is_paused = true;
    close_token_state(&s, &addr(1)).expect("paused and authorized");
}

#[test]
fn default_state_is_empty_and_unlocked() {
    let s = TokenState::default();
    assert_eq!(s.total_supply, 0);
    assert_eq!(s.max_supply, 0);
    assert!(!s.is_paused);
    assert!(!s.in_operation);
    assert_eq!(s.authority, Address::default());
}

#[test]
fn supply_counter_helpers_check_their_arithmetic() {
    let mut s = fresh_state();
    s.total_supply = u64::MAX - 1;
    let r = s.update_total_supply_add(2);
    assert_eq!(r.unwrap_err(), DiamondTokenError::MathOverflow);
    assert_eq!(s.total_supply, u64::MAX - 1);
    s.update_total_supply_add(1).unwrap();
    assert_eq!(s.total_supply, u64::MAX);
    s.total_supply = 5;
    let r = s.update_total_supply_sub(6);
    assert_eq!(r.unwrap_err(), DiamondTokenError::MathOverflow);
    assert_eq!(s.total_supply, 5);
    s.update_total_supply_sub(5).unwrap();
    assert_eq!(s.total_supply, 0);
}
