//! Blacklist registry bounds, the quorum-gated mutations, the transfer
//! guard, and item purchases, on concrete values.

use dreamt::constants::MAX_BLACKLIST_SIZE;
use dreamt::error::DiamondTokenError;
use dreamt::events::BlacklistAction;
use dreamt::ops::{
    add_to_blacklist, on_transfer_hook, purchase_commit, purchase_item, remove_from_blacklist,
    validate_item_id,
};
use dreamt::state::{Address, Blacklist, TokenState};

fn addr(n: u64) -> Address {
    Address { w0: n, w1: 0, w2: 0, w3: 0 }
}

fn fresh_state() -> TokenState {
    TokenState {
        authority: addr(1),
        mint: addr(2),
        total_supply: 8_000_000,
        max_supply: 100_000_000,
        is_paused: false,
        last_pause_timestamp: 0,
        multisig: addr(3),
        vault_owner: addr(4),
        bump: 255,
        in_operation: false,
        last_operation_timestamp: 0,
    }
}

fn empty_blacklist() -> Blacklist {
    Blacklist { addresses: Vec::new(), bump: 0 }
}

#[test]
fn registry_holds_at_most_one_hundred_entries() {
    let mut bl = empty_blacklist();
    for n in 0..MAX_BLACKLIST_SIZE as u64 {
        bl.add(addr(1000 + n)).expect("room for one hundred entries");
    }
    assert_eq!(bl.addresses.len(), 100);
    let r = bl.add(addr(2000));
    assert_eq!(r.unwrap_err(), DiamondTokenError::BlacklistFull);
    assert_eq!(bl.addresses.len(), 100);
}

#[test]
fn duplicate_entry_is_rejected() {
    let mut bl = empty_blacklist();
    bl.add(addr(5)).unwrap();
    let r = bl.add(addr(5));
    assert_eq!(r.unwrap_err(), DiamondTokenError::AddressAlreadyBlacklisted);
    assert_eq!(bl.addresses.len(), 1);
}

#[test]
fn removing_then_readding_succeeds() {
    let mut bl = empty_blacklist();
    for n in 0..MAX_BLACKLIST_SIZE as u64 {
        bl.add(addr(1000 + n)).unwrap();
    }
    bl.remove(&addr(1042)).expect("present entry removes");
    assert_eq!(bl.addresses.len(), 99);
    assert!(!bl.contains(&addr(1042)));
    bl.add(addr(1042)).expect("removed entry re-adds");
    assert!(bl.contains(&addr(1042)));
    // Every other entry survived the swap-removal.
    for n in 0..MAX_BLACKLIST_SIZE as u64 {
        assert!(bl.contains(&addr(1000 + n)));
    }
}

#[test]
fn removing_absent_entry_fails() {
    let mut bl = empty_blacklist();
    bl.add(addr(5)).unwrap();
    let r = bl.remove(&addr(6));
    assert_eq!(r.unwrap_err(), DiamondTokenError::AddressNotBlacklisted);
}

#[test]
fn blacklist_ops_are_guarded_and_gated() {
    let mut s = fresh_state();
    let mut bl = empty_blacklist();
    let ev = add_to_blacklist(&mut s, &mut bl, &addr(3), &addr(1), addr(50), 10)
        .expect("quorum add succeeds");
    assert!(bl.contains(&addr(50)));
    assert!(!s.in_operation, "guard released after the operation");
    assert_eq!(ev.address, addr(50));
    assert_eq!(ev.authority, addr(1));
    assert_eq!(ev.action, BlacklistAction::Added);

    // Same timestamp again: the operation cooldown has not elapsed.
    let r = add_to_blacklist(&mut s, &mut bl, &addr(3), &addr(1), addr(51), 10);
    assert_eq!(r.unwrap_err(), DiamondTokenError::OperationCooldownNotElapsed);

    // A held guard rejects the nested call and stays held.
    s.in_operation = true;
    let r = add_to_blacklist(&mut s, &mut bl, &addr(3), &addr(1), addr(51), 20);
    assert_eq!(r.unwrap_err(), DiamondTokenError::ReentrancyNotAllowed);
    assert!(s.in_operation);
    s.in_operation = false;

    let r = add_to_blacklist(&mut s, &mut bl, &addr(30), &addr(1), addr(51), 20);
    assert_eq!(r.unwrap_err(), DiamondTokenError::InvalidMultisig);

    s.is_paused = true;
    let r = add_to_blacklist(&mut s, &mut bl, &addr(3), &addr(1), addr(51), 30);
    assert_eq!(r.unwrap_err(), DiamondTokenError::ProgramPaused);
    s.is_paused = false;

    let ev = remove_from_blacklist(&mut s, &mut bl, &addr(3), &addr(1), addr(50), 40)
        .expect("quorum remove succeeds");
    assert!(!bl.contains(&addr(50)));
    assert_eq!(ev.action, BlacklistAction::Removed);

    let r = remove_from_blacklist(&mut s, &mut bl, &addr(3), &addr(1), addr(50), 42);
    assert_eq!(r.unwrap_err(), DiamondTokenError::AddressNotBlacklisted);
}

#[test]
fn transfer_guard_denies_either_endpoint() {
    let mut bl = empty_blacklist();
    bl.add(addr(70)).unwrap();
    let r = on_transfer_hook(&bl, &addr(70), &addr(71), 5);
    assert_eq!(r.unwrap_err(), DiamondTokenError::SourceAddressBlacklisted);
    let r = on_transfer_hook(&bl, &addr(71), &addr(70), 5);
    assert_eq!(r.unwrap_err(), DiamondTokenError::DestinationAddressBlacklisted);
    let ev = on_transfer_hook(&bl, &addr(71), &addr(72), 5).expect("clean endpoints approve");
    assert_eq!(ev.source, addr(71));
    assert_eq!(ev.destination, addr(72));
    assert_eq!(ev.amount, 5);
    let r = on_transfer_hook(&bl, &addr(71), &addr(72), 0);
    assert_eq!(r.unwrap_err(), DiamondTokenError::InvalidAmount);
}

#[test]
fn transfer_guard_approval_is_symmetric() {
    let mut bl = empty_blacklist();
    bl.add(addr(70)).unwrap();
    let pairs = [(70u64, 71u64), (71, 70), (71, 72), (70, 70)];
    for (a, b) in pairs {
        let fwd = on_transfer_hook(&bl, &addr(a), &addr(b), 5).is_ok();
        let back = on_transfer_hook(&bl, &addr(b), &addr(a), 5).is_ok();
        assert_eq!(fwd, back);
    }
}

#[test]
fn purchase_item_flow() {
    let mut s = fresh_state();
    purchase_item(&mut s, &addr(4), 25, "poster-large", 10).expect("purchase approved");
    assert!(s.in_operation);
    let ev = purchase_commit(&mut s, &addr(9), 25, String::from("poster-large"));
    assert!(!s.in_operation);
    assert_eq!(ev.user, addr(9));
    assert_eq!(ev.amount, 25);
    assert_eq!(ev.item_id, "poster-large");
}

#[test]
fn purchase_item_rejections() {
    let mut s = fresh_state();
    let r = purchase_item(&mut s, &addr(4), 0, "poster", 10);
    assert_eq!(r.unwrap_err(), DiamondTokenError::InvalidAmount);
    let r = purchase_item(&mut s, &addr(4), 25, "", 10);
    assert_eq!(r.unwrap_err(), DiamondTokenError::InvalidAmount);
    let r = purchase_item(&mut s, &addr(4), 25, "123456789012345678901234567890123", 10);
    assert_eq!(r.unwrap_err(), DiamondTokenError::InvalidAmount);
    s.is_paused = true;
    let r = purchase_item(&mut s, &addr(4), 25, "poster", 10);
    assert_eq!(r.unwrap_err(), DiamondTokenError::ProgramPaused);
    s.is_paused = false;
    let r = purchase_item(&mut s, &addr(40), 25, "poster", 10);
    assert_eq!(r.unwrap_err(), DiamondTokenError::InvalidVaultOwner);
    assert!(!s.in_operation, "a rejected purchase must release the guard");
}

#[test]
fn item_id_validation_accepts_up_to_32_bytes() {
    validate_item_id("a").expect("one byte is enough");
    validate_item_id("12345678901234567890123456789012").expect("32 bytes pass");
    assert_eq!(
        validate_item_id("").unwrap_err(),
        DiamondTokenError::InvalidAmount
    );
    assert_eq!(
        validate_item_id("123456789012345678901234567890123").unwrap_err(),
        DiamondTokenError::InvalidAmount
    );
}
