//! The engine-wide guarantees, stated over the operation models and proved
//! once and for all: supply-cap preservation across mint and burn,
//! reentrancy denial, pause/unpause cooldown timing, blacklist boundedness
//! and re-admission, transfer-guard symmetry, and the one-way supply cap.

use vstd::prelude::*;
use crate::constants::{MAX_BLACKLIST_SIZE, UNPAUSE_COOLDOWN};
use crate::error::DiamondTokenError;
use crate::ops::{
    admin_burn_next, admin_burn_result, mint_by_user_next, mint_by_user_result,
    on_transfer_hook_result, pause_next, pause_result, unpause_result,
    update_max_supply_result,
};
use crate::state::{start_operation_next, start_operation_result, Address, Blacklist, TokenState};

verus! {

/// A mint never breaks the supply invariant: from a well-formed state, the
/// state after the policy decision is well-formed, and committing a
/// granted plan leaves the supply within the cap.  The supply is an
/// unsigned counter, so it can never go negative.
pub proof fn lemma_mint_preserves_supply_invariant(
    s: TokenState,
    b: Blacklist,
    user: Address,
    vault_owner: Address,
    amount: u64,
    now: i64,
)
    requires
        s.wf(),
    ensures
        mint_by_user_next(s, b, user, vault_owner, amount, now).wf(),
        mint_by_user_result(s, b, user, vault_owner, amount, now) matches Ok(plan)
            ==> (TokenState {
            total_supply: plan.new_supply,
            in_operation: false,
            ..mint_by_user_next(s, b, user, vault_owner, amount, now)
        }).wf(),
{
}

/// A burn never breaks the supply invariant: from a well-formed state, the
/// state after the policy decision is well-formed, and committing a
/// granted plan leaves the supply within the cap (the plan only ever
/// shrinks the supply).
pub proof fn lemma_burn_preserves_supply_invariant(
    s: TokenState,
    multisig: Address,
    vault_balance: u64,
    refund_balance: u64,
    amount: u64,
    now: i64,
)
    requires
        s.wf(),
    ensures
        admin_burn_next(s, multisig, vault_balance, refund_balance, amount, now).wf(),
        admin_burn_result(s, multisig, vault_balance, refund_balance, amount, now) matches Ok(
            plan,
        ) ==> plan.new_supply <= s.total_supply && (TokenState {
            total_supply: plan.new_supply,
            in_operation: false,
            ..admin_burn_next(s, multisig, vault_balance, refund_balance, amount, now)
        }).wf(),
{
}

/// Starting a guarded operation twice with no release in between always
/// fails with the reentrancy error, regardless of how much time has
/// elapsed between the two attempts.
pub proof fn lemma_start_operation_reentrancy_denied(s: TokenState, t1: i64, t2: i64)
    requires
        start_operation_result(s, t1) is Ok,
    ensures
        start_operation_result(start_operation_next(s, t1), t2) == Err::<(), DiamondTokenError>(
            DiamondTokenError::ReentrancyNotAllowed,
        ),
{
}

/// The operation clock only ever advances: a granted start moves it
/// strictly forward (the cooldown is at least one time unit), and a
/// rejected one leaves it unchanged.
pub proof fn lemma_operation_time_monotonic(s: TokenState, now: i64)
    ensures
        start_operation_next(s, now).last_operation_timestamp >= s.last_operation_timestamp,
        start_operation_result(s, now) is Ok ==> start_operation_next(
            s,
            now,
        ).last_operation_timestamp > s.last_operation_timestamp,
{
}

/// Pause, then unpause: before the unpause cooldown has elapsed the
/// unpause always fails — with the cooldown error whenever the elapsed
/// time is representable — and at exactly the cooldown boundary it
/// succeeds.
pub proof fn lemma_pause_unpause_cooldown(
    s: TokenState,
    multisig: Address,
    t_pause: i64,
    t_unpause: i64,
)
    requires
        pause_result(s, multisig) is Ok,
    ensures
        t_unpause - t_pause < UNPAUSE_COOLDOWN ==> unpause_result(
            pause_next(s, multisig, t_pause),
            multisig,
            t_unpause,
        ) is Err,
        i64::MIN <= t_unpause - t_pause < UNPAUSE_COOLDOWN ==> unpause_result(
            pause_next(s, multisig, t_pause),
            multisig,
            t_unpause,
        ) == Err::<(), DiamondTokenError>(DiamondTokenError::UnpauseCooldownNotElapsed),
        t_unpause - t_pause == UNPAUSE_COOLDOWN ==> unpause_result(
            pause_next(s, multisig, t_pause),
            multisig,
            t_unpause,
        ) is Ok,
{
}

/// A registry that came out of a removal admits the removed identity
/// again: the identity is no longer present and the registry is strictly
/// below its bound, which is exactly what [`Blacklist::add`] requires to
/// succeed.  (`b_after` is constrained precisely as the contract of
/// [`Blacklist::remove`] describes its result.)
pub proof fn lemma_blacklist_readd_after_remove(b_before: Blacklist, b_after: Blacklist, a: Address)
    requires
        b_before.wf(),
        b_before.spec_contains(a),
        b_after.addresses@.len() == b_before.addresses@.len() - 1,
        forall|x: Address| b_after.spec_contains(x) <==> (b_before.spec_contains(x) && x != a),
    ensures
        !b_after.spec_contains(a),
        b_after.addresses@.len() < MAX_BLACKLIST_SIZE,
{
}

/// The transfer guard approves exactly the transfers with both endpoints
/// outside the registry, names the blacklisted endpoint in its error, and
/// its approval is symmetric in source and destination.
pub proof fn lemma_transfer_guard(b: Blacklist, src: Address, dst: Address, amount: u64)
    requires
        amount > 0,
    ensures
        on_transfer_hook_result(b, src, dst, amount) is Ok <==> (!b.spec_contains(src)
            && !b.spec_contains(dst)),
        b.spec_contains(src) ==> on_transfer_hook_result(b, src, dst, amount) == Err::<
            (),
            DiamondTokenError,
        >(DiamondTokenError::SourceAddressBlacklisted),
        !b.spec_contains(src) && b.spec_contains(dst) ==> on_transfer_hook_result(
            b,
            src,
            dst,
            amount,
        ) == Err::<(), DiamondTokenError>(DiamondTokenError::DestinationAddressBlacklisted),
        on_transfer_hook_result(b, src, dst, amount) is Ok <==> on_transfer_hook_result(
            b,
            dst,
            src,
            amount,
        ) is Ok,
{
}

/// The supply cap is one-way: a requested cap below the circulating
/// supply, or above the cap already in force, is always rejected — and
/// with the specific error kind once the committee and pause gates pass.
pub proof fn lemma_update_max_supply_bounds(s: TokenState, multisig: Address, new_max_supply: u64)
    ensures
        new_max_supply < s.total_supply ==> update_max_supply_result(s, multisig, new_max_supply)
            is Err,
        new_max_supply > s.max_supply ==> update_max_supply_result(s, multisig, new_max_supply)
            is Err,
        multisig == s.multisig && !s.is_paused && new_max_supply > 0 && new_max_supply
            < s.total_supply ==> update_max_supply_result(s, multisig, new_max_supply) == Err::<
            (),
            DiamondTokenError,
        >(DiamondTokenError::MaxSupplyReductionTooLarge),
        multisig == s.multisig && !s.is_paused && new_max_supply > 0 && new_max_supply
            >= s.total_supply && new_max_supply > s.max_supply ==> update_max_supply_result(
            s,
            multisig,
            new_max_supply,
        ) == Err::<(), DiamondTokenError>(DiamondTokenError::CannotIncreaseMaxSupply),
{
}

} // verus!
