//! The top-level operations of the policy engine.
//!
//! Every mutating operation is specified by a pair of spec functions:
//! `<op>_result` gives the exact outcome (the event or plan on success, the
//! error kind on each rejected input), and `<op>_next` gives the state
//! after the call.  The executable functions are proved equal to these
//! models.
//!
//! Operations whose success depends on the settlement rail are split in
//! two: a `prepare` step that performs every policy check and acquires the
//! reentrancy guard, and a `commit` step that records the ledger change and
//! releases the guard.  The caller performs the settlement calls in
//! between and, if one fails, releases the guard with
//! [`TokenState::end_operation`] instead of committing — so a settlement
//! failure never leaves a partial ledger update behind.

use vstd::prelude::*;
use vstd::string::StringSliceAdditionalSpecFns;
use crate::constants::{
    DECIMALS, INITIAL_SUPPLY, MAX_BLACKLIST_SIZE, MAX_PURCHASE_USDC, MAX_SUPPLY,
    MIN_PURCHASE_USDC, MULTISIG_OWNERS, MULTISIG_THRESHOLD, TOKEN_PRICE_USDC, UNPAUSE_COOLDOWN,
};
use crate::error::DiamondTokenError;
use crate::events::{
    BlacklistAction, BlacklistUpdated, ItemPurchased, MaxSupplyUpdated, ProgramPaused,
    ProgramUnpaused, ReserveVerified, TokenStateInitialized, TokensBurned, TokensMinted,
    TransferHookExecuted,
};
use crate::state::{start_operation_result, Address, Blacklist, TokenState};

verus! {

/// Everything a user mint needs from the settlement rail, computed and
/// checked by [`mint_by_user`]: the payment to collect, the amount to
/// issue, and the supply to commit afterwards.
#[derive(Clone, Copy, Debug, PartialEq, Eq, Structural)]
pub struct MintPlan {
    /// Token units to issue.
    pub amount: u64,
    /// Payment units to collect: `amount` times the fixed price.
    pub payment_amount: u64,
    /// The circulating supply after commit.
    pub new_supply: u64,
}

/// Everything an admin burn needs from the settlement rail, computed and
/// checked by [`admin_burn`]: the amount to burn, the refund to pay out,
/// and the supply to commit afterwards.
#[derive(Clone, Copy, Debug, PartialEq, Eq, Structural)]
pub struct BurnPlan {
    /// Token units to burn.
    pub amount: u64,
    /// Refund in payment units: `amount` times the fixed price.
    pub refund_amount: u64,
    /// The circulating supply after commit.
    pub new_supply: u64,
}

/// Outcome of creating the issuance state and registry at genesis.
pub open spec fn initialize_result(
    payer: Address,
    mint: Address,
    mint_decimals: u8,
    multisig_owners: Seq<Address>,
    threshold: u64,
    multisig: Address,
) -> Result<TokenStateInitialized, DiamondTokenError> {
    if !(threshold == MULTISIG_THRESHOLD && multisig_owners.len() == MULTISIG_OWNERS) {
        Err(DiamondTokenError::InvalidMultisigThreshold)
    } else if mint_decimals != DECIMALS {
        Err(DiamondTokenError::InvalidDecimals)
    } else {
        Ok(TokenStateInitialized {
            authority: payer,
            mint: mint,
            initial_supply: INITIAL_SUPPLY,
            max_supply: MAX_SUPPLY,
            multisig: multisig,
        })
    }
}

/// Create the issuance state and the empty blacklist registry at genesis.
///
/// Rejects a committee that is not exactly 3-of-5 and a mint that does not
/// carry the required decimals.  On success the state starts with the
/// initial supply (which the caller premints to the vault through the
/// settlement rail), the full cap, operations running, and the guard
/// released.
pub fn initialize(
    payer: &Address,
    mint: &Address,
    mint_decimals: u8,
    multisig_owners: &Vec<Address>,
    threshold: u64,
    multisig: &Address,
    vault_owner: &Address,
    state_bump: u8,
    blacklist_bump: u8,
) -> (r: Result<(TokenState, Blacklist, TokenStateInitialized), DiamondTokenError>)
    ensures
        match r {
            Ok((state, blacklist, ev)) => {
                &&& initialize_result(
                    *payer,
                    *mint,
                    mint_decimals,
                    multisig_owners@,
                    threshold,
                    *multisig,
                ) == Ok::<TokenStateInitialized, DiamondTokenError>(ev)
                &&& state == (TokenState {
                    authority: *payer,
                    mint: *mint,
                    total_supply: INITIAL_SUPPLY,
                    max_supply: MAX_SUPPLY,
                    is_paused: false,
                    last_pause_timestamp: 0,
                    multisig: *multisig,
                    vault_owner: *vault_owner,
                    bump: state_bump,
                    in_operation: false,
                    last_operation_timestamp: 0,
                })
                &&& state.wf()
                &&& blacklist.addresses@ == Seq::<Address>::empty()
                &&& blacklist.bump == blacklist_bump
                &&& blacklist.wf()
            },
            Err(e) => initialize_result(
                *payer,
                *mint,
                mint_decimals,
                multisig_owners@,
                threshold,
                *multisig,
            ) == Err::<TokenStateInitialized, DiamondTokenError>(e),
        },
{
    if !(threshold == MULTISIG_THRESHOLD && multisig_owners.len() == MULTISIG_OWNERS) {
        return Err(DiamondTokenError::InvalidMultisigThreshold);
    }
    if mint_decimals != DECIMALS {
        return Err(DiamondTokenError::InvalidDecimals);
    }
    let state = TokenState {
        authority: *payer,
        mint: *mint,
        total_supply: INITIAL_SUPPLY,
        max_supply: MAX_SUPPLY,
        is_paused: false,
        last_pause_timestamp: 0,
        multisig: *multisig,
        vault_owner: *vault_owner,
        bump: state_bump,
        in_operation: false,
        last_operation_timestamp: 0,
    };
    let blacklist = Blacklist { addresses: Vec::new(), bump: blacklist_bump };
    let event = TokenStateInitialized {
        authority: *payer,
        mint: *mint,
        initial_supply: INITIAL_SUPPLY,
        max_supply: MAX_SUPPLY,
        multisig: *multisig,
    };
    Ok((state, blacklist, event))
}

/// Outcome of the user-mint policy decision, with every check in the order
/// it is made: pause gate, blacklist gate, reentrancy guard and cooldown,
/// amount and payment bounds, supply cap, and vault-owner consistency.
pub open spec fn mint_by_user_result(
    s: TokenState,
    b: Blacklist,
    user: Address,
    vault_owner: Address,
    amount: u64,
    now: i64,
) -> Result<MintPlan, DiamondTokenError> {
    if s.is_paused {
        Err(DiamondTokenError::ProgramPaused)
    } else if b.spec_contains(user) {
        Err(DiamondTokenError::AddressBlacklisted)
    } else {
        match start_operation_result(s, now) {
            Err(e) => Err(e),
            Ok(_) => if amount == 0 {
                Err(DiamondTokenError::InvalidAmount)
            } else if amount * TOKEN_PRICE_USDC > u64::MAX {
                Err(DiamondTokenError::MathOverflow)
            } else if amount * TOKEN_PRICE_USDC < MIN_PURCHASE_USDC {
                Err(DiamondTokenError::PurchaseAmountTooSmall)
            } else if amount * TOKEN_PRICE_USDC > MAX_PURCHASE_USDC {
                Err(DiamondTokenError::PurchaseAmountTooLarge)
            } else if s.total_supply + amount > u64::MAX {
                Err(DiamondTokenError::MathOverflow)
            } else if s.total_supply + amount > s.max_supply {
                Err(DiamondTokenError::MaxSupplyExceeded)
            } else if vault_owner != s.vault_owner {
                Err(DiamondTokenError::InvalidVaultOwner)
            } else {
                Ok(MintPlan {
                    amount,
                    payment_amount: (amount * TOKEN_PRICE_USDC) as u64,
                    new_supply: (s.total_supply + amount) as u64,
                })
            },
        }
    }
}

/// The state after the user-mint policy decision: untouched when rejected
/// before the guard was acquired; guard held when the plan was granted;
/// guard released again (with the operation time advanced) when a later
/// check rejected.
pub open spec fn mint_by_user_next(
    s: TokenState,
    b: Blacklist,
    user: Address,
    vault_owner: Address,
    amount: u64,
    now: i64,
) -> TokenState {
    if s.is_paused || b.spec_contains(user) || start_operation_result(s, now) is Err {
        s
    } else if mint_by_user_result(s, b, user, vault_owner, amount, now) is Ok {
        TokenState { in_operation: true, last_operation_timestamp: now, ..s }
    } else {
        TokenState { in_operation: false, last_operation_timestamp: now, ..s }
    }
}

/// Decide a user mint: run every policy check and, if all pass, acquire
/// the reentrancy guard and hand back the plan for the settlement rail
/// (collect the payment, issue the tokens).  The caller then calls
/// [`mint_commit`], or [`TokenState::end_operation`] if settlement failed.
///
/// The ledger is not touched here: a rejected or abandoned mint leaves the
/// supply exactly as it was.
pub fn mint_by_user(
    state: &mut TokenState,
    blacklist: &Blacklist,
    user: &Address,
    vault_owner: &Address,
    amount: u64,
    now: i64,
) -> (r: Result<MintPlan, DiamondTokenError>)
    ensures
        r == mint_by_user_result(*old(state), *blacklist, *user, *vault_owner, amount, now),
        *final(state) == mint_by_user_next(
            *old(state),
            *blacklist,
            *user,
            *vault_owner,
            amount,
            now,
        ),
        final(state).total_supply == old(state).total_supply,
        final(state).max_supply == old(state).max_supply,
        old(state).wf() ==> final(state).wf(),
        r is Ok ==> final(state).in_operation,
        r is Err && !old(state).in_operation ==> !final(state).in_operation,
        r matches Ok(plan) ==> plan.new_supply <= old(state).max_supply && plan.new_supply
            == old(state).total_supply + plan.amount && plan.payment_amount == plan.amount
            * TOKEN_PRICE_USDC && MIN_PURCHASE_USDC <= plan.payment_amount <= MAX_PURCHASE_USDC,
{
    if state.is_paused {
        return Err(DiamondTokenError::ProgramPaused);
    }
    if blacklist.contains(user) {
        return Err(DiamondTokenError::AddressBlacklisted);
    }
    state.start_operation(now)?;
    if amount == 0 {
        state.end_operation();
        return Err(DiamondTokenError::InvalidAmount);
    }
    let payment_amount = match amount.checked_mul(TOKEN_PRICE_USDC) {
        Some(p) => p,
        None => {
            state.end_operation();
            return Err(DiamondTokenError::MathOverflow);
        },
    };
    if payment_amount < MIN_PURCHASE_USDC {
        state.end_operation();
        return Err(DiamondTokenError::PurchaseAmountTooSmall);
    }
    if payment_amount > MAX_PURCHASE_USDC {
        state.end_operation();
        return Err(DiamondTokenError::PurchaseAmountTooLarge);
    }
    let new_supply = match state.total_supply.checked_add(amount) {
        Some(n) => n,
        None => {
            state.end_operation();
            return Err(DiamondTokenError::MathOverflow);
        },
    };
    if new_supply > state.max_supply {
        state.end_operation();
        return Err(DiamondTokenError::MaxSupplyExceeded);
    }
    if !(*vault_owner == state.vault_owner) {
        state.end_operation();
        return Err(DiamondTokenError::InvalidVaultOwner);
    }
    Ok(MintPlan { amount, payment_amount, new_supply })
}

/// Commit a user mint after the settlement calls succeeded: record the new
/// supply and release the guard, and report the mint event.
pub fn mint_commit(
    state: &mut TokenState,
    user: &Address,
    payment_token: &Address,
    plan: &MintPlan,
) -> (ev: TokensMinted)
    requires
        old(state).in_operation,
        plan.new_supply <= old(state).max_supply,
    ensures
        *final(state) == (TokenState {
            total_supply: plan.new_supply,
            in_operation: false,
            ..*old(state)
        }),
        final(state).wf(),
        ev == (TokensMinted {
            user: *user,
            amount: plan.amount,
            payment_amount: plan.payment_amount,
            payment_token: Some(*payment_token),
        }),
{
    state.total_supply = plan.new_supply;
    state.end_operation();
    TokensMinted {
        user: *user,
        amount: plan.amount,
        payment_amount: plan.payment_amount,
        payment_token: Some(*payment_token),
    }
}

/// Outcome of the admin-burn policy decision, with every check in the
/// order it is made: amount, reentrancy guard and cooldown, committee
/// identity, pause gate, vault balance, refund arithmetic, supply floor,
/// and refund-source balance.
pub open spec fn admin_burn_result(
    s: TokenState,
    multisig: Address,
    vault_balance: u64,
    refund_balance: u64,
    amount: u64,
    now: i64,
) -> Result<BurnPlan, DiamondTokenError> {
    if amount == 0 {
        Err(DiamondTokenError::InvalidAmount)
    } else {
        match start_operation_result(s, now) {
            Err(e) => Err(e),
            Ok(_) => if multisig != s.multisig {
                Err(DiamondTokenError::InvalidMultisig)
            } else if s.is_paused {
                Err(DiamondTokenError::ProgramPaused)
            } else if vault_balance < amount {
                Err(DiamondTokenError::InsufficientBalance)
            } else if amount * TOKEN_PRICE_USDC > u64::MAX {
                Err(DiamondTokenError::MathOverflow)
            } else if amount > s.total_supply {
                Err(DiamondTokenError::MathOverflow)
            } else if refund_balance < amount * TOKEN_PRICE_USDC {
                Err(DiamondTokenError::InsufficientFunds)
            } else {
                Ok(BurnPlan {
                    amount,
                    refund_amount: (amount * TOKEN_PRICE_USDC) as u64,
                    new_supply: (s.total_supply - amount) as u64,
                })
            },
        }
    }
}

/// The state after the admin-burn policy decision, shaped exactly as for
/// the user mint: untouched, guard held, or guard released with the
/// operation time advanced.
pub open spec fn admin_burn_next(
    s: TokenState,
    multisig: Address,
    vault_balance: u64,
    refund_balance: u64,
    amount: u64,
    now: i64,
) -> TokenState {
    if amount == 0 || start_operation_result(s, now) is Err {
        s
    } else if admin_burn_result(s, multisig, vault_balance, refund_balance, amount, now) is Ok {
        TokenState { in_operation: true, last_operation_timestamp: now, ..s }
    } else {
        TokenState { in_operation: false, last_operation_timestamp: now, ..s }
    }
}

/// Decide an admin burn: run every policy check against the committee
/// identity and the observed vault and refund-source balances and, if all
/// pass, acquire the guard and hand back the plan for the settlement rail
/// (burn from the vault, pay the refund).  The caller then calls
/// [`burn_commit`], or [`TokenState::end_operation`] if settlement failed.
///
/// The ledger is not decremented here: if a settlement call fails, the
/// supply has not moved.
pub fn admin_burn(
    state: &mut TokenState,
    multisig: &Address,
    vault_balance: u64,
    refund_balance: u64,
    amount: u64,
    now: i64,
) -> (r: Result<BurnPlan, DiamondTokenError>)
    ensures
        r == admin_burn_result(
            *old(state),
            *multisig,
            vault_balance,
            refund_balance,
            amount,
            now,
        ),
        *final(state) == admin_burn_next(
            *old(state),
            *multisig,
            vault_balance,
            refund_balance,
            amount,
            now,
        ),
        final(state).total_supply == old(state).total_supply,
        final(state).max_supply == old(state).max_supply,
        old(state).wf() ==> final(state).wf(),
        r is Ok ==> final(state).in_operation,
        r is Err && !old(state).in_operation ==> !final(state).in_operation,
        r matches Ok(plan) ==> plan.amount == amount && plan.amount <= old(state).total_supply
            && plan.new_supply == old(state).total_supply - plan.amount && plan.refund_amount
            == plan.amount * TOKEN_PRICE_USDC,
{
    if amount == 0 {
        return Err(DiamondTokenError::InvalidAmount);
    }
    state.start_operation(now)?;
    if !(*multisig == state.multisig) {
        state.end_operation();
        return Err(DiamondTokenError::InvalidMultisig);
    }
    if state.is_paused {
        state.end_operation();
        return Err(DiamondTokenError::ProgramPaused);
    }
    if vault_balance < amount {
        state.end_operation();
        return Err(DiamondTokenError::InsufficientBalance);
    }
    let refund_amount = match calculate_refund_amount(amount) {
        Ok(v) => v,
        Err(e) => {
            state.end_operation();
            return Err(e);
        },
    };
    if amount > state.total_supply {
        state.end_operation();
        return Err(DiamondTokenError::MathOverflow);
    }
    if refund_balance < refund_amount {
        state.end_operation();
        return Err(DiamondTokenError::InsufficientFunds);
    }
    let new_supply = state.total_supply - amount;
    Ok(BurnPlan { amount, refund_amount, new_supply })
}

/// Commit an admin burn after the settlement calls succeeded: record the
/// decremented supply and release the guard, and report the burn event.
pub fn burn_commit(
    state: &mut TokenState,
    admin: &Address,
    refund_token: &Address,
    plan: &BurnPlan,
) -> (ev: TokensBurned)
    requires
        old(state).in_operation,
        plan.new_supply <= old(state).total_supply,
    ensures
        *final(state) == (TokenState {
            total_supply: plan.new_supply,
            in_operation: false,
            ..*old(state)
        }),
        old(state).wf() ==> final(state).wf(),
        ev == (TokensBurned {
            admin: *admin,
            amount: plan.amount,
            refund_amount: plan.refund_amount,
            refund_token: *refund_token,
        }),
{
    state.total_supply = plan.new_supply;
    state.end_operation();
    TokensBurned {
        admin: *admin,
        amount: plan.amount,
        refund_amount: plan.refund_amount,
        refund_token: *refund_token,
    }
}

/// Refund owed for burning `amount` tokens at the fixed price, with
/// overflow detection.
pub fn calculate_refund_amount(amount: u64) -> (r: Result<u64, DiamondTokenError>)
    ensures
        amount * TOKEN_PRICE_USDC <= u64::MAX ==> r == Ok::<u64, DiamondTokenError>(
            (amount * TOKEN_PRICE_USDC) as u64,
        ),
        amount * TOKEN_PRICE_USDC > u64::MAX ==> r == Err::<u64, DiamondTokenError>(
            DiamondTokenError::MathOverflow,
        ),
{
    match amount.checked_mul(TOKEN_PRICE_USDC) {
        Some(v) => Ok(v),
        None => Err(DiamondTokenError::MathOverflow),
    }
}

/// Outcome of a pause request: rejected on a committee mismatch or when
/// already paused; granted otherwise.
pub open spec fn pause_result(s: TokenState, multisig: Address) -> Result<
    (),
    DiamondTokenError,
> {
    if multisig != s.multisig {
        Err(DiamondTokenError::InvalidMultisig)
    } else if s.is_paused {
        Err(DiamondTokenError::AlreadyPaused)
    } else {
        Ok(())
    }
}

/// The state after a pause request: paused with the pause time recorded
/// when granted; untouched when rejected.
pub open spec fn pause_next(s: TokenState, multisig: Address, now: i64) -> TokenState {
    if pause_result(s, multisig) is Ok {
        TokenState { is_paused: true, last_pause_timestamp: now, ..s }
    } else {
        s
    }
}

/// Pause token operations.  Quorum-gated: the presented committee identity
/// must match the one on record.  Rejected when already paused; on success
/// the pause time is recorded for the unpause cooldown.
pub fn pause(
    state: &mut TokenState,
    multisig: &Address,
    authority: &Address,
    now: i64,
) -> (r: Result<ProgramPaused, DiamondTokenError>)
    ensures
        *final(state) == pause_next(*old(state), *multisig, now),
        r matches Ok(ev) ==> pause_result(*old(state), *multisig) is Ok && ev == (ProgramPaused {
            authority: *authority,
            timestamp: now,
        }) && final(state).is_paused && final(state).last_pause_timestamp == now,
        r matches Err(e) ==> pause_result(*old(state), *multisig) == Err::<(), DiamondTokenError>(
            e,
        ) && *final(state) == *old(state),
        old(state).wf() ==> final(state).wf(),
{
    if !(*multisig == state.multisig) {
        return Err(DiamondTokenError::InvalidMultisig);
    }
    if state.is_paused {
        return Err(DiamondTokenError::AlreadyPaused);
    }
    state.is_paused = true;
    state.last_pause_timestamp = now;
    Ok(ProgramPaused { authority: *authority, timestamp: now })
}

/// Outcome of an unpause request: rejected on a committee mismatch, when
/// not paused, when the elapsed time since the pause is unrepresentable,
/// or before the unpause cooldown has elapsed; granted otherwise.
pub open spec fn unpause_result(s: TokenState, multisig: Address, now: i64) -> Result<
    (),
    DiamondTokenError,
> {
    if multisig != s.multisig {
        Err(DiamondTokenError::InvalidMultisig)
    } else if !s.is_paused {
        Err(DiamondTokenError::NotPaused)
    } else if now - s.last_pause_timestamp > i64::MAX || now - s.last_pause_timestamp
        < i64::MIN {
        Err(DiamondTokenError::MathOverflow)
    } else if now - s.last_pause_timestamp < UNPAUSE_COOLDOWN {
        Err(DiamondTokenError::UnpauseCooldownNotElapsed)
    } else {
        Ok(())
    }
}

/// The state after an unpause request: running again when granted;
/// untouched when rejected.
pub open spec fn unpause_next(s: TokenState, multisig: Address, now: i64) -> TokenState {
    if unpause_result(s, multisig, now) is Ok {
        TokenState { is_paused: false, ..s }
    } else {
        s
    }
}

/// Unpause token operations.  Quorum-gated, and allowed only once the
/// unpause cooldown has elapsed since the recorded pause time.
pub fn unpause(
    state: &mut TokenState,
    multisig: &Address,
    authority: &Address,
    now: i64,
) -> (r: Result<ProgramUnpaused, DiamondTokenError>)
    ensures
        *final(state) == unpause_next(*old(state), *multisig, now),
        r matches Ok(ev) ==> unpause_result(*old(state), *multisig, now) is Ok && ev
            == (ProgramUnpaused { authority: *authority, timestamp: now })
            && !final(state).is_paused,
        r matches Err(e) ==> unpause_result(*old(state), *multisig, now) == Err::<
            (),
            DiamondTokenError,
        >(e) && *final(state) == *old(state),
        old(state).wf() ==> final(state).wf(),
{
    if !(*multisig == state.multisig) {
        return Err(DiamondTokenError::InvalidMultisig);
    }
    if !state.is_paused {
        return Err(DiamondTokenError::NotPaused);
    }
    let cooldown_elapsed = match now.checked_sub(state.last_pause_timestamp) {
        Some(d) => d,
        None => {
            return Err(DiamondTokenError::MathOverflow);
        },
    };
    if cooldown_elapsed < UNPAUSE_COOLDOWN {
        return Err(DiamondTokenError::UnpauseCooldownNotElapsed);
    }
    state.is_paused = false;
    Ok(ProgramUnpaused { authority: *authority, timestamp: now })
}

/// Outcome of a supply-cap change: rejected on a committee mismatch, while
/// paused, for a zero cap, for a cap below the circulating supply, and for
/// a cap above the current one — the cap may only decrease.
pub open spec fn update_max_supply_result(
    s: TokenState,
    multisig: Address,
    new_max_supply: u64,
) -> Result<(), DiamondTokenError> {
    if multisig != s.multisig {
        Err(DiamondTokenError::InvalidMultisig)
    } else if s.is_paused {
        Err(DiamondTokenError::ProgramPaused)
    } else if new_max_supply == 0 {
        Err(DiamondTokenError::InvalidMaxSupply)
    } else if new_max_supply < s.total_supply {
        Err(DiamondTokenError::MaxSupplyReductionTooLarge)
    } else if new_max_supply > s.max_supply {
        Err(DiamondTokenError::CannotIncreaseMaxSupply)
    } else {
        Ok(())
    }
}

/// The state after a supply-cap change: the new cap when granted;
/// untouched when rejected.
pub open spec fn update_max_supply_next(
    s: TokenState,
    multisig: Address,
    new_max_supply: u64,
) -> TokenState {
    if update_max_supply_result(s, multisig, new_max_supply) is Ok {
        TokenState { max_supply: new_max_supply, ..s }
    } else {
        s
    }
}

/// Lower the supply cap.  Quorum-gated; the new cap must be positive, at
/// least the circulating supply, and no higher than the current cap.
pub fn update_max_supply(
    state: &mut TokenState,
    multisig: &Address,
    authority: &Address,
    new_max_supply: u64,
) -> (r: Result<MaxSupplyUpdated, DiamondTokenError>)
    ensures
        *final(state) == update_max_supply_next(*old(state), *multisig, new_max_supply),
        r matches Ok(ev) ==> update_max_supply_result(*old(state), *multisig, new_max_supply)
            is Ok && ev == (MaxSupplyUpdated {
            authority: *authority,
            old_max_supply: old(state).max_supply,
            new_max_supply: new_max_supply,
        }) && final(state).max_supply == new_max_supply,
        r matches Err(e) ==> update_max_supply_result(*old(state), *multisig, new_max_supply)
            == Err::<(), DiamondTokenError>(e) && *final(state) == *old(state),
        final(state).wf() || *final(state) == *old(state),
        old(state).wf() ==> final(state).wf(),
{
    if !(*multisig == state.multisig) {
        return Err(DiamondTokenError::InvalidMultisig);
    }
    if state.is_paused {
        return Err(DiamondTokenError::ProgramPaused);
    }
    if new_max_supply == 0 {
        return Err(DiamondTokenError::InvalidMaxSupply);
    }
    if new_max_supply < state.total_supply {
        return Err(DiamondTokenError::MaxSupplyReductionTooLarge);
    }
    if new_max_supply > state.max_supply {
        return Err(DiamondTokenError::CannotIncreaseMaxSupply);
    }
    let old_max_supply = state.max_supply;
    state.max_supply = new_max_supply;
    Ok(MaxSupplyUpdated {
        authority: *authority,
        old_max_supply,
        new_max_supply,
    })
}

/// Outcome of a blacklist addition, with every check in the order it is
/// made: reentrancy guard and cooldown, committee identity, pause gate,
/// membership, and the registry bound.
pub open spec fn add_to_blacklist_result(
    s: TokenState,
    b: Blacklist,
    multisig: Address,
    address: Address,
    now: i64,
) -> Result<(), DiamondTokenError> {
    match start_operation_result(s, now) {
        Err(e) => Err(e),
        Ok(_) => if multisig != s.multisig {
            Err(DiamondTokenError::InvalidMultisig)
        } else if s.is_paused {
            Err(DiamondTokenError::ProgramPaused)
        } else if b.spec_contains(address) {
            Err(DiamondTokenError::AddressAlreadyBlacklisted)
        } else if b.addresses@.len() >= MAX_BLACKLIST_SIZE {
            Err(DiamondTokenError::BlacklistFull)
        } else {
            Ok(())
        },
    }
}

/// The issuance state after a blacklist mutation: untouched when the guard
/// was never acquired; otherwise the guard is released again with the
/// operation time advanced.
pub open spec fn blacklist_op_next_state(s: TokenState, now: i64) -> TokenState {
    if start_operation_result(s, now) is Err {
        s
    } else {
        TokenState { in_operation: false, last_operation_timestamp: now, ..s }
    }
}

/// Add an identity to the blacklist.  Quorum-gated, guarded against
/// reentrancy, rejected while paused, and bounded: a present identity or a
/// full registry rejects.
pub fn add_to_blacklist(
    state: &mut TokenState,
    blacklist: &mut Blacklist,
    multisig: &Address,
    authority: &Address,
    address: Address,
    now: i64,
) -> (r: Result<BlacklistUpdated, DiamondTokenError>)
    ensures
        *final(state) == blacklist_op_next_state(*old(state), now),
        r matches Ok(ev) ==> add_to_blacklist_result(
            *old(state),
            *old(blacklist),
            *multisig,
            address,
            now,
        ) is Ok && ev == (BlacklistUpdated {
            authority: *authority,
            address: address,
            action: BlacklistAction::Added,
        }) && final(blacklist).addresses@ == old(blacklist).addresses@.push(address),
        r matches Err(e) ==> add_to_blacklist_result(
            *old(state),
            *old(blacklist),
            *multisig,
            address,
            now,
        ) == Err::<(), DiamondTokenError>(e) && final(blacklist).addresses@ == old(
            blacklist,
        ).addresses@,
        final(blacklist).bump == old(blacklist).bump,
        old(blacklist).wf() ==> final(blacklist).wf(),
        old(state).wf() ==> final(state).wf(),
        !old(state).in_operation ==> !final(state).in_operation,
{
    state.start_operation(now)?;
    if !(*multisig == state.multisig) {
        state.end_operation();
        return Err(DiamondTokenError::InvalidMultisig);
    }
    if state.is_paused {
        state.end_operation();
        return Err(DiamondTokenError::ProgramPaused);
    }
    match blacklist.add(address) {
        Ok(_) => {},
        Err(e) => {
            state.end_operation();
            return Err(e);
        },
    }
    state.end_operation();
    Ok(BlacklistUpdated {
        authority: *authority,
        address: address,
        action: BlacklistAction::Added,
    })
}

/// Outcome of a blacklist removal, with every check in the order it is
/// made: reentrancy guard and cooldown, committee identity, pause gate,
/// and membership.
pub open spec fn remove_from_blacklist_result(
    s: TokenState,
    b: Blacklist,
    multisig: Address,
    address: Address,
    now: i64,
) -> Result<(), DiamondTokenError> {
    match start_operation_result(s, now) {
        Err(e) => Err(e),
        Ok(_) => if multisig != s.multisig {
            Err(DiamondTokenError::InvalidMultisig)
        } else if s.is_paused {
            Err(DiamondTokenError::ProgramPaused)
        } else if !b.spec_contains(address) {
            Err(DiamondTokenError::AddressNotBlacklisted)
        } else {
            Ok(())
        },
    }
}

/// Remove an identity from the blacklist.  Quorum-gated, guarded against
/// reentrancy, rejected while paused; an absent identity rejects.  On a
/// well-formed registry the remaining entries are exactly the old ones
/// less the removed identity.
pub fn remove_from_blacklist(
    state: &mut TokenState,
    blacklist: &mut Blacklist,
    multisig: &Address,
    authority: &Address,
    address: Address,
    now: i64,
) -> (r: Result<BlacklistUpdated, DiamondTokenError>)
    ensures
        *final(state) == blacklist_op_next_state(*old(state), now),
        r matches Ok(ev) ==> remove_from_blacklist_result(
            *old(state),
            *old(blacklist),
            *multisig,
            address,
            now,
        ) is Ok && ev == (BlacklistUpdated {
            authority: *authority,
            address: address,
            action: BlacklistAction::Removed,
        }) && final(blacklist).addresses@.len() == old(blacklist).addresses@.len() - 1,
        r matches Err(e) ==> remove_from_blacklist_result(
            *old(state),
            *old(blacklist),
            *multisig,
            address,
            now,
        ) == Err::<(), DiamondTokenError>(e) && final(blacklist).addresses@ == old(
            blacklist,
        ).addresses@,
        old(blacklist).wf() && r is Ok ==> final(blacklist).entries() == old(
            blacklist,
        ).entries().remove(address),
        old(blacklist).wf() ==> forall|x: Address|
            final(blacklist).spec_contains(x) <==> (old(blacklist).spec_contains(x) && (r is Ok
                ==> x != address)),
        final(blacklist).bump == old(blacklist).bump,
        old(blacklist).wf() ==> final(blacklist).wf(),
        old(state).wf() ==> final(state).wf(),
        !old(state).in_operation ==> !final(state).in_operation,
{
    state.start_operation(now)?;
    if !(*multisig == state.multisig) {
        state.end_operation();
        return Err(DiamondTokenError::InvalidMultisig);
    }
    if state.is_paused {
        state.end_operation();
        return Err(DiamondTokenError::ProgramPaused);
    }
    match blacklist.remove(&address) {
        Ok(_) => {},
        Err(e) => {
            state.end_operation();
            return Err(e);
        },
    }
    state.end_operation();
    Ok(BlacklistUpdated {
        authority: *authority,
        address: address,
        action: BlacklistAction::Removed,
    })
}

/// A valid item identifier: non-empty and at most 32 bytes.
pub open spec fn valid_item_id(item_id: &str) -> bool {
    1 <= item_id.spec_bytes().len() <= 32
}

/// Validate an item identifier for a purchase.
pub fn validate_item_id(item_id: &str) -> (r: Result<(), DiamondTokenError>)
    ensures
        r is Ok <==> valid_item_id(item_id),
        r is Err ==> r == Err::<(), DiamondTokenError>(DiamondTokenError::InvalidAmount),
{
    let bytes = item_id.as_bytes();
    if bytes.len() == 0 {
        return Err(DiamondTokenError::InvalidAmount);
    }
    if bytes.len() > 32 {
        return Err(DiamondTokenError::InvalidAmount);
    }
    Ok(())
}

/// Outcome of the item-purchase policy decision, with every check in the
/// order it is made: amount, item identifier, pause gate, reentrancy guard
/// and cooldown, and vault-owner consistency.
pub open spec fn purchase_item_result(
    s: TokenState,
    vault_account_owner: Address,
    amount: u64,
    item_id: &str,
    now: i64,
) -> Result<(), DiamondTokenError> {
    if amount == 0 {
        Err(DiamondTokenError::InvalidAmount)
    } else if !valid_item_id(item_id) {
        Err(DiamondTokenError::InvalidAmount)
    } else if s.is_paused {
        Err(DiamondTokenError::ProgramPaused)
    } else {
        match start_operation_result(s, now) {
            Err(e) => Err(e),
            Ok(_) => if vault_account_owner != s.vault_owner {
                Err(DiamondTokenError::InvalidVaultOwner)
            } else {
                Ok(())
            },
        }
    }
}

/// The state after the item-purchase policy decision: untouched when
/// rejected before the guard was acquired; guard held when granted; guard
/// released again when the vault-owner check rejected.
pub open spec fn purchase_item_next(
    s: TokenState,
    vault_account_owner: Address,
    amount: u64,
    item_id: &str,
    now: i64,
) -> TokenState {
    if amount == 0 || !valid_item_id(item_id) || s.is_paused || start_operation_result(s, now)
        is Err {
        s
    } else if purchase_item_result(s, vault_account_owner, amount, item_id, now) is Ok {
        TokenState { in_operation: true, last_operation_timestamp: now, ..s }
    } else {
        TokenState { in_operation: false, last_operation_timestamp: now, ..s }
    }
}

/// Decide an item purchase: the user sends tokens to the vault in exchange
/// for goods.  Every policy check runs here and, if all pass, the guard is
/// acquired for the settlement transfer.  The caller then calls
/// [`purchase_commit`], or [`TokenState::end_operation`] if the transfer
/// failed.  The supply counters are not involved.
pub fn purchase_item(
    state: &mut TokenState,
    vault_account_owner: &Address,
    amount: u64,
    item_id: &str,
    now: i64,
) -> (r: Result<(), DiamondTokenError>)
    ensures
        r == purchase_item_result(*old(state), *vault_account_owner, amount, item_id, now),
        *final(state) == purchase_item_next(
            *old(state),
            *vault_account_owner,
            amount,
            item_id,
            now,
        ),
        final(state).total_supply == old(state).total_supply,
        final(state).max_supply == old(state).max_supply,
        old(state).wf() ==> final(state).wf(),
        r is Ok ==> final(state).in_operation,
        r is Err && !old(state).in_operation ==> !final(state).in_operation,
{
    if amount == 0 {
        return Err(DiamondTokenError::InvalidAmount);
    }
    validate_item_id(item_id)?;
    if state.is_paused {
        return Err(DiamondTokenError::ProgramPaused);
    }
    state.start_operation(now)?;
    if !(*vault_account_owner == state.vault_owner) {
        state.end_operation();
        return Err(DiamondTokenError::InvalidVaultOwner);
    }
    Ok(())
}

/// Finish an item purchase after the settlement transfer succeeded:
/// release the guard and report the purchase event.
pub fn purchase_commit(
    state: &mut TokenState,
    user: &Address,
    amount: u64,
    item_id: String,
) -> (ev: ItemPurchased)
    requires
        old(state).in_operation,
    ensures
        *final(state) == (TokenState { in_operation: false, ..*old(state) }),
        ev.user == *user,
        ev.amount == amount,
        ev.item_id@ == item_id@,
{
    state.end_operation();
    ItemPurchased { user: *user, amount, item_id }
}

/// Outcome of the transfer-guard check: a zero amount is invalid, a
/// blacklisted source or destination is denied, and anything else is
/// approved.  Consulted on every value movement, independently of the
/// other components.
pub open spec fn on_transfer_hook_result(
    b: Blacklist,
    source_owner: Address,
    destination_owner: Address,
    amount: u64,
) -> Result<(), DiamondTokenError> {
    if amount == 0 {
        Err(DiamondTokenError::InvalidAmount)
    } else if b.spec_contains(source_owner) {
        Err(DiamondTokenError::SourceAddressBlacklisted)
    } else if b.spec_contains(destination_owner) {
        Err(DiamondTokenError::DestinationAddressBlacklisted)
    } else {
        Ok(())
    }
}

/// The transfer guard: deny a transfer whose source or destination is
/// blacklisted, approve anything else and signal the audit event.  Pure:
/// consults the registry and nothing else.
pub fn on_transfer_hook(
    blacklist: &Blacklist,
    source_owner: &Address,
    destination_owner: &Address,
    amount: u64,
) -> (r: Result<TransferHookExecuted, DiamondTokenError>)
    ensures
        r matches Ok(ev) ==> on_transfer_hook_result(
            *blacklist,
            *source_owner,
            *destination_owner,
            amount,
        ) is Ok && ev == (TransferHookExecuted {
            source: *source_owner,
            destination: *destination_owner,
            amount: amount,
        }),
        r matches Err(e) ==> on_transfer_hook_result(
            *blacklist,
            *source_owner,
            *destination_owner,
            amount,
        ) == Err::<(), DiamondTokenError>(e),
{
    if amount == 0 {
        return Err(DiamondTokenError::InvalidAmount);
    }
    if blacklist.contains(source_owner) {
        return Err(DiamondTokenError::SourceAddressBlacklisted);
    }
    if blacklist.contains(destination_owner) {
        return Err(DiamondTokenError::DestinationAddressBlacklisted);
    }
    Ok(TransferHookExecuted {
        source: *source_owner,
        destination: *destination_owner,
        amount: amount,
    })
}

/// Outcome of the reserve check: the expected backing is the circulating
/// supply at the fixed price; an unrepresentable product or a backing
/// balance short of it fails.
pub open spec fn verify_reserve_result(s: TokenState, vault_balance: u64) -> Result<
    (),
    DiamondTokenError,
> {
    if s.total_supply * TOKEN_PRICE_USDC > u64::MAX {
        Err(DiamondTokenError::MathOverflow)
    } else if vault_balance < s.total_supply * TOKEN_PRICE_USDC {
        Err(DiamondTokenError::InsufficientReserve)
    } else {
        Ok(())
    }
}

/// Verify that the circulating supply is backed by an equivalent reserve
/// balance.  Read-only: available while paused.
pub fn verify_reserve(
    state: &TokenState,
    vault_balance: u64,
    reserve_token: &Address,
) -> (r: Result<ReserveVerified, DiamondTokenError>)
    ensures
        r matches Ok(ev) ==> verify_reserve_result(*state, vault_balance) is Ok && ev
            == (ReserveVerified {
            total_supply: state.total_supply,
            reserve_amount: vault_balance,
            reserve_token: *reserve_token,
        }),
        r matches Err(e) ==> verify_reserve_result(*state, vault_balance) == Err::<
            (),
            DiamondTokenError,
        >(e),
{
    let expected_reserve = match state.total_supply.checked_mul(TOKEN_PRICE_USDC) {
        Some(v) => v,
        None => {
            return Err(DiamondTokenError::MathOverflow);
        },
    };
    if vault_balance < expected_reserve {
        return Err(DiamondTokenError::InsufficientReserve);
    }
    Ok(ReserveVerified {
        total_supply: state.total_supply,
        reserve_amount: vault_balance,
        reserve_token: *reserve_token,
    })
}

/// Outcome of a close request: only the administrative authority may
/// destroy the issuance state, and only while the token is paused.
pub open spec fn close_token_state_result(s: TokenState, authority: Address) -> Result<
    (),
    DiamondTokenError,
> {
    if s.authority != authority {
        Err(DiamondTokenError::NotAuthorized)
    } else if !s.is_paused {
        Err(DiamondTokenError::ProgramPaused)
    } else {
        Ok(())
    }
}

/// Approve closing the issuance state: sole-authority gated and allowed
/// only while paused.  The account destruction itself is plumbing outside
/// this engine.
pub fn close_token_state(state: &TokenState, authority: &Address) -> (r: Result<
    (),
    DiamondTokenError,
>)
    ensures
        r == close_token_state_result(*state, *authority),
{
    if !state.is_admin(authority) {
        return Err(DiamondTokenError::NotAuthorized);
    }
    if !state.is_paused {
        return Err(DiamondTokenError::ProgramPaused);
    }
    Ok(())
}

} // verus!
