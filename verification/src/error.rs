//! Closed sum type of every failure the policy engine can report.
//!
//! Grouped by taxonomy: authorization, policy-state, arithmetic,
//! amount-bounds, membership, consistency, and resource errors.  Every
//! failure is local and synchronous: the triggering call returns a specific
//! error kind and no partial state is ever committed.

use vstd::prelude::*;

verus! {

#[derive(Clone, Copy, Debug, PartialEq, Eq, Structural)]
pub enum DiamondTokenError {
    /// The multisig threshold or owner count does not match the 3-of-5 policy.
    InvalidMultisigThreshold,
    /// The token state record is inconsistent.
    InvalidTokenState,
    /// The blacklist record does not match the one on record.
    InvalidBlacklist,
    /// The acting address is blacklisted.
    AddressBlacklisted,
    /// The payment token is not the accepted payment currency.
    InvalidPaymentToken,
    /// The token account owner does not match the expected owner.
    InvalidOwner,
    /// The address is already in the blacklist.
    AddressAlreadyBlacklisted,
    /// The address is not in the blacklist.
    AddressNotBlacklisted,
    /// The blacklist already holds the maximum number of entries.
    BlacklistFull,
    /// A vault balance is smaller than the requested amount.
    InsufficientBalance,
    /// The backing reserve is smaller than the supply requires.
    InsufficientReserve,
    /// The requested amount is zero or otherwise invalid.
    InvalidAmount,
    /// A token account does not match the expected mint.
    InvalidTokenAccount,
    /// The purchase payment is below the minimum.
    PurchaseAmountTooSmall,
    /// The purchase payment is above the maximum.
    PurchaseAmountTooLarge,
    /// Minting would push the supply over the cap.
    MaxSupplyExceeded,
    /// The supply cap may only be decreased.
    CannotIncreaseMaxSupply,
    /// The new supply cap is zero.
    InvalidMaxSupply,
    /// The new supply cap is below the current supply.
    MaxSupplyReductionTooLarge,
    /// Operations are suspended while the token is paused.
    ProgramPaused,
    /// The mint does not carry the required number of decimals.
    InvalidDecimals,
    /// A checked arithmetic operation overflowed or underflowed.
    MathOverflow,
    /// The token is already paused.
    AlreadyPaused,
    /// The token is not paused.
    NotPaused,
    /// The caller is not the administrative authority.
    NotAuthorized,
    /// A refund source balance is smaller than the refund requires.
    InsufficientFunds,
    /// The vault owner does not match the one on record.
    InvalidVaultOwner,
    /// The presented authority does not match the one on record.
    InvalidAuthority,
    /// The presented multisig identity does not match the one on record.
    InvalidMultisig,
    /// The multisig quorum verification failed.
    MultisigVerificationFailed,
    /// The transfer source address is blacklisted.
    SourceAddressBlacklisted,
    /// The transfer destination address is blacklisted.
    DestinationAddressBlacklisted,
    /// The unpause cooldown has not elapsed since the last pause.
    UnpauseCooldownNotElapsed,
    /// The token program version is not the required one.
    InvalidTokenVersion,
    /// The reentrancy guard is already held: a nested call was rejected.
    ReentrancyNotAllowed,
    /// The cooldown since the last guarded operation has not elapsed.
    OperationCooldownNotElapsed,
    /// The multisig transaction record is invalid.
    InvalidMultisigTransaction,
    /// A supplied timestamp is invalid.
    InvalidTimestamp,
    /// A required multisig signer is missing.
    MissingMultisigSigner,
    /// The multisig record was already initialized.
    MultisigAlreadyInitialized,
    /// The transfer hook rejected the transfer.
    TransferHookError,
    /// The provided token program is not the expected one.
    InvalidTokenProgram,
}

} // verus!
