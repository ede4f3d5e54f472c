//! The named failure codes a registration call can surface.

use vstd::prelude::*;

verus! {

/// Every way a call can fail. A failing call reports exactly one of these and
/// leaves all state as it was before the call.
#[derive(Clone, Copy, PartialEq, Eq, Structural, Debug)]
pub enum ErrorCode {
    /// State account already initialized.
    AlreadyInitialized,
    /// Invalid state account (must be owned by program).
    InvalidStateAccount,
    /// Invalid state account size.
    InvalidStateSize,
    /// Invalid vault A LP address.
    InvalidVaultALpAddress,
    /// Invalid vault A LP mint address.
    InvalidVaultALpMintAddress,
    /// Invalid token A vault address.
    InvalidTokenAVaultAddress,
    /// Referrer account is not registered.
    ReferrerNotRegistered,
    /// Invalid upline relationship.
    InvalidUpline,
    /// Invalid upline depth.
    InvalidUplineDepth,
    /// Not authorized.
    NotAuthorized,
    /// Chain is already full.
    ChainFull,
    /// Slot account not owned by program.
    InvalidSlotOwner,
    /// Slot account not registered.
    SlotNotRegistered,
    /// Invalid referrer in chain slot.
    InvalidSlotReferrer,
    /// Cannot load upline account.
    CannotLoadUplineAccount,
    /// Invalid account discriminator.
    InvalidAccountDiscriminator,
    /// Insufficient deposit amount.
    InsufficientDeposit,
    /// Failed to process deposit to pool.
    DepositToPoolFailed,
    /// Failed to process native-asset reserve.
    SolReserveFailed,
    /// Failed to process referrer payment.
    ReferrerPaymentFailed,
    /// Failed to wrap the native asset.
    WrapSolFailed,
    /// Failed to unwrap the native asset.
    UnwrapSolFailed,
    /// Failed to mint tokens.
    TokenMintFailed,
    /// Failed to transfer tokens.
    TokenTransferFailed,
    /// Invalid pool address.
    InvalidPoolAddress,
    /// Invalid vault address.
    InvalidVaultAddress,
    /// Invalid token mint address.
    InvalidTokenMintAddress,
    /// Invalid token account.
    InvalidTokenAccount,
    /// Invalid wallet for the associated token account.
    InvalidWalletForATA,
    /// Failed to create upline entry.
    UplineEntryCreationFailed,
    /// Missing required account for upline.
    MissingUplineAccount,
    /// Payment wallet is not a system account.
    PaymentWalletInvalid,
    /// Token account is not a valid associated token account.
    TokenAccountInvalid,
    /// Missing vault A accounts.
    MissingVaultAAccounts,
    /// Failed to read price feed.
    PriceFeedReadFailed,
    /// Price feed too old.
    PriceFeedTooOld,
    /// Invalid oracle program.
    InvalidChainlinkProgram,
    /// Invalid price feed.
    InvalidPriceFeed,
    /// Wrapped-asset account not provided when required.
    MissingWsolAccount,
    /// Invalid wrapped-asset account.
    InvalidWsolAccount,
}

} // verus!
