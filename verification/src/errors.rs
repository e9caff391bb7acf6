//! Error taxonomy of the engine: validation, authorization, state-invariant
//! and arithmetic failures. Every operation rejects before mutating, so an
//! error always leaves the records as they were.

use vstd::prelude::*;

verus! {

/// Reason an operation was refused. No error is retried by the engine;
/// a failed operation leaves all records untouched.
#[derive(Clone, Copy, Debug, PartialEq, Eq, Structural)]
pub enum TokenError {
    /// Wallet has no allowlist entry.
    NotOnAllowlist,
    /// Wallet's allowlist entry is not `Active`.
    WalletNotActive,
    /// Sender is not approved for transfers.
    SenderNotApproved,
    /// Recipient is not approved for transfers.
    RecipientNotApproved,
    /// Wallet already has an allowlist entry.
    AlreadyOnAllowlist,
    /// Token transfers are paused.
    TransfersPaused,
    /// Wallet is in its lockout period.
    InLockoutPeriod,
    /// Transfer would exceed the wallet's daily limit.
    DailyLimitExceeded,
    /// Transfer would exceed the wallet's maximum balance.
    MaxBalanceExceeded,
    /// Insufficient balance.
    InsufficientBalance,
    /// Unvested tokens cannot be transferred.
    UnvestedTokensLocked,
    /// Vesting schedule was already terminated.
    AlreadyTerminated,
    /// Vesting schedule is not revocable.
    NotRevocable,
    /// No tokens are available to release.
    NoTokensToRelease,
    /// Cliff period not yet reached.
    CliffNotReached,
    /// Vesting duration does not allow at least one interval.
    InvalidVestingDuration,
    /// Termination notes exceed 200 characters.
    TerminationNotesTooLong,
    /// The feature is not enabled for this token.
    FeatureDisabled,
    /// Dividend was already claimed by this wallet.
    AlreadyClaimed,
    /// Dividend round has expired.
    DividendExpired,
    /// Dividend round is not active.
    DividendNotActive,
    /// No dividend entitlement.
    NoEntitlement,
    /// Insufficient funds in the source account.
    InsufficientFunds,
    /// Insufficient funds in the dividend pool.
    InsufficientPoolFunds,
    /// Split ratio must be at least 2.
    InvalidSplitRatio,
    /// A split is already in progress.
    SplitInProgress,
    /// Symbol cannot be empty.
    SymbolEmpty,
    /// Symbol exceeds 10 characters.
    SymbolTooLong,
    /// Caller is not authorized.
    Unauthorized,
    /// Arithmetic overflow.
    MathOverflow,
    /// Amount must be positive.
    InvalidAmount,
}

impl TokenError {
    /// Human-readable reason, suitable for a blocked-transfer notification.
    pub fn reason(&self) -> &'static str {
        match self {
            TokenError::NotOnAllowlist => "Wallet is not on the allowlist",
            TokenError::WalletNotActive => "Wallet is not active on allowlist",
            TokenError::SenderNotApproved => "Sender is not approved for transfers",
            TokenError::RecipientNotApproved => "Recipient is not approved for transfers",
            TokenError::AlreadyOnAllowlist => "Wallet is already on allowlist",
            TokenError::TransfersPaused => "Token transfers are paused",
            TokenError::InLockoutPeriod => "Wallet is in lockout period",
            TokenError::DailyLimitExceeded => "Transfer exceeds daily limit",
            TokenError::MaxBalanceExceeded => "Transfer would exceed maximum balance",
            TokenError::InsufficientBalance => "Insufficient balance",
            TokenError::UnvestedTokensLocked => "Cannot transfer unvested tokens",
            TokenError::AlreadyTerminated => "Vesting schedule already terminated",
            TokenError::NotRevocable => "Vesting schedule is not revocable",
            TokenError::NoTokensToRelease => "No tokens available to release",
            TokenError::CliffNotReached => "Cliff period not yet reached",
            TokenError::InvalidVestingDuration => "Invalid vesting duration",
            TokenError::TerminationNotesTooLong => {
                "Termination notes too long (max 200 characters)"
            },
            TokenError::FeatureDisabled => "This feature is not enabled for this token",
            TokenError::AlreadyClaimed => "Dividend already claimed",
            TokenError::DividendExpired => "Dividend round expired",
            TokenError::DividendNotActive => "Dividend round is not active",
            TokenError::NoEntitlement => "No dividend entitlement",
            TokenError::InsufficientFunds => "Insufficient funds in source account",
            TokenError::InsufficientPoolFunds => "Insufficient funds in dividend pool",
            TokenError::InvalidSplitRatio => "Invalid split ratio",
            TokenError::SplitInProgress => "Split already in progress",
            TokenError::SymbolEmpty => "Symbol cannot be empty",
            TokenError::SymbolTooLong => "Symbol too long (max 10 characters)",
            TokenError::Unauthorized => "Unauthorized",
            TokenError::MathOverflow => "Math overflow",
            TokenError::InvalidAmount => "Invalid amount",
        }
    }
}

} // verus!
