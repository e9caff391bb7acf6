//! The equity descriptor: symbol, name, supply, split multiplier, feature
//! flags and pause state, together with the corporate actions and admin
//! operations that mutate it.

use vstd::prelude::*;
use vstd::string::StrSliceExecFns;
use crate::errors::TokenError;

verus! {

/// Longest permitted ticker symbol, in characters.
pub const MAX_SYMBOL_CHARS: usize = 10;

/// Longest permitted token name, in characters.
pub const MAX_NAME_CHARS: usize = 50;

/// Feature switches chosen at issuance.
#[derive(Clone, Copy, Debug, PartialEq, Eq, Structural)]
pub struct TokenFeatures {
    /// Allow vesting schedules.
    pub vesting_enabled: bool,
    /// Allow on-chain governance.
    pub governance_enabled: bool,
    /// Allow dividend distribution.
    pub dividends_enabled: bool,
    /// Allow daily limits and lockouts.
    pub transfer_restrictions_enabled: bool,
    /// Allow program upgrades.
    pub upgradeable: bool,
}

/// Shared descriptor of one equity token. Identities (authority, mint) are
/// opaque wallet identifiers assigned by the surrounding runtime.
#[derive(Clone, Debug, PartialEq)]
pub struct TokenConfig {
    /// Sequential id assigned at issuance.
    pub token_id: u64,
    /// Administrative authority identity.
    pub authority: u64,
    /// Identity of the underlying ledger mint.
    pub mint: u64,
    /// Ticker symbol, at most 10 characters.
    pub symbol: String,
    /// Token name, at most 50 characters.
    pub name: String,
    /// Token decimals.
    pub decimals: u8,
    /// Current total supply.
    pub total_supply: u64,
    /// Cumulative product of all applied split ratios; at least 1.
    pub split_multiplier: u64,
    /// Enabled features.
    pub features: TokenFeatures,
    /// Emergency pause: blocks mints and transfers.
    pub is_paused: bool,
    /// Seconds before an upgrade executes.
    pub upgrade_timelock: i64,
    /// Creation timestamp.
    pub created_at: i64,
}

impl TokenConfig {
    /// Descriptor validity: string limits hold and the split multiplier is
    /// a product of ratios, hence at least 1.
    pub open spec fn wf(&self) -> bool {
        &&& self.symbol@.len() <= MAX_SYMBOL_CHARS
        &&& self.name@.len() <= MAX_NAME_CHARS
        &&& self.split_multiplier >= 1
    }
}

/// Pauses or unpauses mints and transfers; nothing else changes.
pub fn set_token_paused(config: &mut TokenConfig, paused: bool)
    ensures
        *final(config) == (TokenConfig { is_paused: paused, ..*old(config) }),
{
    config.is_paused = paused;
}

/// Applies a finalized stock split: multiplies the book total supply and the
/// cumulative split multiplier by the ratio. Per-holder balances are scaled
/// separately by the ledger service in batches; this is the authoritative
/// bookkeeping step.
pub fn finalize_split(config: &mut TokenConfig, split_ratio: u8) -> (r: Result<(), TokenError>)
    ensures
        split_ratio <= 1 ==> r == Err::<(), TokenError>(TokenError::InvalidSplitRatio),
        split_ratio > 1 && (old(config).total_supply * split_ratio > u64::MAX
            || old(config).split_multiplier * split_ratio > u64::MAX) ==> r == Err::<
            (),
            TokenError,
        >(TokenError::MathOverflow),
        r is Err ==> *final(config) == *old(config),
        split_ratio > 1 && old(config).total_supply * split_ratio <= u64::MAX && old(
            config,
        ).split_multiplier * split_ratio <= u64::MAX ==> r is Ok,
        r is Ok ==> split_ratio > 1 && *final(config) == (TokenConfig {
            total_supply: (old(config).total_supply * split_ratio) as u64,
            split_multiplier: (old(config).split_multiplier * split_ratio) as u64,
            ..*old(config)
        }),
{
    if split_ratio <= 1 {
        return Err(TokenError::InvalidSplitRatio);
    }
    let ratio = split_ratio as u64;
    let new_supply = match config.total_supply.checked_mul(ratio) {
        Some(s) => s,
        None => {
            return Err(TokenError::MathOverflow);
        },
    };
    let new_multiplier = match config.split_multiplier.checked_mul(ratio) {
        Some(m) => m,
        None => {
            return Err(TokenError::MathOverflow);
        },
    };
    config.total_supply = new_supply;
    config.split_multiplier = new_multiplier;
    Ok(())
}

/// Replaces the ticker symbol. Rejects an empty or over-long symbol; supply
/// and every numeric invariant are untouched.
pub fn change_symbol(config: &mut TokenConfig, new_symbol: String) -> (r: Result<
    (),
    TokenError,
>)
    requires
        old(config).wf(),
    ensures
        final(config).wf(),
        new_symbol@.len() == 0 ==> r == Err::<(), TokenError>(TokenError::SymbolEmpty),
        new_symbol@.len() > MAX_SYMBOL_CHARS ==> r == Err::<(), TokenError>(
            TokenError::SymbolTooLong,
        ),
        r is Err ==> *final(config) == *old(config),
        1 <= new_symbol@.len() <= MAX_SYMBOL_CHARS ==> r is Ok,
        r is Ok ==> 1 <= new_symbol@.len() <= MAX_SYMBOL_CHARS && *final(config) == (TokenConfig {
            symbol: new_symbol,
            ..*old(config)
        }),
{
    let chars = new_symbol.as_str().unicode_len();
    if chars == 0 {
        return Err(TokenError::SymbolEmpty);
    }
    if chars > MAX_SYMBOL_CHARS {
        return Err(TokenError::SymbolTooLong);
    }
    config.symbol = new_symbol;
    Ok(())
}

/// Validates one batch step of per-holder split processing and reports how
/// many accounts this batch covers. The actual balance scaling is performed
/// by the external ledger service, account by account, and is best-effort;
/// the count is informational only.
pub fn execute_split_batch(split_ratio: u8, accounts_in_batch: u32) -> (r: Result<
    u32,
    TokenError,
>)
    ensures
        split_ratio <= 1 ==> r == Err::<u32, TokenError>(TokenError::InvalidSplitRatio),
        split_ratio > 1 ==> r == Ok::<u32, TokenError>(accounts_in_batch),
{
    if split_ratio <= 1 {
        return Err(TokenError::InvalidSplitRatio);
    }
    Ok(accounts_in_batch)
}

} // verus!
