//! The transfer and mint paths: every movement of tokens first passes the
//! pause flag, the compliance registry (both parties must resolve
//! `Active`), and the sender's restrictions. This module decides and does
//! the accounting; the actual movement on the ledger is the external
//! transfer service's work and happens only after a transfer is approved.

use vstd::prelude::*;
use crate::errors::TokenError;
use crate::config::TokenConfig;
use crate::allowlist::AllowlistRegistry;
use crate::allowlist::AllowlistStatus;
use crate::restrictions::RestrictionsRegistry;
use crate::restrictions::WalletRestrictions;

verus! {

/// Why a transfer is refused, if it is, in the order the checks run:
/// pause, sender approval, recipient approval, amount, then the sender's
/// restrictions (`None` in the restrictions slot means the sender has no
/// record and is unrestricted).
pub open spec fn transfer_error(
    config: TokenConfig,
    allowlist: AllowlistRegistry,
    sender_restrictions: Option<WalletRestrictions>,
    sender: u64,
    recipient: u64,
    amount: int,
    now: int,
) -> Option<TokenError> {
    if config.is_paused {
        Some(TokenError::TransfersPaused)
    } else if !allowlist.spec_is_active(sender) {
        Some(TokenError::SenderNotApproved)
    } else if !allowlist.spec_is_active(recipient) {
        Some(TokenError::RecipientNotApproved)
    } else if amount <= 0 {
        Some(TokenError::InvalidAmount)
    } else {
        match sender_restrictions {
            Some(r) => r.restriction_error(amount, now),
            None => None,
        }
    }
}

/// The sender's restriction record as the transfer path sees it: the
/// record, or `None` for an unrestricted wallet.
pub open spec fn sender_record(restrictions: RestrictionsRegistry, sender: u64) -> Option<
    WalletRestrictions,
> {
    if restrictions.has_wallet(sender) {
        Some(restrictions.entry_for(sender))
    } else {
        None
    }
}

/// Checks and accounts a transfer of `amount` from `sender` to `recipient`
/// at `now`. On success the sender's daily window is charged; on any
/// refusal nothing changes. The caller then moves the tokens through the
/// external ledger service only on `Ok`.
pub fn transfer_tokens(
    config: &TokenConfig,
    allowlist: &AllowlistRegistry,
    restrictions: &mut RestrictionsRegistry,
    sender: u64,
    recipient: u64,
    amount: u64,
    now: i64,
) -> (r: Result<(), TokenError>)
    requires
        allowlist.wf(),
        old(restrictions).wf(),
    ensures
        final(restrictions).wf(),
        match transfer_error(
            *config,
            *allowlist,
            sender_record(*old(restrictions), sender),
            sender,
            recipient,
            amount as int,
            now as int,
        ) {
            Some(e) => r == Err::<(), TokenError>(e) && *final(restrictions) == *old(restrictions),
            None => {
                &&& r is Ok
                &&& !old(restrictions).has_wallet(sender) ==> *final(restrictions) == *old(
                    restrictions,
                )
                &&& old(restrictions).has_wallet(sender) ==> final(restrictions).has_wallet(sender)
                    && final(restrictions).entry_for(sender) == old(restrictions).entry_for(
                    sender,
                ).after_transfer(amount as int, now as int)
            },
        },
        r is Ok ==> forall|w: u64|
            w != sender ==> #[trigger] final(restrictions).has_wallet(w) == old(
                restrictions,
            ).has_wallet(w),
        r is Ok ==> forall|w: u64|
            w != sender && old(restrictions).has_wallet(w)
                ==> #[trigger] final(restrictions).entry_for(w) == old(restrictions).entry_for(w),
{
    if config.is_paused {
        return Err(TokenError::TransfersPaused);
    }
    if !allowlist.is_active(sender) {
        return Err(TokenError::SenderNotApproved);
    }
    if !allowlist.is_active(recipient) {
        return Err(TokenError::RecipientNotApproved);
    }
    if amount == 0 {
        return Err(TokenError::InvalidAmount);
    }
    restrictions.check_and_record(sender, amount, now)
}

/// Why a mint is refused, if it is: the recipient must resolve `Active`,
/// the amount must be positive, the token must not be paused, and the new
/// supply must fit.
pub open spec fn mint_error(
    config: TokenConfig,
    allowlist: AllowlistRegistry,
    recipient: u64,
    amount: int,
) -> Option<TokenError> {
    if !allowlist.spec_is_active(recipient) {
        Some(TokenError::RecipientNotApproved)
    } else if amount <= 0 {
        Some(TokenError::InvalidAmount)
    } else if config.is_paused {
        Some(TokenError::TransfersPaused)
    } else if config.total_supply + amount > u64::MAX {
        Some(TokenError::MathOverflow)
    } else {
        None
    }
}

/// Checks a mint of `amount` new tokens to `recipient` and books them into
/// the total supply. Returns the new total supply; the caller mints on the
/// ledger only on `Ok`. On any refusal the descriptor is untouched.
pub fn mint_tokens(
    config: &mut TokenConfig,
    allowlist: &AllowlistRegistry,
    recipient: u64,
    amount: u64,
) -> (r: Result<u64, TokenError>)
    requires
        allowlist.wf(),
    ensures
        match mint_error(*old(config), *allowlist, recipient, amount as int) {
            Some(e) => r == Err::<u64, TokenError>(e) && *final(config) == *old(config),
            None => r == Ok::<u64, TokenError>((old(config).total_supply + amount) as u64)
                && *final(config) == (TokenConfig {
                total_supply: (old(config).total_supply + amount) as u64,
                ..*old(config)
            }),
        },
{
    if !allowlist.is_active(recipient) {
        return Err(TokenError::RecipientNotApproved);
    }
    if amount == 0 {
        return Err(TokenError::InvalidAmount);
    }
    if config.is_paused {
        return Err(TokenError::TransfersPaused);
    }
    let new_supply = match config.total_supply.checked_add(amount) {
        Some(s) => s,
        None => {
            return Err(TokenError::MathOverflow);
        },
    };
    config.total_supply = new_supply;
    Ok(new_supply)
}

/// Compliance law: a wallet whose allowlist entry is not `Active` — revoked
/// or suspended, say — can be neither sender nor recipient: the transfer
/// path refuses every transfer that involves it.
pub proof fn lemma_inactive_wallet_blocks_transfer(
    config: TokenConfig,
    allowlist: AllowlistRegistry,
    sender_restrictions: Option<WalletRestrictions>,
    sender: u64,
    recipient: u64,
    amount: int,
    now: int,
    i: int,
)
    requires
        allowlist.wf(),
        0 <= i < allowlist.entries@.len(),
        allowlist.entries@[i].wallet == sender || allowlist.entries@[i].wallet == recipient,
        allowlist.entries@[i].status != AllowlistStatus::Active,
    ensures
        transfer_error(config, allowlist, sender_restrictions, sender, recipient, amount, now)
            is Some,
{
    let w = allowlist.entries@[i].wallet;
    allowlist.lemma_entry_at(w, i);
    assert(!allowlist.spec_is_active(w));
}

} // verus!
