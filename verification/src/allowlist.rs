//! Compliance registry: one allowlist entry per wallet, gating every mint
//! and transfer. Approval creates an `Active` entry; revocation deletes the
//! record; a status update keeps the audit trail and changes only the
//! status.

use vstd::prelude::*;
use crate::errors::TokenError;
use crate::config::TokenConfig;

verus! {

/// Standing of a wallet on the allowlist.
#[derive(Clone, Copy, Debug, PartialEq, Eq, Structural)]
pub enum AllowlistStatus {
    /// Approved but not yet activated.
    Pending,
    /// May send and receive.
    Active,
    /// Approval withdrawn.
    Revoked,
    /// Temporarily barred.
    Suspended,
}

/// Allowlist record for one wallet.
#[derive(Clone, Copy, Debug, PartialEq, Eq, Structural)]
pub struct AllowlistEntry {
    /// Wallet this entry is for.
    pub wallet: u64,
    /// Timestamp of approval.
    pub approved_at: i64,
    /// Admin identity that approved.
    pub approved_by: u64,
    /// Current status.
    pub status: AllowlistStatus,
    /// KYC level recorded at approval.
    pub kyc_level: u8,
}

/// All allowlist entries of one equity token, at most one per wallet.
#[derive(Clone, Debug, PartialEq)]
pub struct AllowlistRegistry {
    /// The entries; `wf()` keeps wallets unique.
    pub entries: Vec<AllowlistEntry>,
}

impl AllowlistRegistry {
    /// Registry validity: no two entries share a wallet.
    pub open spec fn wf(&self) -> bool {
        forall|i: int, j: int|
            0 <= i < j < self.entries@.len() ==> #[trigger] self.entries@[i].wallet
                != #[trigger] self.entries@[j].wallet
    }

    /// Whether some entry exists for `wallet`.
    pub open spec fn has_wallet(&self, wallet: u64) -> bool {
        exists|i: int|
            0 <= i < self.entries@.len() && #[trigger] self.entries@[i].wallet == wallet
    }

    /// The entry for `wallet`; meaningful only when `has_wallet(wallet)`.
    pub open spec fn entry_for(&self, wallet: u64) -> AllowlistEntry {
        self.entries@[choose|i: int|
            0 <= i < self.entries@.len() && #[trigger] self.entries@[i].wallet == wallet]
    }

    /// The contract the transfer path consumes: the wallet resolves to an
    /// `Active` entry.
    pub open spec fn spec_is_active(&self, wallet: u64) -> bool {
        self.has_wallet(wallet) && self.entry_for(wallet).status == AllowlistStatus::Active
    }

    /// An entry at a valid index with the sought wallet is the entry
    /// `entry_for` denotes, by uniqueness of wallets.
    pub proof fn lemma_entry_at(&self, wallet: u64, i: int)
        requires
            self.wf(),
            0 <= i < self.entries@.len(),
            self.entries@[i].wallet == wallet,
        ensures
            self.has_wallet(wallet),
            self.entry_for(wallet) == self.entries@[i],
    {
        assert(self.has_wallet(wallet));
        let j = choose|j: int|
            0 <= j < self.entries@.len() && #[trigger] self.entries@[j].wallet == wallet;
        if i != j {
            if i < j {
                assert(self.entries@[i].wallet != self.entries@[j].wallet);
            } else {
                assert(self.entries@[j].wallet != self.entries@[i].wallet);
            }
        }
    }

    /// Finds the index of the entry for `wallet`, if any.
    fn find(&self, wallet: u64) -> (r: Option<usize>)
        requires
            self.wf(),
        ensures
            match r {
                Some(i) => i < self.entries@.len() && self.entries@[i as int].wallet == wallet
                    && self.has_wallet(wallet) && self.entry_for(wallet)
                    == self.entries@[i as int],
                None => !self.has_wallet(wallet),
            },
    {
        let n = self.entries.len();
        let mut i: usize = 0;
        while i < n
            invariant
                n == self.entries@.len(),
                i <= n,
                self.wf(),
                forall|k: int| 0 <= k < i ==> #[trigger] self.entries@[k].wallet != wallet,
            decreases n - i,
        {
            if self.entries[i].wallet == wallet {
                proof {
                    self.lemma_entry_at(wallet, i as int);
                }
                return Some(i);
            }
            i = i + 1;
        }
        None
    }

    /// Exec form of `spec_is_active`: whether `wallet` resolves to an
    /// `Active` entry.
    pub fn is_active(&self, wallet: u64) -> (r: bool)
        requires
            self.wf(),
        ensures
            r == self.spec_is_active(wallet),
    {
        match self.find(wallet) {
            Some(i) => {
                let e = self.entries[i];
                matches!(e.status, AllowlistStatus::Active)
            },
            None => false,
        }
    }
}

/// Approves a wallet: creates an `Active` entry with the given KYC level.
/// Refused while transfers are paused, and when the wallet already has an
/// entry of any status.
pub fn add_to_allowlist(
    registry: &mut AllowlistRegistry,
    config: &TokenConfig,
    wallet: u64,
    kyc_level: u8,
    approved_by: u64,
    now: i64,
) -> (r: Result<(), TokenError>)
    requires
        old(registry).wf(),
    ensures
        final(registry).wf(),
        config.is_paused ==> r == Err::<(), TokenError>(TokenError::TransfersPaused),
        !config.is_paused && old(registry).has_wallet(wallet) ==> r == Err::<(), TokenError>(
            TokenError::AlreadyOnAllowlist,
        ),
        r is Err ==> *final(registry) == *old(registry),
        !config.is_paused && !old(registry).has_wallet(wallet) ==> r is Ok,
        r is Ok ==> {
            &&& !config.is_paused
            &&& !old(registry).has_wallet(wallet)
            &&& final(registry).entries@ == old(registry).entries@.push(
                AllowlistEntry {
                    wallet,
                    approved_at: now,
                    approved_by,
                    status: AllowlistStatus::Active,
                    kyc_level,
                },
            )
            &&& final(registry).spec_is_active(wallet)
        },
        r is Ok ==> forall|w: u64|
            w != wallet ==> #[trigger] final(registry).has_wallet(w) == old(registry).has_wallet(
                w,
            ),
        r is Ok ==> forall|w: u64|
            w != wallet && old(registry).has_wallet(w)
                ==> #[trigger] final(registry).entry_for(w) == old(registry).entry_for(w),
{
    if config.is_paused {
        return Err(TokenError::TransfersPaused);
    }
    if let Some(_i) = registry.find(wallet) {
        return Err(TokenError::AlreadyOnAllowlist);
    }
    let entry = AllowlistEntry {
        wallet,
        approved_at: now,
        approved_by,
        status: AllowlistStatus::Active,
        kyc_level,
    };
    registry.entries.push(entry);
    proof {
        let olds = old(registry).entries@;
        let news = registry.entries@;
        assert forall|i: int, j: int|
            0 <= i < j < news.len() implies #[trigger] news[i].wallet
            != #[trigger] news[j].wallet by {
            if j == news.len() - 1 {
                assert(news[i] == olds[i]);
            }
        }
        registry.lemma_entry_at(wallet, news.len() - 1);
        assert forall|w: u64| w != wallet implies #[trigger] registry.has_wallet(w) == old(
            registry,
        ).has_wallet(w) by {
            if old(registry).has_wallet(w) {
                let k = choose|k: int| 0 <= k < olds.len() && #[trigger] olds[k].wallet == w;
                assert(news[k].wallet == olds[k].wallet);
            }
            if registry.has_wallet(w) {
                let k = choose|k: int| 0 <= k < news.len() && #[trigger] news[k].wallet == w;
                assert(olds[k].wallet == news[k].wallet);
            }
        }
        assert forall|w: u64|
            w != wallet && old(registry).has_wallet(w) implies #[trigger] registry.entry_for(w)
            == old(registry).entry_for(w) by {
            let k = choose|k: int| 0 <= k < olds.len() && #[trigger] olds[k].wallet == w;
            assert(news[k] == olds[k]);
            registry.lemma_entry_at(w, k);
            old(registry).lemma_entry_at(w, k);
        }
    }
    Ok(())
}

/// Revokes a wallet by deleting its entry; not reversible, and future
/// transfers to or from the wallet then fail. Refused when no entry exists.
pub fn remove_from_allowlist(registry: &mut AllowlistRegistry, wallet: u64) -> (r: Result<
    (),
    TokenError,
>)
    requires
        old(registry).wf(),
    ensures
        final(registry).wf(),
        !old(registry).has_wallet(wallet) ==> r == Err::<(), TokenError>(
            TokenError::NotOnAllowlist,
        ) && *final(registry) == *old(registry),
        old(registry).has_wallet(wallet) ==> r is Ok && !final(registry).has_wallet(wallet),
        r is Ok ==> forall|w: u64|
            w != wallet ==> #[trigger] final(registry).has_wallet(w) == old(registry).has_wallet(
                w,
            ),
        r is Ok ==> forall|w: u64|
            w != wallet && old(registry).has_wallet(w) ==> #[trigger] final(registry).entry_for(w)
                == old(registry).entry_for(w),
{
    let i = match registry.find(wallet) {
        Some(i) => i,
        None => {
            return Err(TokenError::NotOnAllowlist);
        },
    };
    registry.entries.remove(i);
    proof {
        let olds = old(registry).entries@;
        let news = registry.entries@;
        assert forall|a: int, b: int|
            0 <= a < b < news.len() implies #[trigger] news[a].wallet
            != #[trigger] news[b].wallet by {
            let oa = if a < i { a } else { a + 1 };
            let ob = if b < i { b } else { b + 1 };
            assert(news[a] == olds[oa]);
            assert(news[b] == olds[ob]);
        }
        assert forall|k: int| 0 <= k < news.len() implies #[trigger] news[k].wallet
            != wallet by {
            let ok = if k < i { k } else { k + 1 };
            assert(news[k] == olds[ok]);
            if ok < i {
                assert(olds[ok].wallet != olds[i as int].wallet);
            } else {
                assert(olds[i as int].wallet != olds[ok].wallet);
            }
        }
        assert forall|w: u64| w != wallet implies #[trigger] registry.has_wallet(w) == old(
            registry,
        ).has_wallet(w) by {
            if old(registry).has_wallet(w) {
                let k = choose|k: int| 0 <= k < olds.len() && #[trigger] olds[k].wallet == w;
                let nk = if k < i {
                    k
                } else {
                    k - 1
                };
                assert(news[nk] == olds[k]);
            }
            if registry.has_wallet(w) {
                let k = choose|k: int| 0 <= k < news.len() && #[trigger] news[k].wallet == w;
                let ok = if k < i { k } else { k + 1 };
                assert(news[k] == olds[ok]);
            }
        }
        assert forall|w: u64|
            w != wallet && old(registry).has_wallet(w) implies #[trigger] registry.entry_for(w)
            == old(registry).entry_for(w) by {
            let k = choose|k: int| 0 <= k < olds.len() && #[trigger] olds[k].wallet == w;
            let nk = if k < i {
                k
            } else {
                k - 1
            };
            assert(news[nk] == olds[k]);
            registry.lemma_entry_at(w, nk);
            old(registry).lemma_entry_at(w, k);
        }
    }
    Ok(())
}

/// Changes the status of an existing entry, preserving the audit trail
/// (approval time, approver, KYC level). Refused when no entry exists.
pub fn update_allowlist_status(
    registry: &mut AllowlistRegistry,
    wallet: u64,
    status: AllowlistStatus,
) -> (r: Result<(), TokenError>)
    requires
        old(registry).wf(),
    ensures
        final(registry).wf(),
        !old(registry).has_wallet(wallet) ==> r == Err::<(), TokenError>(
            TokenError::NotOnAllowlist,
        ) && *final(registry) == *old(registry),
        old(registry).has_wallet(wallet) ==> {
            &&& r is Ok
            &&& final(registry).has_wallet(wallet)
            &&& final(registry).entry_for(wallet) == (AllowlistEntry {
                status,
                ..old(registry).entry_for(wallet)
            })
        },
        r is Ok ==> forall|w: u64|
            w != wallet ==> #[trigger] final(registry).has_wallet(w) == old(registry).has_wallet(
                w,
            ),
        r is Ok ==> forall|w: u64|
            w != wallet && old(registry).has_wallet(w) ==> #[trigger] final(registry).entry_for(w)
                == old(registry).entry_for(w),
{
    let i = match registry.find(wallet) {
        Some(i) => i,
        None => {
            return Err(TokenError::NotOnAllowlist);
        },
    };
    let updated = AllowlistEntry { status, ..registry.entries[i] };
    registry.entries[i] = updated;
    proof {
        let olds = old(registry).entries@;
        let news = registry.entries@;
        assert forall|a: int, b: int|
            0 <= a < b < news.len() implies #[trigger] news[a].wallet
            != #[trigger] news[b].wallet by {
            assert(news[a].wallet == olds[a].wallet);
            assert(news[b].wallet == olds[b].wallet);
        }
        registry.lemma_entry_at(wallet, i as int);
        assert forall|w: u64| w != wallet implies #[trigger] registry.has_wallet(w) == old(
            registry,
        ).has_wallet(w) by {
            if old(registry).has_wallet(w) {
                let k = choose|k: int| 0 <= k < olds.len() && #[trigger] olds[k].wallet == w;
                assert(news[k].wallet == olds[k].wallet);
            }
            if registry.has_wallet(w) {
                let k = choose|k: int| 0 <= k < news.len() && #[trigger] news[k].wallet == w;
                assert(olds[k].wallet == news[k].wallet);
            }
        }
        assert forall|w: u64|
            w != wallet && old(registry).has_wallet(w) implies #[trigger] registry.entry_for(w)
            == old(registry).entry_for(w) by {
            let k = choose|k: int| 0 <= k < olds.len() && #[trigger] olds[k].wallet == w;
            assert(news[k] == olds[k]);
            registry.lemma_entry_at(w, k);
            old(registry).lemma_entry_at(w, k);
        }
    }
    Ok(())
}

} // verus!
