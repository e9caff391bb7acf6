//! Restriction engine: per-wallet daily transfer caps, lockouts and
//! maximum-balance ceilings. The daily cap uses a rolling-window reset at
//! absolute UTC day boundaries: the running total is reset whenever the
//! current day index exceeds the day index of the last recorded transfer,
//! before any limit check. Absence of a record means unrestricted.

use vstd::prelude::*;
use vstd::arithmetic::div_mod::lemma_fundamental_div_mod;
use vstd::arithmetic::div_mod::lemma_fundamental_div_mod_converse;
use crate::errors::TokenError;
use crate::config::TokenConfig;

verus! {

/// Seconds in one day; day boundaries are absolute, UTC midnight-aligned.
pub const SECONDS_PER_DAY: u64 = 86400;

/// The day a timestamp falls in, counted from the epoch; midnight-aligned
/// for timestamps before the epoch as well (floor division).
pub open spec fn day_of(t: int) -> int {
    t / (SECONDS_PER_DAY as int)
}

/// Exec form of `day_of`, total over all timestamps.
pub fn day_index(t: i64) -> (d: i64)
    ensures
        d == day_of(t as int),
{
    if t >= 0 {
        let q: u64 = (t as u64) / SECONDS_PER_DAY;
        q as i64
    } else {
        // floor division of a negative timestamp: negate, divide, and round
        // away from zero unless the division was exact
        let neg: u64 = (-(t as i128)) as u64;
        let q: u64 = neg / SECONDS_PER_DAY;
        let rem: u64 = neg % SECONDS_PER_DAY;
        let d: i64 = if rem == 0 {
            -(q as i64)
        } else {
            -(q as i64) - 1
        };
        proof {
            let ti = t as int;
            let day = SECONDS_PER_DAY as int;
            lemma_fundamental_div_mod(neg as int, day);
            if rem == 0 {
                lemma_fundamental_div_mod_converse(ti, day, -(q as int), 0);
            } else {
                lemma_fundamental_div_mod_converse(ti, day, -(q as int) - 1, day - rem);
            }
        }
        d
    }
}

/// Transfer restrictions for one wallet. `transferred_today` counts the
/// amounts sent since the start of the day `last_transfer_day` falls in.
#[derive(Clone, Copy, Debug, PartialEq, Eq)]
pub struct WalletRestrictions {
    /// Wallet these restrictions apply to.
    pub wallet: u64,
    /// Maximum total sent per day; `None` means unlimited.
    pub daily_transfer_limit: Option<u64>,
    /// Running total for the current day.
    pub transferred_today: u64,
    /// Timestamp of the transfer that opened the current day window.
    pub last_transfer_day: i64,
    /// No transfers before this timestamp; `None` means no lockout.
    pub lockout_until: Option<i64>,
    /// Maximum holdings; `None` means unlimited.
    pub max_balance: Option<u64>,
}

impl WalletRestrictions {
    /// Whether the wallet is locked out at `now`.
    pub open spec fn in_lockout(&self, now: int) -> bool {
        match self.lockout_until {
            Some(until) => now < until,
            None => false,
        }
    }

    /// Whether `now` lies in a later day than the last recorded transfer,
    /// so the daily running total is due for a reset.
    pub open spec fn day_rolled(&self, now: int) -> bool {
        day_of(now) > day_of(self.last_transfer_day as int)
    }

    /// The running total that counts against the daily limit at `now`:
    /// zero after a day rollover, the recorded total otherwise.
    pub open spec fn counted_today(&self, now: int) -> int {
        if self.day_rolled(now) {
            0
        } else {
            self.transferred_today as int
        }
    }

    /// Why a transfer of `amount` at `now` is refused, if it is: a lockout
    /// takes precedence; then the daily cap, checked against the running
    /// total after any due rollover reset.
    pub open spec fn restriction_error(&self, amount: int, now: int) -> Option<TokenError> {
        if self.in_lockout(now) {
            Some(TokenError::InLockoutPeriod)
        } else {
            match self.daily_transfer_limit {
                Some(limit) => if self.counted_today(now) + amount > u64::MAX {
                    Some(TokenError::MathOverflow)
                } else if self.counted_today(now) + amount > limit {
                    Some(TokenError::DailyLimitExceeded)
                } else {
                    None
                },
                None => None,
            }
        }
    }

    /// The record after a permitted transfer of `amount` at `now`. The
    /// running total and the day marker move only when a daily limit is
    /// set; an unlimited wallet keeps an untouched record.
    pub open spec fn after_transfer(&self, amount: int, now: int) -> WalletRestrictions {
        match self.daily_transfer_limit {
            Some(_) => WalletRestrictions {
                transferred_today: (self.counted_today(now) + amount) as u64,
                last_transfer_day: if self.day_rolled(now) {
                    now as i64
                } else {
                    self.last_transfer_day
                },
                ..*self
            },
            None => *self,
        }
    }
}

/// All restriction records of one equity token, at most one per wallet.
#[derive(Clone, Debug, PartialEq)]
pub struct RestrictionsRegistry {
    /// The records; `wf()` keeps wallets unique.
    pub entries: Vec<WalletRestrictions>,
}

impl RestrictionsRegistry {
    /// Registry validity: no two records share a wallet.
    pub open spec fn wf(&self) -> bool {
        forall|i: int, j: int|
            0 <= i < j < self.entries@.len() ==> #[trigger] self.entries@[i].wallet
                != #[trigger] self.entries@[j].wallet
    }

    /// Whether some record exists for `wallet`.
    pub open spec fn has_wallet(&self, wallet: u64) -> bool {
        exists|i: int|
            0 <= i < self.entries@.len() && #[trigger] self.entries@[i].wallet == wallet
    }

    /// The record for `wallet`; meaningful only when `has_wallet(wallet)`.
    pub open spec fn entry_for(&self, wallet: u64) -> WalletRestrictions {
        self.entries@[choose|i: int|
            0 <= i < self.entries@.len() && #[trigger] self.entries@[i].wallet == wallet]
    }

    /// A record at a valid index with the sought wallet is the record
    /// `entry_for` denotes, by uniqueness of wallets.
    pub proof fn lemma_entry_at(&self, wallet: u64, i: int)
        requires
            self.wf(),
            0 <= i < self.entries@.len(),
            self.entries@[i].wallet == wallet,
        ensures
            self.has_wallet(wallet),
            self.entry_for(wallet) == self.entries@[i],
    {
        assert(self.has_wallet(wallet));
        let j = choose|j: int|
            0 <= j < self.entries@.len() && #[trigger] self.entries@[j].wallet == wallet;
        if i < j {
            assert(self.entries@[i].wallet != self.entries@[j].wallet);
        } else if j < i {
            assert(self.entries@[j].wallet != self.entries@[i].wallet);
        }
    }

    /// Finds the index of the record for `wallet`, if any.
    fn find(&self, wallet: u64) -> (r: Option<usize>)
        requires
            self.wf(),
        ensures
            match r {
                Some(i) => i < self.entries@.len() && self.entries@[i as int].wallet == wallet
                    && self.has_wallet(wallet) && self.entry_for(wallet)
                    == self.entries@[i as int],
                None => !self.has_wallet(wallet),
            },
    {
        let n = self.entries.len();
        let mut i: usize = 0;
        while i < n
            invariant
                n == self.entries@.len(),
                i <= n,
                self.wf(),
                forall|k: int| 0 <= k < i ==> #[trigger] self.entries@[k].wallet != wallet,
            decreases n - i,
        {
            if self.entries[i].wallet == wallet {
                proof {
                    self.lemma_entry_at(wallet, i as int);
                }
                return Some(i);
            }
            i = i + 1;
        }
        None
    }

    /// Checks a transfer of `amount` by `wallet` at `now` against the
    /// wallet's restrictions, and on success records it against the daily
    /// window. A wallet without a record is unrestricted. On failure the
    /// registry is untouched.
    pub fn check_and_record(&mut self, wallet: u64, amount: u64, now: i64) -> (r: Result<
        (),
        TokenError,
    >)
        requires
            old(self).wf(),
        ensures
            final(self).wf(),
            !old(self).has_wallet(wallet) ==> r is Ok && *final(self) == *old(self),
            old(self).has_wallet(wallet) ==> match old(self).entry_for(wallet).restriction_error(
                amount as int,
                now as int,
            ) {
                Some(e) => r == Err::<(), TokenError>(e) && *final(self) == *old(self),
                None => r is Ok && final(self).has_wallet(wallet) && final(self).entry_for(wallet)
                    == old(self).entry_for(wallet).after_transfer(amount as int, now as int),
            },
            r is Ok ==> forall|w: u64|
                w != wallet ==> #[trigger] final(self).has_wallet(w) == old(self).has_wallet(w),
            r is Ok ==> forall|w: u64|
                w != wallet && old(self).has_wallet(w) ==> #[trigger] final(self).entry_for(w)
                    == old(self).entry_for(w),
    {
        let i = match self.find(wallet) {
            Some(i) => i,
            None => {
                return Ok(());
            },
        };
        let entry = self.entries[i];
        if let Some(until) = entry.lockout_until {
            if now < until {
                return Err(TokenError::InLockoutPeriod);
            }
        }
        let limit = match entry.daily_transfer_limit {
            Some(limit) => limit,
            None => {
                return Ok(());
            },
        };
        let rolled = day_index(now) > day_index(entry.last_transfer_day);
        let counted: u64 = if rolled {
            0
        } else {
            entry.transferred_today
        };
        let new_total = match counted.checked_add(amount) {
            Some(t) => t,
            None => {
                return Err(TokenError::MathOverflow);
            },
        };
        if new_total > limit {
            return Err(TokenError::DailyLimitExceeded);
        }
        let updated = WalletRestrictions {
            transferred_today: new_total,
            last_transfer_day: if rolled {
                now
            } else {
                entry.last_transfer_day
            },
            ..entry
        };
        self.entries[i] = updated;
        proof {
            let olds = old(self).entries@;
            let news = self.entries@;
            assert forall|a: int, b: int|
                0 <= a < b < news.len() implies #[trigger] news[a].wallet
                != #[trigger] news[b].wallet by {
                assert(news[a].wallet == olds[a].wallet);
                assert(news[b].wallet == olds[b].wallet);
            }
            self.lemma_entry_at(wallet, i as int);
            assert forall|w: u64| w != wallet implies #[trigger] self.has_wallet(w) == old(
                self,
            ).has_wallet(w) by {
                if old(self).has_wallet(w) {
                    let k = choose|k: int| 0 <= k < olds.len() && #[trigger] olds[k].wallet == w;
                    assert(news[k].wallet == olds[k].wallet);
                }
                if self.has_wallet(w) {
                    let k = choose|k: int| 0 <= k < news.len() && #[trigger] news[k].wallet == w;
                    assert(olds[k].wallet == news[k].wallet);
                }
            }
            assert forall|w: u64|
                w != wallet && old(self).has_wallet(w) implies #[trigger] self.entry_for(w) == old(
                self,
            ).entry_for(w) by {
                let k = choose|k: int| 0 <= k < olds.len() && #[trigger] olds[k].wallet == w;
                assert(news[k] == olds[k]);
                self.lemma_entry_at(w, k);
                old(self).lemma_entry_at(w, k);
            }
        }
        Ok(())
    }
}

/// Creates or updates the restriction record for `wallet`. A new record
/// starts its daily window at `now` with nothing counted; an updated record
/// keeps its running total and day marker. Refused when the restrictions
/// feature is disabled.
pub fn set_wallet_restrictions(
    registry: &mut RestrictionsRegistry,
    config: &TokenConfig,
    wallet: u64,
    daily_limit: Option<u64>,
    lockout_until: Option<i64>,
    max_balance: Option<u64>,
    now: i64,
) -> (r: Result<(), TokenError>)
    requires
        old(registry).wf(),
    ensures
        final(registry).wf(),
        !config.features.transfer_restrictions_enabled ==> r == Err::<(), TokenError>(
            TokenError::FeatureDisabled,
        ) && *final(registry) == *old(registry),
        config.features.transfer_restrictions_enabled ==> {
            &&& r is Ok
            &&& final(registry).has_wallet(wallet)
            &&& final(registry).entry_for(wallet) == (WalletRestrictions {
                wallet,
                daily_transfer_limit: daily_limit,
                transferred_today: if old(registry).has_wallet(wallet) {
                    old(registry).entry_for(wallet).transferred_today
                } else {
                    0
                },
                last_transfer_day: if old(registry).has_wallet(wallet) {
                    old(registry).entry_for(wallet).last_transfer_day
                } else {
                    now
                },
                lockout_until,
                max_balance,
            })
        },
        r is Ok ==> forall|w: u64|
            w != wallet ==> #[trigger] final(registry).has_wallet(w) == old(registry).has_wallet(
                w,
            ),
        r is Ok ==> forall|w: u64|
            w != wallet && old(registry).has_wallet(w) ==> #[trigger] final(registry).entry_for(w)
                == old(registry).entry_for(w),
{
    if !config.features.transfer_restrictions_enabled {
        return Err(TokenError::FeatureDisabled);
    }
    match registry.find(wallet) {
        Some(i) => {
            let entry = registry.entries[i];
            let updated = WalletRestrictions {
                wallet,
                daily_transfer_limit: daily_limit,
                transferred_today: entry.transferred_today,
                last_transfer_day: entry.last_transfer_day,
                lockout_until,
                max_balance,
            };
            registry.entries[i] = updated;
            proof {
                let olds = old(registry).entries@;
                let news = registry.entries@;
                assert forall|a: int, b: int|
                    0 <= a < b < news.len() implies #[trigger] news[a].wallet
                    != #[trigger] news[b].wallet by {
                    assert(news[a].wallet == olds[a].wallet);
                    assert(news[b].wallet == olds[b].wallet);
                }
                registry.lemma_entry_at(wallet, i as int);
                assert forall|w: u64| w != wallet implies #[trigger] registry.has_wallet(w) == old(
                    registry,
                ).has_wallet(w) by {
                    if old(registry).has_wallet(w) {
                        let k = choose|k: int|
                            0 <= k < olds.len() && #[trigger] olds[k].wallet == w;
                        assert(news[k].wallet == olds[k].wallet);
                    }
                    if registry.has_wallet(w) {
                        let k = choose|k: int|
                            0 <= k < news.len() && #[trigger] news[k].wallet == w;
                        assert(olds[k].wallet == news[k].wallet);
                    }
                }
                assert forall|w: u64|
                    w != wallet && old(registry).has_wallet(w) implies #[trigger] registry.entry_for(
                    w,
                ) == old(registry).entry_for(w) by {
                    let k = choose|k: int| 0 <= k < olds.len() && #[trigger] olds[k].wallet == w;
                    assert(news[k] == olds[k]);
                    registry.lemma_entry_at(w, k);
                    old(registry).lemma_entry_at(w, k);
                }
            }
        },
        None => {
            let entry = WalletRestrictions {
                wallet,
                daily_transfer_limit: daily_limit,
                transferred_today: 0,
                last_transfer_day: now,
                lockout_until,
                max_balance,
            };
            registry.entries.push(entry);
            proof {
                let olds = old(registry).entries@;
                let news = registry.entries@;
                assert forall|a: int, b: int|
                    0 <= a < b < news.len() implies #[trigger] news[a].wallet
                    != #[trigger] news[b].wallet by {
                    if b == news.len() - 1 {
                        assert(news[a] == olds[a]);
                    }
                }
                registry.lemma_entry_at(wallet, news.len() - 1);
                assert forall|w: u64| w != wallet implies #[trigger] registry.has_wallet(w) == old(
                    registry,
                ).has_wallet(w) by {
                    if old(registry).has_wallet(w) {
                        let k = choose|k: int|
                            0 <= k < olds.len() && #[trigger] olds[k].wallet == w;
                        assert(news[k].wallet == olds[k].wallet);
                    }
                    if registry.has_wallet(w) {
                        let k = choose|k: int|
                            0 <= k < news.len() && #[trigger] news[k].wallet == w;
                        assert(olds[k].wallet == news[k].wallet);
                    }
                }
                assert forall|w: u64|
                    w != wallet && old(registry).has_wallet(w) implies #[trigger] registry.entry_for(
                    w,
                ) == old(registry).entry_for(w) by {
                    let k = choose|k: int| 0 <= k < olds.len() && #[trigger] olds[k].wallet == w;
                    assert(news[k] == olds[k]);
                    registry.lemma_entry_at(w, k);
                    old(registry).lemma_entry_at(w, k);
                }
            }
        },
    }
    Ok(())
}

} // verus!
