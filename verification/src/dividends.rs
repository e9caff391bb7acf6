//! Dividend engine: a round fixes a pro-rata rate (`amount_per_share`,
//! fixed-point scaled by 1e6) from its pool and the supply at creation;
//! wallets then claim `balance * rate / 1e6` from the pool. The claim
//! record itself is the double-claim guard: at most one exists per wallet
//! and round, and a second attempt fails on its existence alone, whatever
//! the balance has become.

use vstd::prelude::*;
use crate::errors::TokenError;
use crate::config::TokenConfig;

verus! {

/// Fixed-point scale of `amount_per_share`.
pub const PER_SHARE_SCALE: u64 = 1000000;

/// Standing of a dividend round.
#[derive(Clone, Copy, Debug, PartialEq, Eq, Structural)]
pub enum DividendStatus {
    /// Created but not yet open for claims.
    Pending,
    /// Open for claims.
    Active,
    /// Closed.
    Completed,
}

/// Record of one wallet's claim in a round; its existence is what blocks a
/// second payment.
#[derive(Clone, Copy, Debug, PartialEq, Eq, Structural)]
pub struct DividendClaim {
    /// Claimant wallet.
    pub wallet: u64,
    /// Amount paid.
    pub amount: u64,
    /// Claim timestamp.
    pub claimed_at: i64,
}

/// One dividend distribution round. The rate is computed once at creation
/// from the pool and the supply of that instant, and never adjusted.
#[derive(Clone, Debug, PartialEq)]
pub struct DividendRound {
    /// Sequential round id.
    pub id: u64,
    /// Identity of the asset the pool pays in.
    pub payment_token: u64,
    /// Total amount funded into the pool.
    pub total_pool: u64,
    /// Payout per held token, scaled by `PER_SHARE_SCALE`.
    pub amount_per_share: u64,
    /// Round status.
    pub status: DividendStatus,
    /// Creation timestamp.
    pub created_at: i64,
    /// Claim deadline; `None` means no expiry.
    pub expires_at: Option<i64>,
    /// Claims recorded so far; `wf()` keeps wallets unique.
    pub claims: Vec<DividendClaim>,
}

/// The pro-rata rate a round is created with: pool times the fixed-point
/// scale over the supply; zero when there is no supply to apportion over.
pub open spec fn per_share_rate(total_pool: int, total_supply: int) -> int {
    if total_supply > 0 {
        total_pool * PER_SHARE_SCALE / total_supply
    } else {
        0
    }
}

/// What a claim pays a wallet holding `balance` at rate
/// `amount_per_share`: the scaled product.
pub open spec fn entitlement_of(balance: int, amount_per_share: int) -> int {
    balance * amount_per_share / (PER_SHARE_SCALE as int)
}

impl DividendRound {
    /// Round validity: no two claims share a wallet.
    pub open spec fn wf(&self) -> bool {
        forall|i: int, j: int|
            0 <= i < j < self.claims@.len() ==> #[trigger] self.claims@[i].wallet
                != #[trigger] self.claims@[j].wallet
    }

    /// Whether `wallet` has already claimed in this round.
    pub open spec fn has_claim(&self, wallet: u64) -> bool {
        exists|i: int| 0 <= i < self.claims@.len() && #[trigger] self.claims@[i].wallet == wallet
    }

    /// The claim of `wallet`; meaningful only when `has_claim(wallet)`.
    pub open spec fn claim_for(&self, wallet: u64) -> DividendClaim {
        self.claims@[choose|i: int|
            0 <= i < self.claims@.len() && #[trigger] self.claims@[i].wallet == wallet]
    }

    /// A claim at a valid index with the sought wallet is the claim
    /// `claim_for` denotes, by uniqueness of wallets.
    pub proof fn lemma_claim_at(&self, wallet: u64, i: int)
        requires
            self.wf(),
            0 <= i < self.claims@.len(),
            self.claims@[i].wallet == wallet,
        ensures
            self.has_claim(wallet),
            self.claim_for(wallet) == self.claims@[i],
    {
        assert(self.has_claim(wallet));
        let j = choose|j: int|
            0 <= j < self.claims@.len() && #[trigger] self.claims@[j].wallet == wallet;
        if i < j {
            assert(self.claims@[i].wallet != self.claims@[j].wallet);
        } else if j < i {
            assert(self.claims@[j].wallet != self.claims@[i].wallet);
        }
    }

    /// Finds the index of the claim of `wallet`, if any.
    fn find_claim(&self, wallet: u64) -> (r: Option<usize>)
        requires
            self.wf(),
        ensures
            match r {
                Some(i) => i < self.claims@.len() && self.claims@[i as int].wallet == wallet
                    && self.has_claim(wallet),
                None => !self.has_claim(wallet),
            },
    {
        let n = self.claims.len();
        let mut i: usize = 0;
        while i < n
            invariant
                n == self.claims@.len(),
                i <= n,
                self.wf(),
                forall|k: int| 0 <= k < i ==> #[trigger] self.claims@[k].wallet != wallet,
            decreases n - i,
        {
            if self.claims[i].wallet == wallet {
                return Some(i);
            }
            i = i + 1;
        }
        None
    }
}

/// The deadline of a round created at `now` with an optional lifetime in
/// seconds; a lifetime reaching past the end of representable time
/// saturates there, which never expires in practice.
pub open spec fn expiry_at(now: int, expires_in_seconds: Option<u64>) -> Option<i64> {
    match expires_in_seconds {
        Some(s) => if now + s > i64::MAX {
            Some(i64::MAX)
        } else {
            Some((now + s) as i64)
        },
        None => None,
    }
}

/// Creates a dividend round: fixes the pro-rata rate from the pool and the
/// supply at this instant, and opens the round for claims. Refused when
/// dividends are disabled or the pool is empty. The caller funds the pool
/// with `total_pool` only on `Ok`.
pub fn create_dividend_round(
    config: &TokenConfig,
    id: u64,
    payment_token: u64,
    total_pool: u64,
    expires_in_seconds: Option<u64>,
    now: i64,
) -> (r: Result<DividendRound, TokenError>)
    ensures
        !config.features.dividends_enabled ==> r == Err::<DividendRound, TokenError>(
            TokenError::FeatureDisabled,
        ),
        config.features.dividends_enabled && total_pool == 0 ==> r == Err::<
            DividendRound,
            TokenError,
        >(TokenError::InvalidAmount),
        config.features.dividends_enabled && total_pool > 0 && per_share_rate(
            total_pool as int,
            config.total_supply as int,
        ) > u64::MAX ==> r == Err::<DividendRound, TokenError>(TokenError::MathOverflow),
        config.features.dividends_enabled && total_pool > 0 && per_share_rate(
            total_pool as int,
            config.total_supply as int,
        ) <= u64::MAX ==> (r matches Ok(round) && round
            == DividendRound {
            id,
            payment_token,
            total_pool,
            amount_per_share: per_share_rate(total_pool as int, config.total_supply as int) as u64,
            status: DividendStatus::Active,
            created_at: now,
            expires_at: expiry_at(now as int, expires_in_seconds),
            claims: round.claims,
        } && round.claims@ =~= Seq::<DividendClaim>::empty() && round.wf()),
{
    if !config.features.dividends_enabled {
        return Err(TokenError::FeatureDisabled);
    }
    if total_pool == 0 {
        return Err(TokenError::InvalidAmount);
    }
    proof {
        vstd::arithmetic::mul::lemma_mul_upper_bound(
            total_pool as int,
            u64::MAX as int,
            PER_SHARE_SCALE as int,
            PER_SHARE_SCALE as int,
        );
    }
    let amount_per_share: u64 = if config.total_supply > 0 {
        let wide: u128 = total_pool as u128 * PER_SHARE_SCALE as u128
            / config.total_supply as u128;
        if wide > u64::MAX as u128 {
            return Err(TokenError::MathOverflow);
        }
        wide as u64
    } else {
        0
    };
    let expires_at: Option<i64> = match expires_in_seconds {
        Some(s) => {
            let e = now as i128 + s as i128;
            if e > i64::MAX as i128 {
                Some(i64::MAX)
            } else {
                Some(e as i64)
            }
        },
        None => None,
    };
    Ok(
        DividendRound {
            id,
            payment_token,
            total_pool,
            amount_per_share,
            status: DividendStatus::Active,
            created_at: now,
            expires_at,
            claims: Vec::new(),
        },
    )
}

/// Why a claim is refused, if it is: the round must be active, the wallet
/// must not have claimed before — checked on the record's existence alone,
/// before anything about the balance — the round must not have expired,
/// and the balance must carry a positive entitlement.
pub open spec fn claim_error(
    round: DividendRound,
    wallet: u64,
    balance: int,
    now: int,
) -> Option<TokenError> {
    if round.status != DividendStatus::Active {
        Some(TokenError::DividendNotActive)
    } else if round.has_claim(wallet) {
        Some(TokenError::AlreadyClaimed)
    } else if round.expires_at matches Some(e) && now > e {
        Some(TokenError::DividendExpired)
    } else if balance == 0 {
        Some(TokenError::NoEntitlement)
    } else if entitlement_of(balance, round.amount_per_share as int) > u64::MAX {
        Some(TokenError::MathOverflow)
    } else if entitlement_of(balance, round.amount_per_share as int) == 0 {
        Some(TokenError::NoEntitlement)
    } else {
        None
    }
}

/// Claims `wallet`'s dividend from the round, given the wallet's equity
/// balance as the surrounding ledger reports it at claim time — the live
/// balance, not one frozen at round creation; whoever reads the balance
/// chooses the snapshot discipline. Pays
/// `balance * amount_per_share / 1e6` and records the claim, whose
/// existence alone blocks any repeat. On any refusal the round is
/// untouched. The caller moves the entitlement out of the pool only on
/// `Ok`.
pub fn claim_dividend(round: &mut DividendRound, wallet: u64, balance: u64, now: i64) -> (r:
    Result<u64, TokenError>)
    requires
        old(round).wf(),
    ensures
        final(round).wf(),
        match claim_error(*old(round), wallet, balance as int, now as int) {
            Some(e) => r == Err::<u64, TokenError>(e) && *final(round) == *old(round),
            None => {
                &&& r == Ok::<u64, TokenError>(
                    entitlement_of(balance as int, old(round).amount_per_share as int) as u64,
                )
                &&& final(round).claims@ == old(round).claims@.push(
                    DividendClaim {
                        wallet,
                        amount: entitlement_of(
                            balance as int,
                            old(round).amount_per_share as int,
                        ) as u64,
                        claimed_at: now,
                    },
                )
                &&& *final(round) == (DividendRound { claims: final(round).claims, ..*old(round) })
                &&& final(round).has_claim(wallet)
                &&& final(round).claim_for(wallet) == (DividendClaim {
                    wallet,
                    amount: entitlement_of(
                        balance as int,
                        old(round).amount_per_share as int,
                    ) as u64,
                    claimed_at: now,
                })
            },
        },
{
    if !matches!(round.status, DividendStatus::Active) {
        return Err(TokenError::DividendNotActive);
    }
    if let Some(_i) = round.find_claim(wallet) {
        return Err(TokenError::AlreadyClaimed);
    }
    if let Some(expires_at) = round.expires_at {
        if now > expires_at {
            return Err(TokenError::DividendExpired);
        }
    }
    if balance == 0 {
        return Err(TokenError::NoEntitlement);
    }
    proof {
        vstd::arithmetic::mul::lemma_mul_upper_bound(
            balance as int,
            u64::MAX as int,
            round.amount_per_share as int,
            u64::MAX as int,
        );
    }
    let wide: u128 = balance as u128 * round.amount_per_share as u128 / PER_SHARE_SCALE as u128;
    if wide > u64::MAX as u128 {
        return Err(TokenError::MathOverflow);
    }
    let entitlement: u64 = wide as u64;
    if entitlement == 0 {
        return Err(TokenError::NoEntitlement);
    }
    let claim = DividendClaim { wallet, amount: entitlement, claimed_at: now };
    round.claims.push(claim);
    proof {
        let news = round.claims@;
        assert forall|a: int, b: int|
            0 <= a < b < news.len() implies #[trigger] news[a].wallet
            != #[trigger] news[b].wallet by {
            if b == news.len() - 1 {
                assert(news[a] == old(round).claims@[a]);
            }
        }
        round.lemma_claim_at(wallet, news.len() - 1);
    }
    Ok(entitlement)
}

/// No-double-payment law: once a wallet holds a claim record in a round,
/// every further claim attempt by it fails, whatever its balance has
/// become in the meantime — on an active round with `AlreadyClaimed`, on
/// any other round standing with `DividendNotActive`.
pub proof fn lemma_no_double_claim(round: DividendRound, wallet: u64, balance: int, now: int)
    requires
        round.wf(),
        round.has_claim(wallet),
    ensures
        claim_error(round, wallet, balance, now) is Some,
        round.status == DividendStatus::Active ==> claim_error(round, wallet, balance, now)
            == Some(TokenError::AlreadyClaimed),
{
}

} // verus!
