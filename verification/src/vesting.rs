//! Vesting engine: discrete equal-interval accrual with trailing remainder
//! distribution. A schedule of `total_amount` tokens vests nothing during
//! its cliff, then one equal slice per interval; the division remainder is
//! paid one extra unit per interval over the last `remainder` intervals, so
//! the per-interval releases over the full life sum exactly to the total.
//! Termination freezes the vested amount and returns the rest to treasury.

use vstd::prelude::*;
use vstd::string::StrSliceExecFns;
use vstd::arithmetic::div_mod::lemma_div_by_self;
use vstd::arithmetic::div_mod::lemma_div_is_ordered;
use vstd::arithmetic::div_mod::lemma_div_pos_is_pos;
use vstd::arithmetic::div_mod::lemma_fundamental_div_mod;
use vstd::arithmetic::div_mod::lemma_mod_division_less_than_divisor;
use vstd::arithmetic::mul::lemma_mul_inequality;
use vstd::arithmetic::mul::lemma_mul_is_distributive_sub_other_way;
use crate::errors::TokenError;
use crate::config::TokenConfig;

verus! {

/// Longest permitted termination notes, in characters.
pub const MAX_NOTES_CHARS: usize = 200;

/// How often vested tokens become releasable.
#[derive(Clone, Copy, Debug, PartialEq, Eq, Structural)]
pub enum VestingInterval {
    /// Every minute (60 seconds).
    Minute,
    /// Every hour (3600 seconds).
    Hour,
    /// Every day (86400 seconds).
    Day,
    /// Every month (30 days = 2592000 seconds).
    Month,
}

impl VestingInterval {
    /// Length of the interval in seconds.
    pub open spec fn spec_seconds(&self) -> int {
        match self {
            VestingInterval::Minute => 60,
            VestingInterval::Hour => 3600,
            VestingInterval::Day => 86400,
            VestingInterval::Month => 2592000,
        }
    }

    /// Exec form of `spec_seconds`.
    pub fn to_seconds(&self) -> (s: u64)
        ensures
            s as int == self.spec_seconds(),
    {
        match self {
            VestingInterval::Minute => 60,
            VestingInterval::Hour => 3600,
            VestingInterval::Day => 86400,
            VestingInterval::Month => 2592000,
        }
    }
}

/// How a schedule is terminated.
#[derive(Clone, Copy, Debug, PartialEq, Eq, Structural)]
pub enum TerminationType {
    /// Standard departure: keep what has vested, lose the rest.
    Standard,
    /// For cause: forfeit all unreleased tokens.
    ForCause,
    /// Accelerated: the full amount vests immediately.
    Accelerated,
}

/// Parameters for creating a vesting schedule.
#[derive(Clone, Copy, Debug, PartialEq, Eq, Structural)]
pub struct VestingParams {
    /// Total tokens to vest.
    pub total_amount: u64,
    /// Timestamp when vesting starts.
    pub start_time: i64,
    /// Seconds until the cliff; 0 means no cliff.
    pub cliff_duration: u64,
    /// Total vesting duration in seconds, including the cliff.
    pub total_duration: u64,
    /// Release interval.
    pub interval: VestingInterval,
    /// Whether the issuer may revoke unvested tokens.
    pub revocable: bool,
}

/// One beneficiary's vesting schedule. The full amount sits in escrow from
/// creation; `released_amount` has already been paid out, and the rest
/// accrues per interval until release, the end of the duration, or
/// termination.
#[derive(Clone, Debug, PartialEq)]
pub struct VestingSchedule {
    /// Wallet receiving vested tokens.
    pub beneficiary: u64,
    /// Total tokens in the schedule.
    pub total_amount: u64,
    /// Already released to the beneficiary.
    pub released_amount: u64,
    /// Vesting start timestamp.
    pub start_time: i64,
    /// Seconds until the cliff; 0 means no cliff.
    pub cliff_duration: u64,
    /// Total vesting duration in seconds, including the cliff.
    pub total_duration: u64,
    /// Release interval.
    pub interval: VestingInterval,
    /// Number of intervals already released.
    pub intervals_released: u64,
    /// Whether the issuer may revoke unvested tokens.
    pub revocable: bool,
    /// Whether the schedule has been revoked or terminated.
    pub revoked: bool,
    /// How it was terminated, if it was.
    pub termination_type: Option<TerminationType>,
    /// Timestamp of termination.
    pub terminated_at: Option<i64>,
    /// Admin identity that terminated.
    pub terminated_by: Option<u64>,
    /// Vested amount frozen at termination; governs all later accrual math.
    pub vested_at_termination: Option<u64>,
    /// Audit-trail notes, at most 200 characters.
    pub termination_notes: Option<String>,
}

impl VestingSchedule {
    /// Seconds of accrual after the cliff.
    pub open spec fn vesting_seconds(&self) -> int {
        self.total_duration - self.cliff_duration
    }

    /// Number of whole intervals in the accrual period; the truncated
    /// partial final interval is intentional.
    pub open spec fn spec_total_intervals(&self) -> int {
        self.vesting_seconds() / self.interval.spec_seconds()
    }

    /// Equal share released by each interval (floor).
    pub open spec fn spec_amount_per_interval(&self) -> int {
        self.total_amount as int / self.spec_total_intervals()
    }

    /// What the equal shares leave over; paid one unit per interval over
    /// the last `spec_remainder()` intervals.
    pub open spec fn spec_remainder(&self) -> int {
        self.total_amount as int % self.spec_total_intervals()
    }

    /// Number of leading intervals that carry no extra remainder unit.
    pub open spec fn plain_intervals(&self) -> int {
        self.spec_total_intervals() - self.spec_remainder()
    }

    /// Amount vested once `k` intervals have elapsed: `k` equal shares,
    /// plus one extra unit for each elapsed interval past the plain ones.
    pub open spec fn intervals_amount(&self, k: int) -> int {
        self.spec_amount_per_interval() * k + if k > self.plain_intervals() {
            k - self.plain_intervals()
        } else {
            0
        }
    }

    /// Whole intervals elapsed by `now`: none before the cliff, all of
    /// them from the end of the duration on.
    pub open spec fn spec_elapsed_intervals(&self, now: int) -> int {
        if now < self.start_time + self.cliff_duration {
            0
        } else if now >= self.start_time + self.total_duration {
            self.spec_total_intervals()
        } else {
            (now - self.start_time - self.cliff_duration) / self.interval.spec_seconds()
        }
    }

    /// Amount vested at `now`: the frozen snapshot after termination; no
    /// further accrual past what was released after a plain revocation;
    /// otherwise the elapsed-interval accrual.
    pub open spec fn vested(&self, now: int) -> int {
        match self.vested_at_termination {
            Some(v) => v as int,
            None => if self.revoked {
                self.released_amount as int
            } else {
                self.intervals_amount(self.spec_elapsed_intervals(now))
            },
        }
    }

    /// Schedule validity: a positive amount, room for at least one whole
    /// interval after the cliff, a release count within the schedule whose
    /// accrual rule accounts exactly for the released amount, and a frozen
    /// snapshot no larger than the total.
    pub open spec fn wf(&self) -> bool {
        &&& 1 <= self.total_amount
        &&& self.cliff_duration + self.interval.spec_seconds() <= self.total_duration
        &&& self.intervals_released <= self.spec_total_intervals()
        &&& self.released_amount == self.intervals_amount(self.intervals_released as int)
        &&& match self.vested_at_termination {
            Some(v) => v <= self.total_amount,
            None => true,
        }
    }

    /// Basic consequences of validity: at least one interval, nonnegative
    /// share and remainder, fewer remainder intervals than intervals, and
    /// the division identity tying them to the total.
    pub proof fn lemma_interval_facts(&self)
        requires
            self.wf(),
        ensures
            1 <= self.spec_total_intervals() <= self.vesting_seconds(),
            0 <= self.spec_amount_per_interval(),
            0 <= self.spec_remainder() < self.spec_total_intervals(),
            1 <= self.plain_intervals(),
            self.spec_amount_per_interval() * self.spec_total_intervals() + self.spec_remainder()
                == self.total_amount,
    {
        let secs = self.interval.spec_seconds();
        let vd = self.vesting_seconds();
        let ti = self.spec_total_intervals();
        lemma_div_by_self(secs);
        lemma_div_is_ordered(secs, vd, secs);
        lemma_div_is_ordered(vd, vd * secs, secs);
        assert(vd <= vd * secs) by {
            lemma_mul_inequality(1, secs, vd);
        }
        assert((vd * secs) / secs == vd) by {
            vstd::arithmetic::div_mod::lemma_div_by_multiple(vd, secs);
        }
        lemma_div_pos_is_pos(self.total_amount as int, ti);
        lemma_mod_division_less_than_divisor(self.total_amount as int, ti);
        lemma_fundamental_div_mod(self.total_amount as int, ti);
    }

    /// The accrual rule is monotone in the number of elapsed intervals and
    /// never exceeds the total; at the full interval count it pays the
    /// total exactly.
    pub proof fn lemma_intervals_amount_bounds(&self, k1: int, k2: int)
        requires
            self.wf(),
            0 <= k1 <= k2 <= self.spec_total_intervals(),
        ensures
            0 <= self.intervals_amount(k1) <= self.intervals_amount(k2)
                <= self.intervals_amount(self.spec_total_intervals()) == self.total_amount,
    {
        self.lemma_interval_facts();
        let apc = self.spec_amount_per_interval();
        let ti = self.spec_total_intervals();
        lemma_mul_inequality(0, k1, apc);
        lemma_mul_inequality(k1, k2, apc);
        lemma_mul_inequality(k2, ti, apc);
        assert(apc * 0 == 0 && 0 * apc == 0);
        assert(apc * k1 == k1 * apc && apc * k2 == k2 * apc && apc * ti == ti * apc);
    }

    /// Elapsed intervals lie between zero and the interval count, and do
    /// not decrease as time passes.
    pub proof fn lemma_elapsed_intervals(&self, t1: int, t2: int)
        requires
            self.wf(),
            t1 <= t2,
        ensures
            0 <= self.spec_elapsed_intervals(t1) <= self.spec_elapsed_intervals(t2)
                <= self.spec_total_intervals(),
    {
        self.lemma_interval_facts();
        let secs = self.interval.spec_seconds();
        let vd = self.vesting_seconds();
        let cliff_at = self.start_time + self.cliff_duration;
        let end_at = self.start_time + self.total_duration;
        if cliff_at <= t1 < end_at {
            lemma_div_pos_is_pos(t1 - cliff_at, secs);
            lemma_div_is_ordered(t1 - cliff_at, vd, secs);
        }
        if cliff_at <= t2 < end_at {
            lemma_div_pos_is_pos(t2 - cliff_at, secs);
            lemma_div_is_ordered(t2 - cliff_at, vd, secs);
            if cliff_at <= t1 {
                lemma_div_is_ordered(t1 - cliff_at, t2 - cliff_at, secs);
            }
        }
    }

    /// Exec form of `spec_total_intervals`.
    pub fn total_intervals(&self) -> (r: u64)
        requires
            self.wf(),
        ensures
            r as int == self.spec_total_intervals(),
            1 <= r,
    {
        proof {
            self.lemma_interval_facts();
        }
        let vesting_duration = self.total_duration - self.cliff_duration;
        vesting_duration / self.interval.to_seconds()
    }

    /// Exec form of `spec_amount_per_interval`.
    pub fn amount_per_interval(&self) -> (r: u64)
        requires
            self.wf(),
        ensures
            r as int == self.spec_amount_per_interval(),
    {
        proof {
            self.lemma_interval_facts();
        }
        self.total_amount / self.total_intervals()
    }

    /// Exec form of `spec_remainder`.
    pub fn remainder(&self) -> (r: u64)
        requires
            self.wf(),
        ensures
            r as int == self.spec_remainder(),
    {
        proof {
            self.lemma_interval_facts();
        }
        self.total_amount % self.total_intervals()
    }
}

/// Creates a vesting schedule over `params.total_amount` tokens for
/// `beneficiary`. Refused when vesting is disabled, the amount is zero, or
/// the accrual period after the cliff is shorter than one interval. The
/// caller funds the escrow with the full amount, atomically with creation,
/// only on `Ok`.
pub fn create_vesting_schedule(
    config: &TokenConfig,
    beneficiary: u64,
    params: VestingParams,
) -> (r: Result<VestingSchedule, TokenError>)
    ensures
        !config.features.vesting_enabled ==> r == Err::<VestingSchedule, TokenError>(
            TokenError::FeatureDisabled,
        ),
        config.features.vesting_enabled && params.total_amount == 0 ==> r == Err::<
            VestingSchedule,
            TokenError,
        >(TokenError::InvalidAmount),
        config.features.vesting_enabled && params.total_amount > 0 && params.total_duration
            < params.cliff_duration + params.interval.spec_seconds() ==> r == Err::<
            VestingSchedule,
            TokenError,
        >(TokenError::InvalidVestingDuration),
        config.features.vesting_enabled && params.total_amount > 0 && params.total_duration
            >= params.cliff_duration + params.interval.spec_seconds() ==> (r matches Ok(s) && s
            == VestingSchedule {
            beneficiary,
            total_amount: params.total_amount,
            released_amount: 0,
            start_time: params.start_time,
            cliff_duration: params.cliff_duration,
            total_duration: params.total_duration,
            interval: params.interval,
            intervals_released: 0,
            revocable: params.revocable,
            revoked: false,
            termination_type: None,
            terminated_at: None,
            terminated_by: None,
            vested_at_termination: None,
            termination_notes: None,
        }),
        (r matches Ok(s) ==> s.wf()),
{
    if !config.features.vesting_enabled {
        return Err(TokenError::FeatureDisabled);
    }
    if params.total_amount == 0 {
        return Err(TokenError::InvalidAmount);
    }
    if params.total_duration == 0 {
        return Err(TokenError::InvalidVestingDuration);
    }
    let vesting_duration = if params.total_duration > params.cliff_duration {
        params.total_duration - params.cliff_duration
    } else {
        0
    };
    let interval_seconds = params.interval.to_seconds();
    if vesting_duration < interval_seconds {
        return Err(TokenError::InvalidVestingDuration);
    }
    let schedule = VestingSchedule {
        beneficiary,
        total_amount: params.total_amount,
        released_amount: 0,
        start_time: params.start_time,
        cliff_duration: params.cliff_duration,
        total_duration: params.total_duration,
        interval: params.interval,
        intervals_released: 0,
        revocable: params.revocable,
        revoked: false,
        termination_type: None,
        terminated_at: None,
        terminated_by: None,
        vested_at_termination: None,
        termination_notes: None,
    };
    proof {
        let secs = schedule.interval.spec_seconds();
        let vd = schedule.vesting_seconds();
        let ti = schedule.spec_total_intervals();
        lemma_div_by_self(secs);
        lemma_div_is_ordered(secs, vd, secs);
        lemma_div_pos_is_pos(schedule.total_amount as int, ti);
        lemma_mod_division_less_than_divisor(schedule.total_amount as int, ti);
        assert(schedule.intervals_amount(0) == 0);
    }
    Ok(schedule)
}

/// Amount vested at `current_time`, per the schedule's accrual rule:
/// nothing before the cliff, the full amount from the end of the duration,
/// the frozen snapshot after termination, and one equal share per elapsed
/// interval in between, with the extra remainder units over the trailing
/// intervals.
pub fn calculate_vested_amount(schedule: &VestingSchedule, current_time: i64) -> (r: u64)
    requires
        schedule.wf(),
    ensures
        r as int == schedule.vested(current_time as int),
{
    if let Some(v) = schedule.vested_at_termination {
        return v;
    }
    if schedule.revoked {
        return schedule.released_amount;
    }
    let now = current_time as i128;
    let start = schedule.start_time as i128;
    if now < start + schedule.cliff_duration as i128 {
        proof {
            lemma_vested_before_cliff(schedule, current_time as int);
        }
        return 0;
    }
    if now >= start + schedule.total_duration as i128 {
        proof {
            schedule.lemma_intervals_amount_bounds(
                schedule.spec_total_intervals(),
                schedule.spec_total_intervals(),
            );
        }
        return schedule.total_amount;
    }
    let time_after_cliff = (now - start - schedule.cliff_duration as i128) as u64;
    let interval_seconds = schedule.interval.to_seconds();
    let intervals_elapsed = time_after_cliff / interval_seconds;
    proof {
        schedule.lemma_elapsed_intervals(current_time as int, current_time as int);
        assert(intervals_elapsed as int == schedule.spec_elapsed_intervals(current_time as int));
    }
    vested_for_intervals(schedule, intervals_elapsed)
}

/// The accrual rule for a given number of elapsed intervals: `k` equal
/// shares plus the extra units past the plain intervals.
fn vested_for_intervals(schedule: &VestingSchedule, k: u64) -> (r: u64)
    requires
        schedule.wf(),
        k <= schedule.spec_total_intervals(),
    ensures
        r as int == schedule.intervals_amount(k as int),
        r <= schedule.total_amount,
{
    proof {
        schedule.lemma_interval_facts();
        schedule.lemma_intervals_amount_bounds(k as int, schedule.spec_total_intervals());
        lemma_mul_inequality(
            k as int,
            schedule.spec_total_intervals(),
            schedule.spec_amount_per_interval(),
        );
        assert(schedule.spec_amount_per_interval() * k as int == k as int
            * schedule.spec_amount_per_interval());
        assert(schedule.spec_amount_per_interval() * schedule.spec_total_intervals()
            == schedule.spec_total_intervals() * schedule.spec_amount_per_interval());
    }
    let amount_per_interval = schedule.amount_per_interval();
    let total_intervals = schedule.total_intervals();
    let rem = schedule.remainder();
    let plain = total_intervals - rem;
    let base = amount_per_interval * k;
    if k > plain {
        base + (k - plain)
    } else {
        base
    }
}

/// Before the cliff (and before the start) no interval has elapsed.
proof fn lemma_vested_before_cliff(schedule: &VestingSchedule, now: int)
    requires
        schedule.wf(),
        now < schedule.start_time + schedule.cliff_duration,
    ensures
        schedule.vested(now) == if schedule.vested_at_termination is Some {
            schedule.vested_at_termination->0 as int
        } else if schedule.revoked {
            schedule.released_amount as int
        } else {
            0
        },
{
    schedule.lemma_interval_facts();
    assert(schedule.intervals_amount(0) == 0);
}

/// How many whole intervals have elapsed by `current_time` beyond those
/// already released: the release entitlement counter. Zero before the
/// cliff; everything still unreleased from the end of the duration on.
pub fn calculate_releasable_intervals(schedule: &VestingSchedule, current_time: i64) -> (r: u64)
    requires
        schedule.wf(),
    ensures
        r as int == if schedule.spec_elapsed_intervals(current_time as int)
            > schedule.intervals_released {
            schedule.spec_elapsed_intervals(current_time as int) - schedule.intervals_released
        } else {
            0
        },
{
    proof {
        schedule.lemma_elapsed_intervals(current_time as int, current_time as int);
    }
    let now = current_time as i128;
    let start = schedule.start_time as i128;
    if now < start + schedule.cliff_duration as i128 {
        return 0;
    }
    if now >= start + schedule.total_duration as i128 {
        let total_intervals = schedule.total_intervals();
        if total_intervals > schedule.intervals_released {
            return total_intervals - schedule.intervals_released;
        }
        return 0;
    }
    let time_after_cliff = (now - start - schedule.cliff_duration as i128) as u64;
    let interval_seconds = schedule.interval.to_seconds();
    let intervals_elapsed = time_after_cliff / interval_seconds;
    if intervals_elapsed > schedule.intervals_released {
        intervals_elapsed - schedule.intervals_released
    } else {
        0
    }
}

/// What a release at `now` would pay: the accrual for all elapsed
/// intervals, less what was already released.
pub open spec fn releasable_amount(s: VestingSchedule, now: int) -> int {
    s.intervals_amount(s.spec_elapsed_intervals(now)) - s.released_amount
}

/// Whether a release at `now` pays anything: the schedule is not
/// terminated and newly elapsed intervals carry a positive amount.
pub open spec fn can_release(s: VestingSchedule, now: int) -> bool {
    !s.revoked && releasable_amount(s, now) > 0
}

/// A schedule after a successful release at `now`: the release counter
/// catches up with the elapsed intervals and the paid amount moves into
/// `released_amount`.
pub open spec fn after_release(s: VestingSchedule, now: int) -> VestingSchedule {
    VestingSchedule {
        intervals_released: s.spec_elapsed_intervals(now) as u64,
        released_amount: s.intervals_amount(s.spec_elapsed_intervals(now)) as u64,
        ..s
    }
}

/// Releases every interval that has elapsed by `now` and not been released
/// yet, and returns the amount the escrow owes the beneficiary for them.
/// Fails with `NoTokensToRelease` when the schedule is terminated, when no
/// new interval has elapsed, and when the newly elapsed intervals carry
/// nothing; the schedule is then untouched. Within one interval a repeated
/// call therefore pays nothing: the first call catches the counter up.
pub fn release_vested_tokens(schedule: &mut VestingSchedule, now: i64) -> (r: Result<
    u64,
    TokenError,
>)
    requires
        old(schedule).wf(),
    ensures
        final(schedule).wf(),
        !can_release(*old(schedule), now as int) ==> r == Err::<u64, TokenError>(
            TokenError::NoTokensToRelease,
        ) && *final(schedule) == *old(schedule),
        can_release(*old(schedule), now as int) ==> {
            &&& r == Ok::<u64, TokenError>(releasable_amount(*old(schedule), now as int) as u64)
            &&& *final(schedule) == after_release(*old(schedule), now as int)
            &&& final(schedule).intervals_released as int == final(schedule).spec_elapsed_intervals(
                now as int,
            )
        },
{
    proof {
        old(schedule).lemma_elapsed_intervals(now as int, now as int);
        old(schedule).lemma_intervals_amount_bounds(
            old(schedule).spec_elapsed_intervals(now as int),
            old(schedule).spec_total_intervals(),
        );
        old(schedule).lemma_intervals_amount_bounds(
            old(schedule).intervals_released as int,
            old(schedule).spec_total_intervals(),
        );
    }
    if schedule.revoked {
        return Err(TokenError::NoTokensToRelease);
    }
    let new_intervals = calculate_releasable_intervals(schedule, now);
    if new_intervals == 0 {
        proof {
            let ei = old(schedule).spec_elapsed_intervals(now as int);
            old(schedule).lemma_intervals_amount_bounds(
                ei,
                old(schedule).intervals_released as int,
            );
        }
        return Err(TokenError::NoTokensToRelease);
    }
    let previous_intervals = schedule.intervals_released;
    let new_total_intervals = previous_intervals + new_intervals;
    let amount_released = release_amount_between(schedule, previous_intervals, new_total_intervals);
    if amount_released == 0 {
        return Err(TokenError::NoTokensToRelease);
    }
    schedule.intervals_released = new_total_intervals;
    schedule.released_amount = schedule.released_amount + amount_released;
    Ok(amount_released)
}

/// The accrual difference between two release counters: what the intervals
/// from `from` (exclusive) to `to` (inclusive) pay.
fn release_amount_between(schedule: &VestingSchedule, from: u64, to: u64) -> (r: u64)
    requires
        schedule.wf(),
        schedule.intervals_released == from,
        from <= to <= schedule.spec_total_intervals(),
    ensures
        r as int == schedule.intervals_amount(to as int) - schedule.intervals_amount(from as int),
{
    proof {
        schedule.lemma_interval_facts();
        schedule.lemma_intervals_amount_bounds(from as int, to as int);
        lemma_mul_inequality(
            to as int - from as int,
            schedule.spec_total_intervals(),
            schedule.spec_amount_per_interval(),
        );
        assert(schedule.spec_amount_per_interval() * (to - from) == (to - from)
            * schedule.spec_amount_per_interval());
        assert(schedule.spec_amount_per_interval() * schedule.spec_total_intervals()
            == schedule.spec_total_intervals() * schedule.spec_amount_per_interval());
        lemma_mul_is_distributive_sub_other_way(
            schedule.spec_amount_per_interval(),
            to as int,
            from as int,
        );
    }
    let amount_per_interval = schedule.amount_per_interval();
    let total_intervals = schedule.total_intervals();
    let rem = schedule.remainder();
    let plain = total_intervals - rem;
    let base = amount_per_interval * (to - from);
    if to > plain {
        let extra_now = to - plain;
        let extra_before = if from > plain {
            from - plain
        } else {
            0
        };
        base + (extra_now - extra_before)
    } else {
        base
    }
}

/// The amount that vests under a termination of the given kind at `now`:
/// what has accrued for a standard departure, nothing for cause, the full
/// amount when accelerated.
pub open spec fn termination_vested(s: VestingSchedule, kind: TerminationType, now: int) -> int {
    match kind {
        TerminationType::Standard => s.vested(now),
        TerminationType::ForCause => 0,
        TerminationType::Accelerated => s.total_amount as int,
    }
}

/// What a termination returns from escrow to treasury: the escrow holds
/// `total - released`, and the beneficiary is still owed any vested excess
/// over what was released; only the difference comes back. Tokens already
/// released are never part of it.
pub open spec fn termination_return(s: VestingSchedule, kind: TerminationType, now: int) -> int {
    let fv = termination_vested(s, kind, now);
    if fv >= s.released_amount {
        s.total_amount - fv
    } else {
        s.total_amount - s.released_amount
    }
}

/// Terminates a schedule: freezes the vested amount according to the
/// termination kind, marks the schedule revoked, and returns the amount
/// the escrow owes the treasury. Fails with `AlreadyTerminated` on a
/// terminated schedule and with `TerminationNotesTooLong` on over-long
/// notes; the schedule is then untouched. The returned amount never
/// exceeds what is still in escrow, so released tokens are never clawed
/// back.
pub fn terminate_vesting(
    schedule: &mut VestingSchedule,
    termination_type: TerminationType,
    notes: Option<String>,
    terminated_by: u64,
    now: i64,
) -> (r: Result<u64, TokenError>)
    requires
        old(schedule).wf(),
    ensures
        final(schedule).wf(),
        old(schedule).revoked ==> r == Err::<u64, TokenError>(TokenError::AlreadyTerminated)
            && *final(schedule) == *old(schedule),
        !old(schedule).revoked && (notes matches Some(n) && n@.len() > MAX_NOTES_CHARS) ==> r
            == Err::<u64, TokenError>(TokenError::TerminationNotesTooLong) && *final(schedule)
            == *old(schedule),
        !old(schedule).revoked && !(notes matches Some(n) && n@.len() > MAX_NOTES_CHARS) ==> {
            &&& r == Ok::<u64, TokenError>(
                termination_return(*old(schedule), termination_type, now as int) as u64,
            )
            &&& *final(schedule) == (VestingSchedule {
                revoked: true,
                termination_type: Some(termination_type),
                terminated_at: Some(now),
                terminated_by: Some(terminated_by),
                vested_at_termination: Some(
                    termination_vested(*old(schedule), termination_type, now as int) as u64,
                ),
                termination_notes: notes,
                ..*old(schedule)
            })
        },
        r matches Ok(returned) ==> returned <= old(schedule).total_amount - old(
            schedule,
        ).released_amount,
        r is Ok ==> forall|t: int|
            #[trigger] final(schedule).vested(t) == termination_vested(
                *old(schedule),
                termination_type,
                now as int,
            ),
{
    proof {
        old(schedule).lemma_elapsed_intervals(now as int, now as int);
        old(schedule).lemma_intervals_amount_bounds(
            old(schedule).intervals_released as int,
            old(schedule).spec_total_intervals(),
        );
        old(schedule).lemma_intervals_amount_bounds(
            old(schedule).spec_elapsed_intervals(now as int),
            old(schedule).spec_total_intervals(),
        );
    }
    if schedule.revoked {
        return Err(TokenError::AlreadyTerminated);
    }
    if let Some(ref n) = notes {
        if n.as_str().unicode_len() > MAX_NOTES_CHARS {
            return Err(TokenError::TerminationNotesTooLong);
        }
    }
    let vested_now = calculate_vested_amount(schedule, now);
    let final_vested = match termination_type {
        TerminationType::Standard => vested_now,
        TerminationType::ForCause => 0,
        TerminationType::Accelerated => schedule.total_amount,
    };
    let owed_floor = if final_vested > schedule.released_amount {
        final_vested
    } else {
        schedule.released_amount
    };
    let to_return = schedule.total_amount - owed_floor;
    schedule.revoked = true;
    schedule.termination_type = Some(termination_type);
    schedule.terminated_at = Some(now);
    schedule.terminated_by = Some(terminated_by);
    schedule.vested_at_termination = Some(final_vested);
    schedule.termination_notes = notes;
    Ok(to_return)
}

/// Accounting invariant: a valid schedule has never released more than
/// its total; the accrual rule accounts exactly for what went out.
pub proof fn lemma_released_within_total(s: VestingSchedule)
    requires
        s.wf(),
    ensures
        s.released_amount <= s.total_amount,
{
    s.lemma_intervals_amount_bounds(s.intervals_released as int, s.spec_total_intervals());
}

/// Remainder distribution law: over the full unrevoked lifetime the
/// per-interval releases sum to exactly the total amount. The accrual rule
/// pays the whole total once all intervals have elapsed — no integer-
/// division loss — and since each release moves the accrual difference
/// into `released_amount`, a schedule whose release counter has caught up
/// with the interval count has released exactly the total.
pub proof fn lemma_releases_sum_to_total(s: VestingSchedule)
    requires
        s.wf(),
    ensures
        s.intervals_amount(s.spec_total_intervals()) == s.total_amount,
        s.intervals_released == s.spec_total_intervals() ==> s.released_amount == s.total_amount,
        forall|t: int|
            !s.revoked && s.vested_at_termination is None && t >= s.start_time + s.total_duration
                ==> #[trigger] s.vested(t) == s.total_amount,
{
    s.lemma_interval_facts();
    s.lemma_intervals_amount_bounds(s.spec_total_intervals(), s.spec_total_intervals());
}

/// Monotonicity law: the vested amount never decreases as time passes. On
/// an active schedule the accrual rule only grows with elapsed intervals;
/// after a revocation or termination the vested amount is constant.
pub proof fn lemma_vested_monotonic(s: VestingSchedule, t1: int, t2: int)
    requires
        s.wf(),
        t1 <= t2,
    ensures
        s.vested(t1) <= s.vested(t2),
{
    if s.vested_at_termination is None && !s.revoked {
        s.lemma_elapsed_intervals(t1, t2);
        s.lemma_intervals_amount_bounds(
            s.spec_elapsed_intervals(t1),
            s.spec_elapsed_intervals(t2),
        );
    }
}

/// Idempotence law: a release is idempotent within one interval. After a
/// release at `t1` has caught the release counter up, a second release at
/// any `t2` in the same interval finds nothing to pay, so by the contract
/// of `release_vested_tokens` it fails with `NoTokensToRelease` and leaves
/// the schedule untouched.
pub proof fn lemma_release_idempotent(s: VestingSchedule, t1: int, t2: int)
    requires
        s.wf(),
        s.intervals_released == s.spec_elapsed_intervals(t1),
        s.spec_elapsed_intervals(t2) == s.spec_elapsed_intervals(t1),
    ensures
        releasable_amount(s, t2) == 0,
        !can_release(s, t2),
{
}

} // verus!
