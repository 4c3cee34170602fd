//! Activity/idle tracking engine.
//!
//! One manager owns one [`ActivityState`] record; it classifies the user as
//! active or idle from the time elapsed since the last recorded activity and
//! accumulates active/idle seconds. Idle detection is purely poll-driven: an
//! external caller decides when to invoke `check_idle_status`.
//!
//! Each operation reads the wall clock once, at the moment of the call. The
//! transition itself is a pure function of the state and that clock value,
//! defined by the `spec_*` functions below and exposed as an `_at` variant
//! that takes the clock value as an argument, so both the crediting policy
//! and the edge cases are verified for every possible clock reading —
//! including a backward clock step, where a negative elapsed time is treated
//! as zero rather than underflowing an accumulator.

use vstd::prelude::*;

verus! {

/// Snapshot of the activity tracker.
#[derive(Clone, Copy, Debug, PartialEq, Eq, Structural)]
pub struct ActivityState {
    /// The user currently counts as active.
    pub is_active: bool,
    /// Unix timestamp (seconds) of the last recorded activity.
    pub last_activity_time: u64,
    /// Seconds without activity before the user is classified idle.
    pub idle_threshold_seconds: u64,
    /// Accumulated active seconds; never decreases except by an explicit reset.
    pub total_active_seconds: u64,
    /// Accumulated idle seconds; never decreases except by an explicit reset.
    pub total_idle_seconds: u64,
}

impl ActivityState {
    /// The initial state at a given clock reading: active, a 5 minute
    /// threshold, both accumulators at zero.
    pub open spec fn spec_initial(now: u64) -> ActivityState {
        ActivityState {
            is_active: true,
            last_activity_time: now,
            idle_threshold_seconds: 300,
            total_active_seconds: 0,
            total_idle_seconds: 0,
        }
    }
}

impl Default for ActivityState {
    /// The initial state, stamped with the current wall clock.
    fn default() -> (r: Self)
        ensures
            r == ActivityState::spec_initial(r.last_activity_time),
    {
        ActivityState {
            is_active: true,
            last_activity_time: current_timestamp(),
            idle_threshold_seconds: 300,
            total_active_seconds: 0,
            total_idle_seconds: 0,
        }
    }
}

/// `now - then`, clamped to zero when the clock stepped backwards.
pub open spec fn spec_elapsed(now: u64, then: u64) -> u64 {
    if now >= then {
        (now - then) as u64
    } else {
        0
    }
}

/// `a + b`, saturating at `u64::MAX` so an accumulator can never wrap.
pub open spec fn spec_sat_add(a: u64, b: u64) -> u64 {
    if a + b > u64::MAX {
        u64::MAX
    } else {
        (a + b) as u64
    }
}

/// The state after `record_activity` at clock reading `now`. The elapsed
/// interval is credited to the idle accumulator when the tracker was idle
/// and the interval stayed under the threshold, to the active accumulator
/// when the tracker was active, and dropped otherwise; the user then counts
/// as active as of `now`, regardless of prior state.
pub open spec fn spec_record_activity(s: ActivityState, now: u64) -> ActivityState {
    let elapsed = spec_elapsed(now, s.last_activity_time);
    let credited = if !s.is_active && elapsed < s.idle_threshold_seconds {
        ActivityState { total_idle_seconds: spec_sat_add(s.total_idle_seconds, elapsed), ..s }
    } else if s.is_active {
        ActivityState { total_active_seconds: spec_sat_add(s.total_active_seconds, elapsed), ..s }
    } else {
        s
    };
    ActivityState { is_active: true, last_activity_time: now, ..credited }
}

/// Whether the tracker counts as idle at clock reading `now`: at least the
/// threshold has elapsed since the last recorded activity.
pub open spec fn spec_is_idle(s: ActivityState, now: u64) -> bool {
    spec_elapsed(now, s.last_activity_time) >= s.idle_threshold_seconds
}

/// The state after `check_idle_status` at clock reading `now`. Only a flip
/// of the activity flag mutates anything, and the elapsed interval is then
/// credited to the accumulator of the state being *left*: going idle credits
/// the active accumulator, waking up credits the idle accumulator.
pub open spec fn spec_check_idle(s: ActivityState, now: u64) -> ActivityState {
    let idle_duration = spec_elapsed(now, s.last_activity_time);
    if spec_is_idle(s, now) && s.is_active {
        ActivityState {
            is_active: false,
            total_active_seconds: spec_sat_add(s.total_active_seconds, idle_duration),
            ..s
        }
    } else if !spec_is_idle(s, now) && !s.is_active {
        ActivityState {
            is_active: true,
            total_idle_seconds: spec_sat_add(s.total_idle_seconds, idle_duration),
            ..s
        }
    } else {
        s
    }
}

/// What `get_idle_duration` reports at clock reading `now`: the elapsed
/// time once it reaches the threshold, and exactly zero below it.
pub open spec fn spec_idle_duration(s: ActivityState, now: u64) -> u64 {
    if spec_is_idle(s, now) {
        spec_elapsed(now, s.last_activity_time)
    } else {
        0
    }
}

/// The state after `reset_activity_counters` at clock reading `now`: both
/// accumulators at zero and the activity stamp at `now`, unconditionally;
/// the activity flag and the threshold are untouched.
pub open spec fn spec_reset(s: ActivityState, now: u64) -> ActivityState {
    ActivityState {
        last_activity_time: now,
        total_active_seconds: 0,
        total_idle_seconds: 0,
        ..s
    }
}

/// Relies on std's `SystemTime`: `now` and `duration_since(UNIX_EPOCH)`
/// give the wall-clock offset from the epoch, reported here in whole
/// seconds, and as zero for a clock set before the epoch. The result
/// depends on the moment of the call, so nothing is promised of it.
#[verifier::external_body]
fn read_system_clock_seconds() -> u64 {
    std::time::SystemTime::now()
        .duration_since(std::time::UNIX_EPOCH)
        .map(|d| d.as_secs())
        .unwrap_or(0)
}

/// Seconds since the Unix epoch, read from the host wall clock at the
/// moment of the call; no two calls are related to one another.
pub fn current_timestamp() -> u64 {
    read_system_clock_seconds()
}

/// The activity tracker: one state record, mutated by every operation.
pub struct IdleDetector {
    state: ActivityState,
}

impl View for IdleDetector {
    type V = ActivityState;

    closed spec fn view(&self) -> ActivityState {
        self.state
    }
}

impl Default for IdleDetector {
    /// A fresh tracker in the initial state, stamped with the current
    /// wall clock.
    fn default() -> (r: Self)
        ensures
            r@ == ActivityState::spec_initial(r@.last_activity_time),
    {
        IdleDetector { state: ActivityState::default() }
    }
}

impl IdleDetector {
    /// Return the current snapshot. Never fails, never mutates.
    pub fn get_activity_state(&self) -> (r: Result<ActivityState, crate::errors::CommandError>)
        ensures
            r == Ok::<ActivityState, crate::errors::CommandError>(self@),
    {
        Ok(self.state)
    }

    /// Replace the idle threshold unconditionally. Never fails.
    pub fn update_idle_threshold(&mut self, threshold_seconds: u64) -> (r: Result<
        (),
        crate::errors::CommandError,
    >)
        ensures
            final(self)@ == (ActivityState { idle_threshold_seconds: threshold_seconds, ..old(self)@ }),
            r == Ok::<(), crate::errors::CommandError>(()),
    {
        self.state.idle_threshold_seconds = threshold_seconds;
        Ok(())
    }

    /// `record_activity` against an explicit clock reading.
    pub fn record_activity_at(&mut self, now: u64) -> (r: ActivityState)
        ensures
            final(self)@ == spec_record_activity(old(self)@, now),
            r == final(self)@,
    {
        let elapsed = if now >= self.state.last_activity_time {
            now - self.state.last_activity_time
        } else {
            0
        };

        if !self.state.is_active && elapsed < self.state.idle_threshold_seconds {
            self.state.total_idle_seconds = sat_add(self.state.total_idle_seconds, elapsed);
        } else if self.state.is_active {
            self.state.total_active_seconds = sat_add(self.state.total_active_seconds, elapsed);
        }

        self.state.is_active = true;
        self.state.last_activity_time = now;

        self.state
    }

    /// Record user activity at the current wall clock: credit the elapsed
    /// interval per the crediting policy, then mark the user active as of
    /// now. After the call the activity stamp *is* the clock reading used,
    /// so the whole transition is pinned by it. Never fails.
    pub fn record_activity(&mut self) -> (r: Result<ActivityState, crate::errors::CommandError>)
        ensures
            final(self)@ == spec_record_activity(old(self)@, final(self)@.last_activity_time),
            r == Ok::<ActivityState, crate::errors::CommandError>(final(self)@),
    {
        let now = current_timestamp();
        Ok(self.record_activity_at(now))
    }

    /// `check_idle_status` against an explicit clock reading.
    pub fn check_idle_status_at(&mut self, now: u64) -> (r: bool)
        ensures
            final(self)@ == spec_check_idle(old(self)@, now),
            r == spec_is_idle(old(self)@, now),
    {
        let idle_duration = if now >= self.state.last_activity_time {
            now - self.state.last_activity_time
        } else {
            0
        };
        let is_now_idle = idle_duration >= self.state.idle_threshold_seconds;

        if is_now_idle && self.state.is_active {
            self.state.is_active = false;
            self.state.total_active_seconds = sat_add(
                self.state.total_active_seconds,
                idle_duration,
            );
        } else if !is_now_idle && !self.state.is_active {
            self.state.is_active = true;
            self.state.total_idle_seconds = sat_add(self.state.total_idle_seconds, idle_duration);
        }

        is_now_idle
    }

    /// Poll idle status at the current wall clock: report whether the user
    /// now counts as idle, and on a flip of the flag credit the elapsed
    /// interval to the accumulator of the state being left. The clock
    /// reading is not recorded, so the contract holds for some reading.
    /// Never fails.
    pub fn check_idle_status(&mut self) -> (r: Result<bool, crate::errors::CommandError>)
        ensures
            exists|now: u64|
                final(self)@ == spec_check_idle(old(self)@, now) && r == Ok::<
                    bool,
                    crate::errors::CommandError,
                >(spec_is_idle(old(self)@, now)),
    {
        let now = current_timestamp();
        let is_now_idle = self.check_idle_status_at(now);
        Ok(is_now_idle)
    }

    /// `get_idle_duration` against an explicit clock reading.
    pub fn get_idle_duration_at(&self, now: u64) -> (r: u64)
        ensures
            r == spec_idle_duration(self@, now),
    {
        let idle_duration = if now >= self.state.last_activity_time {
            now - self.state.last_activity_time
        } else {
            0
        };
        if idle_duration >= self.state.idle_threshold_seconds {
            idle_duration
        } else {
            0
        }
    }

    /// Report how long the user has been idle at the current wall clock:
    /// the elapsed time since the last activity once it reaches the
    /// threshold, and exactly zero below it. Pure read. Never fails.
    pub fn get_idle_duration(&self) -> (r: Result<u64, crate::errors::CommandError>)
        ensures
            exists|now: u64|
                r == Ok::<u64, crate::errors::CommandError>(spec_idle_duration(self@, now)),
    {
        let now = current_timestamp();
        Ok(self.get_idle_duration_at(now))
    }

    /// `reset_activity_counters` against an explicit clock reading.
    pub fn reset_activity_counters_at(&mut self, now: u64)
        ensures
            final(self)@ == spec_reset(old(self)@, now),
    {
        self.state.total_active_seconds = 0;
        self.state.total_idle_seconds = 0;
        self.state.last_activity_time = now;
    }

    /// Zero both accumulators and restamp the last activity time with the
    /// current wall clock, independent of prior values; the activity flag
    /// is untouched. After the call the activity stamp is the clock reading
    /// used. Never fails.
    pub fn reset_activity_counters(&mut self) -> (r: Result<(), crate::errors::CommandError>)
        ensures
            final(self)@ == spec_reset(old(self)@, final(self)@.last_activity_time),
            r == Ok::<(), crate::errors::CommandError>(()),
    {
        let now = current_timestamp();
        self.reset_activity_counters_at(now);
        Ok(())
    }

    /// Report the active-seconds accumulator as-is. It is lifetime-since-
    /// reset, not calendar-day scoped. Pure read. Never fails.
    pub fn get_today_active_time(&self) -> (r: Result<u64, crate::errors::CommandError>)
        ensures
            r == Ok::<u64, crate::errors::CommandError>(self@.total_active_seconds),
    {
        Ok(self.state.total_active_seconds)
    }
}

/// `a + b` saturating at `u64::MAX`.
fn sat_add(a: u64, b: u64) -> (r: u64)
    ensures
        r == spec_sat_add(a, b),
{
    if b > u64::MAX - a {
        u64::MAX
    } else {
        a + b
    }
}

/// After any `record_activity`, the user counts as active and the activity
/// stamp is the clock reading of the call, regardless of prior state.
pub proof fn lemma_record_activity_marks_active(s: ActivityState, now: u64)
    ensures
        spec_record_activity(s, now).is_active,
        spec_record_activity(s, now).last_activity_time == now,
        spec_record_activity(s, now).idle_threshold_seconds == s.idle_threshold_seconds,
{
}

/// The idle duration reported below the threshold is exactly zero.
pub proof fn lemma_idle_duration_below_threshold(s: ActivityState, now: u64)
    requires
        spec_elapsed(now, s.last_activity_time) < s.idle_threshold_seconds,
    ensures
        spec_idle_duration(s, now) == 0,
{
}

/// A reset zeroes both accumulators and restamps the activity time,
/// independent of prior values, and touches nothing else.
pub proof fn lemma_reset_unconditional(s: ActivityState, now: u64)
    ensures
        spec_reset(s, now).total_active_seconds == 0,
        spec_reset(s, now).total_idle_seconds == 0,
        spec_reset(s, now).last_activity_time == now,
        spec_reset(s, now).is_active == s.is_active,
        spec_reset(s, now).idle_threshold_seconds == s.idle_threshold_seconds,
{
}

/// Both accumulators are monotonically non-decreasing under the two
/// crediting operations, and each operation credits at most one of them.
pub proof fn lemma_accumulators_monotonic(s: ActivityState, now: u64)
    ensures
        spec_record_activity(s, now).total_active_seconds >= s.total_active_seconds,
        spec_record_activity(s, now).total_idle_seconds >= s.total_idle_seconds,
        spec_check_idle(s, now).total_active_seconds >= s.total_active_seconds,
        spec_check_idle(s, now).total_idle_seconds >= s.total_idle_seconds,
        spec_record_activity(s, now).total_active_seconds == s.total_active_seconds
            || spec_record_activity(s, now).total_idle_seconds == s.total_idle_seconds,
        spec_check_idle(s, now).total_active_seconds == s.total_active_seconds || spec_check_idle(
            s,
            now,
        ).total_idle_seconds == s.total_idle_seconds,
{
}

/// `check_idle_status` mutates nothing unless the activity flag flips, and
/// when it flips, the interval is credited to the accumulator of the state
/// being left.
pub proof fn lemma_check_idle_flip_policy(s: ActivityState, now: u64)
    ensures
        spec_is_idle(s, now) == s.is_active ==> spec_check_idle(s, now).is_active != s.is_active,
        spec_is_idle(s, now) != s.is_active ==> spec_check_idle(s, now) == s,
        s.is_active && spec_is_idle(s, now) ==> spec_check_idle(s, now).total_active_seconds
            == spec_sat_add(s.total_active_seconds, spec_elapsed(now, s.last_activity_time)),
        !s.is_active && !spec_is_idle(s, now) ==> spec_check_idle(s, now).total_idle_seconds
            == spec_sat_add(s.total_idle_seconds, spec_elapsed(now, s.last_activity_time)),
{
}

} // verus!
