//! A count-down timer on the wall clock: it runs for a fixed duration across
//! start/stop cycles and reports the time elapsed and the time remaining.
//! A wall clock found to have been set back adds no running time.

use vstd::prelude::*;

use crate::time::{
    clamped_difference, lemma_duration_fits, lemma_instant_fits, max_nanos, saturated_sum,
    Duration, Instant,
};

verus! {

broadcast use {lemma_duration_fits, lemma_instant_fits};

/// The state of a timer in whole numbers: points in time are nanoseconds
/// since the clock's origin, spans are nanoseconds.
pub struct TimerModel {
    /// When the timer was last started (or made, or reset).
    pub start: nat,
    /// The running time kept at the last stop.
    pub elapsed: nat,
    /// The span the timer counts down from.
    pub duration: nat,
    pub running: bool,
}

impl TimerModel {
    /// A stopped timer for `duration` with no running time, made at `now`.
    pub open spec fn armed(duration: nat, now: nat) -> TimerModel {
        TimerModel { start: now, elapsed: 0, duration, running: false }
    }

    /// The running time read at `now`: the time kept at the last stop, plus
    /// the time since the start while running (none, if `now` lies before
    /// the start). The sum is held at the largest representable span.
    pub open spec fn elapsed_at(self, now: nat) -> nat {
        if self.running {
            saturated_sum(self.elapsed, clamped_difference(now, self.start))
        } else {
            self.elapsed
        }
    }

    /// The time left at `now`: the duration less the running time, and
    /// never below zero.
    pub open spec fn remaining_at(self, now: nat) -> nat {
        clamped_difference(self.duration, self.elapsed_at(now))
    }

    /// Whether no time is left at `now`.
    pub open spec fn done_at(self, now: nat) -> bool {
        self.remaining_at(now) == 0
    }

    /// Whether the whole duration is left at `now`.
    pub open spec fn not_started_at(self, now: nat) -> bool {
        self.remaining_at(now) == self.duration
    }

    /// The state after a start at `now`: a stopped timer runs from `now`,
    /// keeping the running time it had.
    pub open spec fn started(self, now: nat) -> TimerModel {
        if self.running {
            self
        } else {
            TimerModel { start: now, running: true, ..self }
        }
    }

    /// The state after a stop at `now`: a running timer keeps its running
    /// time up to `now`.
    pub open spec fn stopped(self, now: nat) -> TimerModel {
        if self.running {
            TimerModel { elapsed: self.elapsed_at(now), running: false, ..self }
        } else {
            self
        }
    }

    /// The state after a reset at `now`: stopped, with no running time and
    /// the same duration.
    pub open spec fn cleared(self, now: nat) -> TimerModel {
        TimerModel::armed(self.duration, now)
    }
}

/// A reset leaves the timer stopped with its duration, no running time, and
/// the whole duration left at any later reading.
pub proof fn lemma_reset_restores_duration(t: TimerModel, now: nat, later: nat)
    ensures
        !t.cleared(now).running,
        t.cleared(now).duration == t.duration,
        t.cleared(now).elapsed_at(later) == 0,
        t.cleared(now).remaining_at(later) == t.duration,
{
}

/// The time left is never negative and never more than the duration; the
/// timer is done exactly when no time is left, which is exactly when the
/// running time has reached the duration.
pub proof fn lemma_done_iff_nothing_remains(t: TimerModel, now: nat)
    ensures
        0 <= t.remaining_at(now) <= t.duration,
        t.done_at(now) <==> t.remaining_at(now) == 0,
        t.done_at(now) <==> t.elapsed_at(now) >= t.duration,
{
}

/// For a timer of non-zero duration, the whole duration is left exactly when
/// no running time has been recorded. (A timer of zero duration always has
/// its whole duration, nothing, left.)
pub proof fn lemma_not_started_iff_nothing_elapsed(t: TimerModel, now: nat)
    requires
        t.duration > 0,
    ensures
        t.not_started_at(now) <==> t.elapsed_at(now) == 0,
{
}

/// A timer that counts down from a fixed duration on the wall clock.
#[derive(Debug, Clone, Copy, PartialEq, Eq, Structural)]
pub struct Timer {
    start_time: Instant,
    elapsed_time: Duration,
    duration: Duration,
    is_running: bool,
}

impl View for Timer {
    type V = TimerModel;

    closed spec fn view(&self) -> TimerModel {
        TimerModel {
            start: self.start_time@,
            elapsed: self.elapsed_time@,
            duration: self.duration@,
            running: self.is_running,
        }
    }
}

impl Timer {
    /// A stopped timer for `duration` with no running time, made at `now`.
    pub fn new_at(duration: Duration, now: Instant) -> (r: Timer)
        ensures
            r@ == TimerModel::armed(duration@, now@),
    {
        Timer { start_time: now, elapsed_time: Duration::from_nanos(0), duration, is_running: false }
    }

    /// A stopped timer for `duration` with no running time, made at the wall
    /// clock's current reading.
    pub fn new(duration: Duration) -> (r: Timer)
        ensures
            exists|now: nat| now <= max_nanos() && #[trigger] TimerModel::armed(duration@, now) == r@,
    {
        Timer::new_at(duration, Instant::now())
    }

    /// Starts the timer at `now`; does nothing if it is running. The running
    /// time it had is kept.
    pub fn start_at(&mut self, now: Instant)
        ensures
            final(self)@ == old(self)@.started(now@),
    {
        if !self.is_running {
            self.is_running = true;
            self.start_time = now;
        }
    }

    /// Starts the timer at the wall clock's current reading; see `start_at`.
    pub fn start(&mut self)
        ensures
            exists|now: nat| now <= max_nanos() && #[trigger] old(self)@.started(now) == final(self)@,
    {
        self.start_at(Instant::now());
    }

    /// Stops the timer at `now`, keeping its running time; does nothing if
    /// it is stopped.
    pub fn stop_at(&mut self, now: Instant)
        ensures
            final(self)@ == old(self)@.stopped(now@),
    {
        if self.is_running {
            let since_start = now.saturating_duration_since(self.start_time);
            self.elapsed_time = self.elapsed_time.saturating_add(since_start);
            self.is_running = false;
        }
    }

    /// Stops the timer at the wall clock's current reading; see `stop_at`.
    pub fn stop(&mut self)
        ensures
            exists|now: nat| now <= max_nanos() && #[trigger] old(self)@.stopped(now) == final(self)@,
    {
        self.stop_at(Instant::now());
    }

    /// Resets the timer at `now`: stopped, no running time, same duration.
    pub fn reset_at(&mut self, now: Instant)
        ensures
            final(self)@ == old(self)@.cleared(now@),
    {
        self.start_time = now;
        self.elapsed_time = Duration::from_nanos(0);
        self.is_running = false;
    }

    /// Resets the timer at the wall clock's current reading; see `reset_at`.
    pub fn reset(&mut self)
        ensures
            exists|now: nat| now <= max_nanos() && #[trigger] old(self)@.cleared(now) == final(self)@,
    {
        self.reset_at(Instant::now());
    }

    /// The running time read at `now`.
    pub fn elapsed_at(&self, now: Instant) -> (r: Duration)
        ensures
            r@ == self@.elapsed_at(now@),
    {
        if self.is_running {
            let since_start = now.saturating_duration_since(self.start_time);
            self.elapsed_time.saturating_add(since_start)
        } else {
            self.elapsed_time
        }
    }

    /// The running time read at the wall clock's current reading; the timer
    /// is left as it was.
    pub fn elapsed(&mut self) -> (r: Duration)
        ensures
            *final(self) == *old(self),
            exists|now: nat| now <= max_nanos() && #[trigger] old(self)@.elapsed_at(now) == r@,
    {
        self.elapsed_at(Instant::now())
    }

    /// The time left at `now`: the duration less the running time, and never
    /// below zero.
    pub fn remaining_at(&self, now: Instant) -> (r: Duration)
        ensures
            r@ == self@.remaining_at(now@),
    {
        self.duration.saturating_sub(self.elapsed_at(now))
    }

    /// The time left at the wall clock's current reading.
    pub fn remaining(&self) -> (r: Duration)
        ensures
            exists|now: nat| now <= max_nanos() && #[trigger] self@.remaining_at(now) == r@,
    {
        self.remaining_at(Instant::now())
    }

    /// The span the timer counts down from.
    pub fn duration(&self) -> (r: Duration)
        ensures
            r@ == self@.duration,
    {
        self.duration
    }

    /// Whether the timer is running.
    pub fn is_running(&self) -> (r: bool)
        ensures
            r == self@.running,
    {
        self.is_running
    }

    /// Whether no time is left at `now`.
    pub fn is_done_at(&self, now: Instant) -> (r: bool)
        ensures
            r == self@.done_at(now@),
    {
        self.remaining_at(now).is_zero()
    }

    /// Whether no time is left at the wall clock's current reading.
    pub fn is_done(&self) -> (r: bool)
        ensures
            exists|now: nat| now <= max_nanos() && #[trigger] self@.done_at(now) == r,
    {
        self.is_done_at(Instant::now())
    }

    /// Whether the whole duration is left at `now`.
    pub fn has_not_started_at(&self, now: Instant) -> (r: bool)
        ensures
            r == self@.not_started_at(now@),
    {
        self.remaining_at(now).as_nanos() == self.duration.as_nanos()
    }

    /// Whether the whole duration is left at the wall clock's current
    /// reading.
    pub fn has_not_started(&self) -> (r: bool)
        ensures
            exists|now: nat| now <= max_nanos() && #[trigger] self@.not_started_at(now) == r,
    {
        self.has_not_started_at(Instant::now())
    }
}

} // verus!
