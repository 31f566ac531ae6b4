//! A stopwatch on a monotonic clock, with laps numbered by `u32`, and the
//! millisecond rendering of durations. A span that would be negative is
//! taken as zero.

use vstd::prelude::*;

use crate::render::{clock_face, clock_face_string};
use crate::stopwatch::{instant_option_view, LapRecord, StopwatchModel};
use crate::time::{
    clamped_difference, lemma_duration_fits, lemma_instant_fits, max_nanos, saturated_sum,
    Duration, Instant, MonotonicClock, NANOS_PER_MILLI, NANOS_PER_SEC,
};

verus! {

broadcast use {lemma_duration_fits, lemma_instant_fits};

/// One recorded lap: its number, the time since the previous lap (or since
/// the start, for the first), and the running time since the start.
#[derive(Debug)]
pub struct LapTime {
    lap_number: u32,
    split_time: Duration,
    total_time: Duration,
}

impl View for LapTime {
    type V = LapRecord;

    closed spec fn view(&self) -> LapRecord {
        LapRecord {
            lap_number: self.lap_number as nat,
            split: self.split_time@,
            total: self.total_time@,
        }
    }
}

impl LapTime {
    /// A lap with the given number, split time and total time.
    pub fn new(lap_number: u32, split_time: Duration, total_time: Duration) -> (r: LapTime)
        ensures
            r@ == (LapRecord { lap_number: lap_number as nat, split: split_time@, total: total_time@ }),
    {
        LapTime { lap_number, split_time, total_time }
    }

    /// The lap's number; the first lap is number 1.
    pub fn lap_number(&self) -> (r: u32)
        ensures
            r == self@.lap_number,
    {
        self.lap_number
    }

    /// The time since the previous lap, or since the start for the first lap.
    pub fn split_time(&self) -> (r: Duration)
        ensures
            r@ == self@.split,
    {
        self.split_time
    }

    /// The running time since the start when the lap was taken.
    pub fn total_time(&self) -> (r: Duration)
        ensures
            r@ == self@.total,
    {
        self.total_time
    }
}

/// The state after a start at `now`: a stopped stopwatch resumes with both
/// anchors moved forward by the length of the pause; one never stopped
/// starts from `now`.
pub open spec fn monotonic_started(m: StopwatchModel, now: nat) -> StopwatchModel {
    if m.running {
        m
    } else {
        match m.paused {
            Some(p) => StopwatchModel {
                running: true,
                total_start: saturated_sum(m.total_start, clamped_difference(now, p)),
                split_start: saturated_sum(m.split_start, clamped_difference(now, p)),
                paused: None,
                ..m
            },
            None => StopwatchModel {
                running: true,
                total_start: now,
                split_start: now,
                paused: None,
                ..m
            },
        }
    }
}

/// The state after a stop at `now`: the running time up to `now` is kept
/// and `now` is remembered as the start of the pause.
pub open spec fn monotonic_stopped(m: StopwatchModel, now: nat) -> StopwatchModel {
    if m.running {
        StopwatchModel {
            running: false,
            elapsed: clamped_difference(now, m.total_start),
            paused: Some(now),
            ..m
        }
    } else {
        m
    }
}

/// The lap recorded by a running stopwatch at `now`.
pub open spec fn monotonic_next_lap(m: StopwatchModel, now: nat) -> LapRecord {
    LapRecord {
        lap_number: m.laps.len() + 1,
        split: clamped_difference(now, m.split_start),
        total: clamped_difference(now, m.total_start),
    }
}

/// The state after a lap at `now`: a running stopwatch records a lap;
/// either way the next split starts at `now`.
pub open spec fn monotonic_lapped(m: StopwatchModel, now: nat) -> StopwatchModel {
    if m.running {
        StopwatchModel {
            split_start: now,
            elapsed: clamped_difference(now, m.total_start),
            laps: m.laps.push(monotonic_next_lap(m, now)),
            ..m
        }
    } else {
        StopwatchModel { split_start: now, ..m }
    }
}

/// The running time read at `now`: the time since the start while running,
/// the time kept at the last stop otherwise.
pub open spec fn monotonic_reading(m: StopwatchModel, now: nat) -> nat {
    if m.running {
        clamped_difference(now, m.total_start)
    } else {
        m.elapsed
    }
}

/// Laps are numbered 1, 2, ... in order, and a running stopwatch is not
/// paused.
pub open spec fn laps_numbered(m: StopwatchModel) -> bool {
    &&& forall|i: int| 0 <= i < m.laps.len() ==> #[trigger] m.laps[i].lap_number == i + 1
    &&& m.running ==> m.paused is None
}

/// A reset leaves the stopwatch stopped, with no laps, and reading no running
/// time at any later reading.
pub proof fn lemma_monotonic_reset_clears(now: nat, later: nat)
    ensures
        laps_numbered(StopwatchModel::cleared(now)),
        !StopwatchModel::cleared(now).running,
        StopwatchModel::cleared(now).laps.len() == 0,
        monotonic_reading(StopwatchModel::cleared(now), later) == 0,
{
}

/// A stopwatch that counts up on its own monotonic clock and records laps.
#[derive(Debug)]
pub struct Stopwatch {
    clock: MonotonicClock,
    running: bool,
    total_start_time: Instant,
    split_start_time: Instant,
    elapsed_time: Duration,
    paused_time: Option<Instant>,
    lap_times: Vec<LapTime>,
}

impl View for Stopwatch {
    type V = StopwatchModel;

    closed spec fn view(&self) -> StopwatchModel {
        StopwatchModel {
            running: self.running,
            total_start: self.total_start_time@,
            split_start: self.split_start_time@,
            elapsed: self.elapsed_time@,
            paused: instant_option_view(self.paused_time),
            laps: self.lap_times@.map_values(|l: LapTime| l@),
        }
    }
}

impl Stopwatch {
    #[verifier::type_invariant]
    spec fn inv(&self) -> bool {
        laps_numbered(self@)
    }

    /// A stopped stopwatch with no running time and no laps, on a new clock.
    pub fn new() -> (r: Stopwatch)
        ensures
            r@ == StopwatchModel::cleared(0),
    {
        let clock = MonotonicClock::new();
        let now = Instant::from_nanos(0);
        let r = Stopwatch {
            clock,
            running: false,
            total_start_time: now,
            split_start_time: now,
            elapsed_time: Duration::from_nanos(0),
            paused_time: None,
            lap_times: Vec::new(),
        };
        assert(r@.laps =~= Seq::<LapRecord>::empty());
        r
    }

    /// Starts the stopwatch at the clock reading `now`; does nothing if it is
    /// running. A stopped stopwatch resumes where it stopped: the pause is
    /// left out of its running time and of the current split.
    pub fn start_at(&mut self, now: Instant)
        ensures
            final(self)@ == monotonic_started(old(self)@, now@),
    {
        proof {
            use_type_invariant(&*self);
        }
        if !self.running {
            match self.paused_time {
                Some(paused) => {
                    let pause = now.saturating_duration_since(paused);
                    self.total_start_time = self.total_start_time.saturating_add(pause);
                    self.split_start_time = self.split_start_time.saturating_add(pause);
                },
                None => {
                    self.total_start_time = now;
                    self.split_start_time = now;
                },
            }
            self.paused_time = None;
            self.running = true;
        }
    }

    /// Starts the stopwatch at its clock's current reading; see `start_at`.
    pub fn start(&mut self)
        ensures
            exists|now: nat|
                now <= max_nanos() && #[trigger] monotonic_started(old(self)@, now) == final(self)@,
    {
        let now = self.clock.read();
        self.start_at(now);
    }

    /// Stops the stopwatch at the clock reading `now`, keeping its running
    /// time; does nothing if it is not running.
    pub fn stop_at(&mut self, now: Instant)
        ensures
            final(self)@ == monotonic_stopped(old(self)@, now@),
    {
        proof {
            use_type_invariant(&*self);
        }
        if self.running {
            self.running = false;
            self.paused_time = Some(now);
            self.elapsed_time = now.saturating_duration_since(self.total_start_time);
        }
    }

    /// Stops the stopwatch at its clock's current reading; see `stop_at`.
    pub fn stop(&mut self)
        ensures
            exists|now: nat|
                now <= max_nanos() && #[trigger] monotonic_stopped(old(self)@, now) == final(self)@,
    {
        let now = self.clock.read();
        self.stop_at(now);
    }

    /// Clears the stopwatch: stopped, no running time, no laps, both anchors
    /// at `now`.
    pub fn reset_at(&mut self, now: Instant)
        ensures
            final(self)@ == StopwatchModel::cleared(now@),
    {
        proof {
            use_type_invariant(&*self);
        }
        let mut lap_times: Vec<LapTime> = Vec::new();
        std::mem::swap(&mut lap_times, &mut self.lap_times);
        self.running = false;
        self.paused_time = None;
        self.total_start_time = now;
        self.split_start_time = now;
        self.elapsed_time = Duration::from_nanos(0);
        assert(self@.laps =~= Seq::<LapRecord>::empty());
    }

    /// Clears the stopwatch at its clock's current reading; see `reset_at`.
    pub fn reset(&mut self)
        ensures
            exists|now: nat|
                now <= max_nanos() && #[trigger] StopwatchModel::cleared(now) == final(self)@,
    {
        let now = self.clock.read();
        self.reset_at(now);
    }

    /// Records a lap at the clock reading `now` if the stopwatch is running;
    /// the next split starts at `now` either way.
    pub fn add_lap_at(&mut self, now: Instant)
        requires
            old(self)@.laps.len() < u32::MAX,
        ensures
            final(self)@ == monotonic_lapped(old(self)@, now@),
    {
        proof {
            use_type_invariant(&*self);
        }
        if self.running {
            let total_time = now.saturating_duration_since(self.total_start_time);
            let lap = LapTime {
                lap_number: self.lap_times.len() as u32 + 1,
                split_time: now.saturating_duration_since(self.split_start_time),
                total_time,
            };
            let mut laps: Vec<LapTime> = Vec::new();
            std::mem::swap(&mut laps, &mut self.lap_times);
            laps.push(lap);
            assert(laps@.map_values(|l: LapTime| l@) =~= old(self)@.laps.push(
                monotonic_next_lap(old(self)@, now@),
            ));
            std::mem::swap(&mut laps, &mut self.lap_times);
            self.elapsed_time = total_time;
        }
        self.split_start_time = now;
    }

    /// Records a lap at its clock's current reading; see `add_lap_at`.
    pub fn add_lap(&mut self)
        requires
            old(self)@.laps.len() < u32::MAX,
        ensures
            exists|now: nat|
                now <= max_nanos() && #[trigger] monotonic_lapped(old(self)@, now) == final(self)@,
    {
        let now = self.clock.read();
        self.add_lap_at(now);
    }

    /// Whether the stopwatch is running.
    pub fn is_running(&self) -> (r: bool)
        ensures
            r == self@.running,
    {
        self.running
    }

    /// The running time read at the clock reading `now`: the time since the
    /// start while running, the time kept at the last stop otherwise.
    pub fn elapsed_time_at(&self, now: Instant) -> (r: Duration)
        ensures
            r@ == monotonic_reading(self@, now@),
    {
        if self.running {
            now.saturating_duration_since(self.total_start_time)
        } else {
            self.elapsed_time
        }
    }

    /// The running time read at its clock's current reading.
    pub fn elapsed_time(&self) -> (r: Duration)
        ensures
            exists|now: nat|
                now <= max_nanos() && #[trigger] monotonic_reading(self@, now) == r@,
    {
        self.elapsed_time_at(self.clock.read())
    }

    /// The laps recorded since the last reset, in order.
    pub fn lap_times(&self) -> (r: &[LapTime])
        ensures
            r@.map_values(|l: LapTime| l@) == self@.laps,
    {
        self.lap_times.as_slice()
    }
}

impl Default for Stopwatch {
    /// The same as `Stopwatch::new`.
    fn default() -> (r: Stopwatch)
        ensures
            r@ == StopwatchModel::cleared(0),
    {
        Stopwatch::new()
    }
}

/// `d` as `mm:ss.fff`: whole minutes, the seconds left over, and the
/// milliseconds left over, truncated.
pub open spec fn millisecond_face(d: nat) -> Seq<char> {
    clock_face(d / NANOS_PER_SEC as nat, (d % NANOS_PER_SEC as nat) / NANOS_PER_MILLI as nat, 3)
}

/// Renders `duration` as `mm:ss.fff`; minutes may exceed 59.
pub fn format_time(duration: Duration) -> (r: String)
    ensures
        r@ == millisecond_face(duration@),
{
    let secs = duration.as_secs();
    let millis = duration.subsec_millis();
    clock_face_string(secs, millis as u128, 3)
}

} // verus!
