//! A stopwatch on the wall clock: it accumulates running time across
//! start/stop cycles and records lap splits. Where the wall clock is found to
//! have been set back, the stopwatch clears itself rather than report a
//! negative span.

use vstd::prelude::*;

use crate::render::{clock_face, clock_face_string};
use crate::time::{
    lemma_duration_fits, lemma_instant_fits, max_nanos, saturated_sum, Duration, Instant,
    NANOS_PER_MILLI, NANOS_PER_SEC,
};

verus! {

broadcast use {lemma_duration_fits, lemma_instant_fits};

/// One recorded lap: its number, the time since the previous lap (or since
/// the start, for the first), and the running time since the start.
#[derive(Clone, Copy, Debug)]
pub struct LapTime {
    lap_number: usize,
    split_time: Duration,
    total_time: Duration,
}

/// What a lap records, in nanoseconds.
pub struct LapRecord {
    pub lap_number: nat,
    pub split: nat,
    pub total: nat,
}

impl View for LapTime {
    type V = LapRecord;

    closed spec fn view(&self) -> LapRecord {
        LapRecord {
            lap_number: self.lap_number as nat,
            split: self.split_time@,
            total: self.total_time@,
        }
    }
}

impl LapTime {
    /// A lap with the given number, split time and total time.
    pub fn new(lap_number: usize, split_time: Duration, total_time: Duration) -> (r: LapTime)
        ensures
            r@ == (LapRecord { lap_number: lap_number as nat, split: split_time@, total: total_time@ }),
    {
        LapTime { lap_number, split_time, total_time }
    }

    /// The lap's number; the first lap is number 1.
    pub fn lap_number(&self) -> (r: usize)
        ensures
            r == self@.lap_number,
    {
        self.lap_number
    }

    /// The time since the previous lap, or since the start for the first lap.
    pub fn split_time(&self) -> (r: Duration)
        ensures
            r@ == self@.split,
    {
        self.split_time
    }

    /// The running time since the start when the lap was taken.
    pub fn total_time(&self) -> (r: Duration)
        ensures
            r@ == self@.total,
    {
        self.total_time
    }
}

/// The state of a stopwatch in whole numbers: points in time are
/// nanoseconds since the clock's origin, spans are nanoseconds.
pub struct StopwatchModel {
    pub running: bool,
    /// The start of the running time, moved forward past every pause.
    pub total_start: nat,
    /// The start of the current split, moved forward past every pause.
    pub split_start: nat,
    /// The running time as of the last stop or lap.
    pub elapsed: nat,
    /// When the stopwatch was last stopped, if it has not been started since.
    pub paused: Option<nat>,
    pub laps: Seq<LapRecord>,
}

impl StopwatchModel {
    /// Laps are numbered 1, 2, ... in order; a running stopwatch is not
    /// paused; a stopped one that was never paused has no running time and
    /// no laps; a paused one kept the running time from its start to the
    /// pause.
    pub open spec fn well_formed(self) -> bool {
        &&& forall|i: int| 0 <= i < self.laps.len() ==> #[trigger] self.laps[i].lap_number == i + 1
        &&& self.running ==> self.paused is None
        &&& !self.running && self.paused is None ==> self.elapsed == 0 && self.laps.len() == 0
        &&& self.paused matches Some(p) ==> self.total_start <= p && self.elapsed == (p
            - self.total_start)
    }

    /// A stopped stopwatch with no running time and no laps, both anchors at
    /// `now`.
    pub open spec fn cleared(now: nat) -> StopwatchModel {
        StopwatchModel {
            running: false,
            total_start: now,
            split_start: now,
            elapsed: 0,
            paused: None,
            laps: Seq::empty(),
        }
    }

    /// The state after a start at `now`: a stopped stopwatch resumes with
    /// both anchors moved forward by the length of the pause; one never
    /// stopped starts from `now`; a pause that would end before it began
    /// clears the stopwatch.
    pub open spec fn started(self, now: nat) -> StopwatchModel {
        if self.running {
            self
        } else {
            match self.paused {
                Some(p) => if now < p {
                    StopwatchModel::cleared(now)
                } else {
                    StopwatchModel {
                        running: true,
                        total_start: saturated_sum(self.total_start, (now - p) as nat),
                        split_start: saturated_sum(self.split_start, (now - p) as nat),
                        paused: None,
                        ..self
                    }
                },
                None => StopwatchModel {
                    running: true,
                    total_start: now,
                    split_start: now,
                    paused: None,
                    ..self
                },
            }
        }
    }

    /// The state after a stop at `now`: the running time up to `now` is kept
    /// and `now` is remembered as the start of the pause. A reading before
    /// the start clears the stopwatch.
    pub open spec fn stopped(self, now: nat) -> StopwatchModel {
        if !self.running {
            self
        } else if now < self.total_start {
            StopwatchModel::cleared(now)
        } else {
            StopwatchModel {
                running: false,
                elapsed: (now - self.total_start) as nat,
                paused: Some(now),
                ..self
            }
        }
    }

    /// The lap recorded by a running stopwatch at `now`.
    pub open spec fn next_lap(self, now: nat) -> LapRecord {
        LapRecord {
            lap_number: self.laps.len() + 1,
            split: (now - self.split_start) as nat,
            total: (now - self.total_start) as nat,
        }
    }

    /// The state after a lap at `now`: a running stopwatch records a lap;
    /// either way the next split starts at `now`. A reading before either
    /// anchor of a running stopwatch clears it.
    pub open spec fn lapped(self, now: nat) -> StopwatchModel {
        if !self.running {
            StopwatchModel { split_start: now, ..self }
        } else if now < self.split_start || now < self.total_start {
            StopwatchModel::cleared(now)
        } else {
            StopwatchModel {
                split_start: now,
                elapsed: (now - self.total_start) as nat,
                laps: self.laps.push(self.next_lap(now)),
                ..self
            }
        }
    }

    /// The running time read at `now`: the time since the start while
    /// running, the time kept at the last stop otherwise. A reading before
    /// the start of a running stopwatch gives zero.
    pub open spec fn elapsed_reading(self, now: nat) -> nat {
        if !self.running {
            self.elapsed
        } else if now < self.total_start {
            0
        } else {
            (now - self.total_start) as nat
        }
    }

    /// The state after the running time is read at `now`: unchanged, unless
    /// the reading lies before the start of a running stopwatch, which
    /// clears it.
    pub open spec fn after_reading(self, now: nat) -> StopwatchModel {
        if self.running && now < self.total_start {
            StopwatchModel::cleared(now)
        } else {
            self
        }
    }
}

/// Runs the stopwatch through a start and then a stop for each interval, in
/// order.
pub open spec fn run_intervals(m: StopwatchModel, intervals: Seq<(nat, nat)>) -> StopwatchModel
    decreases intervals.len(),
{
    if intervals.len() == 0 {
        m
    } else {
        run_intervals(m.started(intervals[0].0).stopped(intervals[0].1), intervals.drop_first())
    }
}

/// The summed lengths of the intervals.
pub open spec fn total_length(intervals: Seq<(nat, nat)>) -> nat
    decreases intervals.len(),
{
    if intervals.len() == 0 {
        0
    } else {
        (intervals[0].1 - intervals[0].0) as nat + total_length(intervals.drop_first())
    }
}

/// Each interval stops no earlier than it starts and starts no earlier than
/// the one before it stopped, and all readings are representable.
pub open spec fn ordered_intervals(intervals: Seq<(nat, nat)>) -> bool {
    &&& forall|i: int|
        0 <= i < intervals.len() ==> #[trigger] intervals[i].0 <= intervals[i].1 <= max_nanos()
    &&& forall|i: int| 0 < i < intervals.len() ==> intervals[i - 1].1 <= #[trigger] intervals[i].0
}

/// Every change of state keeps a stopwatch well formed, whatever the
/// reading it is made at.
pub proof fn lemma_steps_keep_well_formed(m: StopwatchModel, now: nat)
    requires
        m.well_formed(),
    ensures
        StopwatchModel::cleared(now).well_formed(),
        m.started(now).well_formed(),
        m.stopped(now).well_formed(),
        m.lapped(now).well_formed(),
        m.after_reading(now).well_formed(),
{
    if m.running && now >= m.split_start && now >= m.total_start {
        let l = m.lapped(now);
        assert forall|i: int| 0 <= i < l.laps.len() implies #[trigger] l.laps[i].lap_number == i
            + 1 by {
            if i < m.laps.len() {
                assert(l.laps[i] == m.laps[i]);
            }
        }
    }
}

/// A reset leaves the stopwatch stopped, with no laps, and reading no
/// running time at any later reading.
pub proof fn lemma_reset_clears(now: nat, later: nat)
    ensures
        StopwatchModel::cleared(now).well_formed(),
        !StopwatchModel::cleared(now).running,
        StopwatchModel::cleared(now).laps.len() == 0,
        StopwatchModel::cleared(now).elapsed_reading(later) == 0,
{
}

/// Started and stopped over a series of intervals, the stopwatch's running
/// time grows by exactly the summed lengths of the intervals: the pauses
/// between them are left out.
pub proof fn lemma_elapsed_is_sum_of_intervals(
    m: StopwatchModel,
    intervals: Seq<(nat, nat)>,
    later: nat,
)
    requires
        m.well_formed(),
        !m.running,
        ordered_intervals(intervals),
        intervals.len() > 0 ==> (m.paused matches Some(p) ==> p <= intervals[0].0),
    ensures
        run_intervals(m, intervals).well_formed(),
        !run_intervals(m, intervals).running,
        run_intervals(m, intervals).elapsed_reading(later) == m.elapsed + total_length(intervals),
    decreases intervals.len(),
{
    if intervals.len() > 0 {
        let (start, stop) = intervals[0];
        assert(start <= stop <= max_nanos());
        let next = m.started(start).stopped(stop);
        lemma_steps_keep_well_formed(m, start);
        lemma_steps_keep_well_formed(m.started(start), stop);
        assert(next.elapsed == m.elapsed + (stop - start));
        assert(next.paused == Some(stop));
        let rest = intervals.drop_first();
        assert forall|i: int| 0 < i < rest.len() implies rest[i - 1].1 <= #[trigger] rest[i].0 by {
            assert(intervals[i].1 <= intervals[i + 1].0);
        }
        assert forall|i: int| 0 <= i < rest.len() implies #[trigger] rest[i].0 <= rest[i].1
            <= max_nanos() by {
            assert(intervals[i + 1].0 <= intervals[i + 1].1);
        }
        if rest.len() > 0 {
            assert(intervals[0].1 <= intervals[1].0);
        }
        lemma_elapsed_is_sum_of_intervals(next, rest, later);
    }
}

impl StopwatchModel {
    /// Lap totals never decrease from one lap to the next, the last is no
    /// more than the running time read at `last`, and no anchor or pause
    /// lies after `last`.
    pub open spec fn laps_ordered_up_to(self, last: nat) -> bool {
        &&& forall|i: int, j: int|
            0 <= i <= j < self.laps.len() ==> (#[trigger] self.laps[i]).total
                <= (#[trigger] self.laps[j]).total
        &&& self.laps.len() > 0 ==> self.laps.last().total <= self.elapsed_reading(last)
        &&& self.running ==> self.total_start <= last
        &&& self.paused matches Some(p) ==> p <= last
    }
}

/// A new or reset stopwatch has its laps in order.
pub proof fn lemma_cleared_laps_ordered(now: nat)
    ensures
        StopwatchModel::cleared(now).laps_ordered_up_to(now),
{
}

/// Lap totals never decrease from one lap to the next: for readings that
/// never go back, every change of state keeps the laps in order.
pub proof fn lemma_lap_totals_never_decrease(m: StopwatchModel, last: nat, now: nat)
    requires
        m.well_formed(),
        m.laps_ordered_up_to(last),
        last <= now <= max_nanos(),
    ensures
        StopwatchModel::cleared(now).laps_ordered_up_to(now),
        m.started(now).laps_ordered_up_to(now),
        m.stopped(now).laps_ordered_up_to(now),
        m.lapped(now).laps_ordered_up_to(now),
        m.after_reading(now).laps_ordered_up_to(now),
{
    if m.running && now >= m.split_start && now >= m.total_start {
        let l = m.lapped(now);
        assert forall|i: int, j: int| 0 <= i <= j < l.laps.len() implies (#[trigger] l.laps[i]).total
            <= (#[trigger] l.laps[j]).total by {
            if j < m.laps.len() {
                assert(l.laps[i] == m.laps[i]);
                assert(l.laps[j] == m.laps[j]);
            } else if i < m.laps.len() {
                assert(l.laps[i] == m.laps[i]);
                assert(m.laps[i].total <= m.laps.last().total);
            }
        }
    }
}

/// A stopwatch that counts up on the wall clock and records laps.
#[derive(Debug)]
pub struct Stopwatch {
    running: bool,
    total_start_time: Instant,
    split_start_time: Instant,
    elapsed_time: Duration,
    paused_time: Option<Instant>,
    lap_times: Vec<LapTime>,
}

/// The view of an optional point in time.
pub open spec fn instant_option_view(t: Option<Instant>) -> Option<nat> {
    match t {
        Some(p) => Some(p@),
        None => None,
    }
}

impl View for Stopwatch {
    type V = StopwatchModel;

    closed spec fn view(&self) -> StopwatchModel {
        StopwatchModel {
            running: self.running,
            total_start: self.total_start_time@,
            split_start: self.split_start_time@,
            elapsed: self.elapsed_time@,
            paused: instant_option_view(self.paused_time),
            laps: self.lap_times@.map_values(|l: LapTime| l@),
        }
    }
}

impl Stopwatch {
    #[verifier::type_invariant]
    spec fn inv(&self) -> bool {
        self@.well_formed()
    }

    /// A stopped stopwatch with no running time and no laps, anchored at
    /// `now`.
    pub fn new_at(now: Instant) -> (r: Stopwatch)
        ensures
            r@ == StopwatchModel::cleared(now@),
    {
        let r = Stopwatch {
            running: false,
            total_start_time: now,
            split_start_time: now,
            elapsed_time: Duration::from_nanos(0),
            paused_time: None,
            lap_times: Vec::new(),
        };
        assert(r@.laps =~= Seq::<LapRecord>::empty());
        r
    }

    /// Replaces every part of the state but the laps.
    fn set_clock_state(
        &mut self,
        running: bool,
        total_start_time: Instant,
        split_start_time: Instant,
        elapsed_time: Duration,
        paused_time: Option<Instant>,
    )
        requires
            (StopwatchModel {
                running,
                total_start: total_start_time@,
                split_start: split_start_time@,
                elapsed: elapsed_time@,
                paused: instant_option_view(paused_time),
                laps: old(self)@.laps,
            }).well_formed(),
        ensures
            final(self)@ == (StopwatchModel {
                running,
                total_start: total_start_time@,
                split_start: split_start_time@,
                elapsed: elapsed_time@,
                paused: instant_option_view(paused_time),
                laps: old(self)@.laps,
            }),
    {
        proof {
            use_type_invariant(&*self);
        }
        let mut lap_times: Vec<LapTime> = Vec::new();
        std::mem::swap(&mut lap_times, &mut self.lap_times);
        *self = Stopwatch {
            running,
            total_start_time,
            split_start_time,
            elapsed_time,
            paused_time,
            lap_times,
        };
    }

    /// Clears the stopwatch: stopped, no running time, no laps, both anchors
    /// at `now`.
    pub fn reset_at(&mut self, now: Instant)
        ensures
            final(self)@ == StopwatchModel::cleared(now@),
    {
        *self = Stopwatch::new_at(now);
    }

    /// Starts the stopwatch at `now`; does nothing if it is running. A
    /// stopped stopwatch resumes where it stopped: the pause is left out of
    /// its running time and of the current split.
    pub fn start_at(&mut self, now: Instant)
        ensures
            final(self)@ == old(self)@.started(now@),
    {
        proof {
            use_type_invariant(&*self);
        }
        if !self.running {
            match self.paused_time {
                Some(paused) => match now.checked_duration_since(paused) {
                    Some(pause) => {
                        let total_start_time = self.total_start_time.saturating_add(pause);
                        let split_start_time = self.split_start_time.saturating_add(pause);
                        let elapsed_time = self.elapsed_time;
                        self.set_clock_state(
                            true,
                            total_start_time,
                            split_start_time,
                            elapsed_time,
                            None,
                        );
                    },
                    None => {
                        self.reset_at(now);
                    },
                },
                None => {
                    let elapsed_time = self.elapsed_time;
                    self.set_clock_state(true, now, now, elapsed_time, None);
                },
            }
        }
    }

    /// Stops the stopwatch at `now`, keeping its running time; does nothing
    /// if it is not running.
    pub fn stop_at(&mut self, now: Instant)
        ensures
            final(self)@ == old(self)@.stopped(now@),
    {
        proof {
            use_type_invariant(&*self);
        }
        if self.running {
            match now.checked_duration_since(self.total_start_time) {
                Some(elapsed) => {
                    let total_start_time = self.total_start_time;
                    let split_start_time = self.split_start_time;
                    self.set_clock_state(false, total_start_time, split_start_time, elapsed, Some(now));
                },
                None => {
                    self.reset_at(now);
                },
            }
        }
    }

    /// Records a lap at `now` if the stopwatch is running; the next split
    /// starts at `now` either way.
    pub fn add_lap_at(&mut self, now: Instant)
        requires
            old(self)@.laps.len() < usize::MAX,
        ensures
            final(self)@ == old(self)@.lapped(now@),
    {
        proof {
            use_type_invariant(&*self);
        }
        if self.running {
            let split = now.checked_duration_since(self.split_start_time);
            let total = now.checked_duration_since(self.total_start_time);
            match (split, total) {
                (Some(split_time), Some(total_time)) => {
                    let lap = LapTime {
                        lap_number: self.lap_times.len() + 1,
                        split_time,
                        total_time,
                    };
                    let mut laps: Vec<LapTime> = Vec::new();
                    std::mem::swap(&mut laps, &mut self.lap_times);
                    laps.push(lap);
                    assert(laps@.map_values(|l: LapTime| l@) =~= old(self)@.laps.push(
                        old(self)@.next_lap(now@),
                    ));
                    std::mem::swap(&mut laps, &mut self.lap_times);
                    self.elapsed_time = total_time;
                },
                _ => {
                    self.reset_at(now);
                    return;
                },
            }
        }
        self.split_start_time = now;
    }

    /// The running time read at `now`: the time since the start while
    /// running, the time kept at the last stop otherwise.
    pub fn elapsed_time_at(&mut self, now: Instant) -> (r: Duration)
        ensures
            r@ == old(self)@.elapsed_reading(now@),
            final(self)@ == old(self)@.after_reading(now@),
    {
        if self.running {
            match now.checked_duration_since(self.total_start_time) {
                Some(elapsed) => elapsed,
                None => {
                    self.reset_at(now);
                    Duration::from_nanos(0)
                },
            }
        } else {
            self.elapsed_time
        }
    }

    /// Whether the stopwatch is running.
    pub fn is_running(&self) -> (r: bool)
        ensures
            r == self@.running,
    {
        self.running
    }

    /// The laps recorded since the last reset, in order.
    pub fn lap_times(&self) -> (r: &[LapTime])
        ensures
            r@.map_values(|l: LapTime| l@) == self@.laps,
    {
        self.lap_times.as_slice()
    }

    /// A stopped stopwatch with no running time and no laps, anchored at the
    /// wall clock's current reading.
    pub fn new() -> (r: Stopwatch)
        ensures
            exists|now: nat| now <= max_nanos() && #[trigger] StopwatchModel::cleared(now) == r@,
    {
        let now = Instant::now();
        Stopwatch::new_at(now)
    }

    /// Starts the stopwatch at the wall clock's current reading; see
    /// `start_at`.
    pub fn start(&mut self)
        ensures
            exists|now: nat| now <= max_nanos() && #[trigger] old(self)@.started(now) == final(self)@,
    {
        let now = Instant::now();
        self.start_at(now);
    }

    /// Stops the stopwatch at the wall clock's current reading; see
    /// `stop_at`.
    pub fn stop(&mut self)
        ensures
            exists|now: nat| now <= max_nanos() && #[trigger] old(self)@.stopped(now) == final(self)@,
    {
        let now = Instant::now();
        self.stop_at(now);
    }

    /// Clears the stopwatch at the wall clock's current reading; see
    /// `reset_at`.
    pub fn reset(&mut self)
        ensures
            exists|now: nat| now <= max_nanos() && #[trigger] StopwatchModel::cleared(now) == final(self)@,
    {
        let now = Instant::now();
        self.reset_at(now);
    }

    /// Records a lap at the wall clock's current reading; see `add_lap_at`.
    pub fn add_lap(&mut self)
        requires
            old(self)@.laps.len() < usize::MAX,
        ensures
            exists|now: nat| now <= max_nanos() && #[trigger] old(self)@.lapped(now) == final(self)@,
    {
        let now = Instant::now();
        self.add_lap_at(now);
    }

    /// The running time read at the wall clock's current reading; see
    /// `elapsed_time_at`.
    pub fn elapsed_time(&mut self) -> (r: Duration)
        ensures
            exists|now: nat|
                now <= max_nanos() && #[trigger] old(self)@.elapsed_reading(now) == r@
                    && old(self)@.after_reading(now) == final(self)@,
    {
        let now = Instant::now();
        self.elapsed_time_at(now)
    }
}

impl Default for Stopwatch {
    /// The same as `Stopwatch::new`.
    fn default() -> (r: Stopwatch)
        ensures
            exists|now: nat| now <= max_nanos() && #[trigger] StopwatchModel::cleared(now) == r@,
    {
        Stopwatch::new()
    }
}

/// `d` as `mm:ss.cc`: whole minutes, the seconds left over, and the
/// hundredths of a second left over, truncated.
pub open spec fn centisecond_face(d: nat) -> Seq<char> {
    clock_face(
        d / NANOS_PER_SEC as nat,
        (d % NANOS_PER_SEC as nat) / NANOS_PER_MILLI as nat / 10,
        2,
    )
}

/// Renders `duration` as `mm:ss.cc`; minutes may exceed 59.
pub fn format_time(duration: Duration) -> (r: String)
    ensures
        r@ == centisecond_face(duration@),
{
    let secs = duration.as_secs();
    let millis = duration.subsec_millis();
    clock_face_string(secs, (millis / 10) as u128, 2)
}

} // verus!
