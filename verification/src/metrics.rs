//! Frame timing: how long frames take to render, gathered over a second
//! and then handed out as a report.

use std::time::{Duration, Instant};
use vstd::prelude::*;

verus! {

/// Nanoseconds after which the figures gathered are reported and reset.
pub const CYCLE_REPORT_INTERVAL: u128 = 1_000_000_000;

/// The fastest render time that a fresh cycle starts from: thirty seconds.
pub const SLOWEST_EXPECTED: u128 = 30_000_000_000;

/// `std::time::Instant`, a reading of the monotonic clock. Nothing is said
/// of what it holds.
#[verifier::external_type_specification]
#[verifier::external_body]
pub struct ExInstant(Instant);

/// `Instant::now`: a reading of the monotonic clock. Nothing is known of it.
pub assume_specification[ Instant::now ]() -> Instant;

/// `Instant::elapsed`: the time since the reading was taken. Nothing is
/// known of it.
pub assume_specification[ Instant::elapsed ](at: &Instant) -> Duration;

/// `Duration::as_nanos`: the duration in whole nanoseconds.
pub assume_specification[ Duration::as_nanos ](d: &Duration) -> u128;

/// The figures of one reporting cycle. All times are in nanoseconds.
#[derive(Debug)]
pub struct Metrics {
    pub start: Instant,
    pub cycle_start: Instant,
    pub frame_start: Instant,
    pub frame_end: Instant,
    pub slowest_render: u128,
    pub fastest_render: u128,
    pub total_render: u128,
    pub total_frames: u32,
    pub delta_end_to_start: u128,
    pub delta_start_to_start: u128,
}

/// What a reporting cycle found.
#[derive(Clone, Copy, Debug, PartialEq, Eq, Structural)]
pub struct FrameReport {
    pub delta_end_to_start: u128,
    pub slowest_render: u128,
    pub fastest_render: u128,
    /// Total render time divided by the number of frames, rounded down.
    pub mean_render: u128,
    pub total_frames: u32,
}

/// The figures that a frame of `elapsed` nanoseconds adds to.
#[derive(Clone, Copy, Debug, PartialEq, Eq, Structural)]
pub struct Tally {
    pub slowest_render: u128,
    pub fastest_render: u128,
    pub total_render: u128,
    pub total_frames: u32,
}

impl Tally {
    /// The figures with one more frame, which took `elapsed` nanoseconds.
    /// Counts and sums that would not fit stay at the largest value.
    pub open spec fn with_frame(self, elapsed: u128) -> Tally {
        Tally {
            slowest_render: if elapsed > self.slowest_render {
                elapsed
            } else {
                self.slowest_render
            },
            fastest_render: if elapsed < self.fastest_render {
                elapsed
            } else {
                self.fastest_render
            },
            total_render: if self.total_render + elapsed > u128::MAX {
                u128::MAX
            } else {
                (self.total_render + elapsed) as u128
            },
            total_frames: if self.total_frames == u32::MAX {
                u32::MAX
            } else {
                (self.total_frames + 1) as u32
            },
        }
    }

    /// The figures at the start of a cycle.
    pub open spec fn fresh() -> Tally {
        Tally { slowest_render: 0, fastest_render: SLOWEST_EXPECTED, total_render: 0, total_frames: 0 }
    }

    /// The report on the figures, given the pause before the last frame.
    pub open spec fn report(self, delta_end_to_start: u128) -> FrameReport
        recommends
            self.total_frames > 0,
    {
        FrameReport {
            delta_end_to_start,
            slowest_render: self.slowest_render,
            fastest_render: self.fastest_render,
            mean_render: self.total_render / (self.total_frames as u128),
            total_frames: self.total_frames,
        }
    }
}

impl Metrics {
    /// The figures gathered so far.
    pub open spec fn tally(&self) -> Tally {
        Tally {
            slowest_render: self.slowest_render,
            fastest_render: self.fastest_render,
            total_render: self.total_render,
            total_frames: self.total_frames,
        }
    }

    /// Marks the start of a frame, and notes how long ago the last frame
    /// ended and how long ago it started. The figures gathered stay.
    pub fn start_frame(&mut self)
        ensures
            final(self).tally() == old(self).tally(),
            exists|since_end: u128, since_start: u128, now: Instant|
                *final(self) == #[trigger] old(self).started(since_end, since_start, now),
    {
        let since_end = self.frame_end.elapsed().as_nanos();
        let since_start = self.frame_start.elapsed().as_nanos();
        let now = Instant::now();
        self.record_start(since_end, since_start, now);
    }

    /// The metrics after the start of a frame was marked at the clock
    /// reading `now`, `since_end` nanoseconds after the last frame ended
    /// and `since_start` nanoseconds after it started: the two pauses and
    /// the reading are taken down, and nothing else changes.
    pub open spec fn started(self, since_end: u128, since_start: u128, now: Instant) -> Metrics {
        Metrics {
            delta_end_to_start: since_end,
            delta_start_to_start: since_start,
            frame_start: now,
            ..self
        }
    }

    /// Marks the start of a frame at the clock reading `now`, which was
    /// taken `since_end` nanoseconds after the last frame ended and
    /// `since_start` nanoseconds after it started.
    pub fn record_start(&mut self, since_end: u128, since_start: u128, now: Instant)
        ensures
            *final(self) == old(self).started(since_end, since_start, now),
    {
        self.delta_end_to_start = since_end;
        self.delta_start_to_start = since_start;
        self.frame_start = now;
    }

    /// Takes a frame that took `elapsed` nanoseconds to render into the
    /// figures. Where the cycle has run for more than the reporting
    /// interval, the figures with this frame are returned as a report and
    /// the metrics start afresh.
    pub fn record_frame(&mut self, elapsed: u128, cycle_elapsed: u128) -> (r: Option<FrameReport>)
        ensures
            cycle_elapsed <= CYCLE_REPORT_INTERVAL ==> r.is_none() && final(self).tally() == old(
                self,
            ).tally().with_frame(elapsed) && final(self).delta_end_to_start == old(
                self,
            ).delta_end_to_start && final(self).delta_start_to_start == old(
                self,
            ).delta_start_to_start,
            cycle_elapsed > CYCLE_REPORT_INTERVAL ==> r == Some(
                old(self).tally().with_frame(elapsed).report(old(self).delta_end_to_start),
            ) && final(self).tally() == Tally::fresh() && final(self).delta_end_to_start == 0
                && final(self).delta_start_to_start == 0,
    {
        self.total_frames = self.total_frames.saturating_add(1);
        self.total_render = self.total_render.saturating_add(elapsed);
        if elapsed > self.slowest_render {
            self.slowest_render = elapsed;
        }
        if elapsed < self.fastest_render {
            self.fastest_render = elapsed;
        }
        if cycle_elapsed > CYCLE_REPORT_INTERVAL {
            let report = FrameReport {
                delta_end_to_start: self.delta_end_to_start,
                slowest_render: self.slowest_render,
                fastest_render: self.fastest_render,
                mean_render: self.total_render / (self.total_frames as u128),
                total_frames: self.total_frames,
            };
            *self = Metrics::default();
            Some(report)
        } else {
            None
        }
    }

    /// Marks the end of a frame: the time since its start is taken into
    /// the figures as `record_frame` does, with the time since the cycle
    /// began deciding whether a report is due.
    pub fn end_frame(&mut self) -> (r: Option<FrameReport>)
        ensures
            match r {
                Some(report) => final(self).tally() == Tally::fresh() && exists|elapsed: u128|
                    report == old(self).tally().with_frame(elapsed).report(
                        old(self).delta_end_to_start,
                    ),
                None => exists|elapsed: u128|
                    final(self).tally() == old(self).tally().with_frame(elapsed),
            },
    {
        let elapsed = self.frame_start.elapsed().as_nanos();
        let cycle_elapsed = self.cycle_start.elapsed().as_nanos();
        let report = self.record_frame(elapsed, cycle_elapsed);
        self.frame_end = Instant::now();
        report
    }
}

impl Default for Metrics {
    /// Metrics of a cycle that starts now.
    fn default() -> (r: Self)
        ensures
            r.tally() == Tally::fresh(),
            r.delta_end_to_start == 0,
            r.delta_start_to_start == 0,
    {
        Metrics {
            start: Instant::now(),
            cycle_start: Instant::now(),
            frame_start: Instant::now(),
            frame_end: Instant::now(),
            slowest_render: 0,
            fastest_render: SLOWEST_EXPECTED,
            total_render: 0,
            total_frames: 0,
            delta_end_to_start: 0,
            delta_start_to_start: 0,
        }
    }
}

} // verus!
