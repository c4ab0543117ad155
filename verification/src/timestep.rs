//! The clock: time elapsed between polls, and frames counted per second.

use std::time::Duration;
use std::time::Instant;
use vstd::prelude::*;

verus! {

/// Length of the window over which frames are counted.
pub const NANOS_PER_SECOND: u64 = 1_000_000_000;

/// `std::time::Instant`, a reading of the monotonic clock. Nothing is known
/// of what a reading holds.
#[verifier::external_type_specification]
#[verifier::external_body]
pub struct ExInstant(std::time::Instant);

/// `Instant::now`: the current reading of the monotonic clock. Nothing is
/// claimed of the reading.
#[verifier::external_body]
fn clock_now() -> (now: Instant) {
    Instant::now()
}

/// The time from the reading `earlier` to the reading `later`, as
/// `Instant::duration_since` gives it: zero where `earlier` is the later of
/// the two.
pub uninterp spec fn span_of(later: Instant, earlier: Instant) -> Duration;

/// The whole nanoseconds in `span`, as `Duration::as_nanos` gives them.
pub uninterp spec fn nanos_of(span: Duration) -> nat;

/// `Instant::duration_since`: the time from `earlier` to `later`. The
/// duration depends on the two readings alone, and is claimed to be the one
/// that `span_of` names; nothing is claimed of its length.
#[verifier::external_body]
fn elapsed_between(later: &Instant, earlier: &Instant) -> (elapsed: Duration)
    ensures
        elapsed == span_of(*later, *earlier),
{
    later.duration_since(*earlier)
}

/// `Duration::as_nanos`: the duration in whole nanoseconds. The number
/// depends on the duration alone, and is claimed to be the one that
/// `nanos_of` names; nothing is claimed of its size.
#[verifier::external_body]
fn whole_nanos(elapsed: &Duration) -> (nanos: u128)
    ensures
        nanos == nanos_of(*elapsed),
{
    elapsed.as_nanos()
}

/// What a clock remembers: a reading, nanoseconds and frames.
pub struct ClockState {
    /// The clock's reading at the most recent poll.
    pub last_sample: Instant,
    /// The most recent measurement.
    pub delta: nat,
    /// Frames counted in the current window.
    pub frames: nat,
    /// Time gathered in the current window.
    pub window: nat,
}

impl ClockState {
    /// The window is always short of a second: it is emptied as soon as it
    /// holds one. The other bounds are those of the machine integers.
    pub open spec fn wf(self) -> bool {
        &&& self.window < NANOS_PER_SECOND
        &&& self.frames <= u32::MAX
        &&& self.delta <= u64::MAX
    }

    /// The state with `delta` as its most recent measurement. The reading
    /// is as before.
    pub open spec fn measured(self, delta: nat) -> ClockState {
        ClockState { delta, ..self }
    }

    /// The time from the kept reading to the reading `now`, in nanoseconds
    /// that fit a `u64`.
    pub open spec fn elapsed_at(self, now: Instant) -> nat {
        clamped(nanos_of(span_of(now, self.last_sample)))
    }

    /// The state after a poll at which the clock read `now`: `now` is the
    /// kept reading, and the time since the one before is the measurement.
    pub open spec fn polled(self, now: Instant) -> ClockState {
        ClockState { last_sample: now, delta: self.elapsed_at(now), ..self }
    }

    /// Whether counting one more frame, with the most recent measurement,
    /// fills the window.
    pub open spec fn window_full(self) -> bool {
        self.window + self.delta >= NANOS_PER_SECOND
    }

    /// The frame count with one more frame; it stops at `u32::MAX`.
    pub open spec fn counted(self) -> nat {
        if self.frames < u32::MAX {
            self.frames + 1
        } else {
            u32::MAX as nat
        }
    }

    /// What counting one more frame reports: the frames of the window that
    /// it fills, or nothing.
    pub open spec fn sampled_rate(self) -> Option<u32> {
        if self.window_full() {
            Some(self.counted() as u32)
        } else {
            None
        }
    }

    /// The state after counting one more frame: a full window is emptied,
    /// count and time together. Reading and measurement are as before.
    pub open spec fn after_sample(self) -> ClockState {
        if self.window_full() {
            ClockState { frames: 0, window: 0, ..self }
        } else {
            ClockState { frames: self.counted(), window: self.window + self.delta, ..self }
        }
    }

    /// The state after a run of frames, each with its own measurement.
    pub open spec fn after_samples(self, deltas: Seq<nat>) -> ClockState
        decreases deltas.len(),
    {
        if deltas.len() == 0 {
            self
        } else {
            self.after_samples(deltas.drop_last()).measured(deltas.last()).after_sample()
        }
    }

    /// Whether none of a run of frames reported a rate.
    pub open spec fn silent_over(self, deltas: Seq<nat>) -> bool
        decreases deltas.len(),
    {
        deltas.len() == 0 || {
            &&& self.silent_over(deltas.drop_last())
            &&& self.after_samples(deltas.drop_last()).measured(deltas.last()).sampled_rate() is None
        }
    }
}

/// The sum of a run of measurements.
pub open spec fn total(deltas: Seq<nat>) -> nat
    decreases deltas.len(),
{
    if deltas.len() == 0 {
        0
    } else {
        total(deltas.drop_last()) + deltas.last()
    }
}

/// A clock that measures the time between polls and counts frames per second.
pub struct TimeStep {
    last_time: Instant,
    delta_time: u64,
    frame_count: u32,
    frame_time: u64,
}

impl View for TimeStep {
    type V = ClockState;

    closed spec fn view(&self) -> ClockState {
        ClockState {
            last_sample: self.last_time,
            delta: self.delta_time as nat,
            frames: self.frame_count as nat,
            window: self.frame_time as nat,
        }
    }
}

impl TimeStep {
    /// Validity of a clock: that of what it remembers.
    pub open spec fn wf(&self) -> bool {
        self@.wf()
    }

    /// A clock that starts now, with nothing measured and nothing counted.
    pub fn new() -> (clock: TimeStep)
        ensures
            clock.wf(),
            clock@.delta == 0,
            clock@.frames == 0,
            clock@.window == 0,
    {
        TimeStep { last_time: clock_now(), delta_time: 0, frame_count: 0, frame_time: 0 }
    }

    /// Reads the clock and returns the nanoseconds from the kept reading,
    /// that of the previous call or of the clock's making, to the new one;
    /// a span too long for `u64` is reported as `u64::MAX`. The new reading
    /// is kept in place of the old, and the measurement is remembered for
    /// `frame_rate`; the counters are untouched.
    pub fn delta(&mut self) -> (elapsed: u64)
        requires
            old(self).wf(),
        ensures
            final(self).wf(),
            elapsed == old(self)@.elapsed_at(final(self)@.last_sample),
            final(self)@ == old(self)@.polled(final(self)@.last_sample),
    {
        let now = clock_now();
        let since = elapsed_between(&now, &self.last_time);
        let nanos: u128 = whole_nanos(&since);
        self.last_time = now;
        self.record(clamp_nanos(nanos))
    }

    /// Takes `elapsed` as the measurement, in place of a reading of the
    /// clock, and hands it back. The kept reading is as before.
    pub fn record(&mut self, elapsed: u64) -> (recorded: u64)
        requires
            old(self).wf(),
        ensures
            final(self).wf(),
            recorded == elapsed,
            final(self)@ == old(self)@.measured(elapsed as nat),
    {
        self.delta_time = elapsed;
        elapsed
    }

    /// Counts one frame that took the most recent measurement. Once the
    /// window holds a second or more, returns the frames counted in it and
    /// empties it; until then returns `None`. The clock is not read: the
    /// kept reading and the measurement are as before.
    pub fn frame_rate(&mut self) -> (rate: Option<u32>)
        requires
            old(self).wf(),
        ensures
            final(self).wf(),
            rate == old(self)@.sampled_rate(),
            final(self)@ == old(self)@.after_sample(),
    {
        let count: u32 = if self.frame_count < u32::MAX {
            self.frame_count + 1
        } else {
            u32::MAX
        };
        let room: u64 = NANOS_PER_SECOND - self.frame_time;
        if self.delta_time >= room {
            self.frame_count = 0;
            self.frame_time = 0;
            Some(count)
        } else {
            self.frame_count = count;
            self.frame_time = self.frame_time + self.delta_time;
            None
        }
    }

    /// The most recent measurement, in nanoseconds.
    pub fn last_delta(&self) -> (elapsed: u64)
        ensures
            elapsed == self@.delta,
    {
        self.delta_time
    }
}

/// A count of nanoseconds as a `u64`, `u64::MAX` standing for all that is
/// larger.
pub open spec fn clamped(nanos: nat) -> nat {
    if nanos > u64::MAX {
        u64::MAX as nat
    } else {
        nanos
    }
}

/// Narrows a count of nanoseconds to `u64`, saturating.
pub fn clamp_nanos(nanos: u128) -> (fitted: u64)
    ensures
        fitted == clamped(nanos as nat),
{
    if nanos > u64::MAX as u128 {
        u64::MAX
    } else {
        nanos as u64
    }
}

/// A rate is withheld until the window holds a second: over a run of frames
/// that starts on an empty window and whose measurements sum to less than a
/// second, no frame reports a rate, and all are counted. The frame that then
/// brings the sum to a second or more reports the number of frames in the
/// window, itself included, and leaves the window empty.
pub proof fn rate_reported_when_window_fills(start: ClockState, deltas: Seq<nat>, closing: nat)
    requires
        start.frames == 0,
        start.window == 0,
        total(deltas) < NANOS_PER_SECOND,
        deltas.len() < u32::MAX,
    ensures
        start.silent_over(deltas),
        start.after_samples(deltas).frames == deltas.len(),
        start.after_samples(deltas).window == total(deltas),
        total(deltas) + closing >= NANOS_PER_SECOND ==> {
            let last = start.after_samples(deltas).measured(closing);
            &&& last.sampled_rate() == Some((deltas.len() + 1) as u32)
            &&& last.after_sample().frames == 0
            &&& last.after_sample().window == 0
        },
        total(deltas) + closing < NANOS_PER_SECOND ==> start.after_samples(deltas).measured(
            closing,
        ).sampled_rate() is None,
    decreases deltas.len(),
{
    if deltas.len() > 0 {
        rate_reported_when_window_fills(start, deltas.drop_last(), deltas.last());
    }
}

} // verus!
