//! The frame clock: elapsed time, time between frames, frames per second.
//!
//! Times are whole nanoseconds. A reading is what the host's monotonic
//! clock shows, counted from an origin that the clock fixes when it is
//! made.

use vstd::prelude::*;
use vstd::arithmetic::div_mod::lemma_basic_div;
use vstd::arithmetic::div_mod::lemma_fundamental_div_mod;
use vstd::arithmetic::div_mod::lemma_mod_pos_bound;
use std::time::Duration;
use std::time::Instant;

verus! {

/// Nanoseconds in a second.
pub const NANOS_PER_SEC: u128 = 1_000_000_000;

/// A point on the host's monotonic clock. Nothing is known of its value.
#[verifier::external_type_specification]
#[verifier::external_body]
pub struct ExInstant(std::time::Instant);

/// `Instant::now`: the present point on the host's monotonic clock.
/// Nothing is claimed of the point returned.
#[verifier::external_body]
fn instant_now() -> (now: Instant) {
    Instant::now()
}

/// `Instant::elapsed`: the time that has passed since `origin`.
/// Nothing is claimed of the duration returned.
#[verifier::external_body]
fn instant_elapsed(origin: &Instant) -> (elapsed: Duration) {
    origin.elapsed()
}

/// `Duration::as_nanos`: a duration in whole nanoseconds.
/// Nothing is claimed of the number returned.
#[verifier::external_body]
fn duration_as_nanos(duration: &Duration) -> (nanos: u128) {
    duration.as_nanos()
}

/// The host's monotonic clock, read in nanoseconds since the clock value
/// was made.
#[derive(Debug)]
pub struct HostClock {
    origin: Instant,
}

impl HostClock {
    /// A clock whose readings count from now.
    pub fn new() -> HostClock {
        HostClock { origin: instant_now() }
    }

    /// The present reading. It depends on the host, so nothing is promised
    /// of it: what is done with a reading holds for every value of it.
    pub fn now(&self) -> u128 {
        let elapsed = instant_elapsed(&self.origin);
        duration_as_nanos(&elapsed)
    }
}

/// The time from `earlier` to `later`; zero when `later` lies before
/// `earlier`, which only a clock that runs backwards can bring about.
pub open spec fn elapsed_between(later: nat, earlier: nat) -> nat {
    if later >= earlier {
        (later - earlier) as nat
    } else {
        0
    }
}

/// The reading that lies `elapsed` after `start`, kept within the scale of
/// readings: beyond its end, the end.
pub open spec fn reading_from(start: nat, elapsed: nat) -> nat {
    if start + elapsed <= u128::MAX {
        start + elapsed
    } else {
        u128::MAX as nat
    }
}

/// Frames per second for a frame that took `delta` nanoseconds, to the
/// nearest whole number, a half rounding up.
pub open spec fn rounded_fps(delta: nat) -> nat
    recommends
        delta > 0,
{
    (2 * NANOS_PER_SEC as nat + delta) / (2 * delta)
}

/// `rounded_fps(delta)` is the whole number nearest to one second divided
/// by `delta`: it differs from the quotient by at most a half.
pub proof fn lemma_rounded_fps_is_nearest(delta: nat)
    requires
        delta > 0,
    ensures
        2 * delta * rounded_fps(delta) <= 2 * NANOS_PER_SEC + delta,
        2 * NANOS_PER_SEC + delta < 2 * delta * (rounded_fps(delta) + 1),
{
    let x = (2 * NANOS_PER_SEC as nat + delta) as int;
    let d = (2 * delta) as int;
    lemma_fundamental_div_mod(x, d);
    lemma_mod_pos_bound(x, d);
    assert(d * (x / d + 1) == d * (x / d) + d) by (nonlinear_arith);
}

/// A frame of one nanosecond gives the highest rate, a thousand million
/// frames per second; a frame of more than two seconds rounds to none.
pub proof fn lemma_rounded_fps_bounds(delta: nat)
    requires
        delta > 0,
    ensures
        rounded_fps(delta) <= NANOS_PER_SEC,
        delta > 2 * NANOS_PER_SEC ==> rounded_fps(delta) == 0,
{
    lemma_rounded_fps_is_nearest(delta);
    let f = rounded_fps(delta);
    if f > NANOS_PER_SEC {
        assert(2 * delta * f >= 2 * delta * (NANOS_PER_SEC + 1)) by (nonlinear_arith)
            requires
                f >= NANOS_PER_SEC + 1,
                delta > 0,
        ;
        assert(2 * delta * (NANOS_PER_SEC + 1) >= 2 * NANOS_PER_SEC + 2 * delta)
            by (nonlinear_arith)
            requires
                delta >= 1,
        ;
    }
    if delta > 2 * NANOS_PER_SEC {
        lemma_basic_div((2 * NANOS_PER_SEC as nat + delta) as int, (2 * delta) as int);
    }
}

fn fps_for(delta: u128) -> (fps: u32)
    requires
        delta > 0,
    ensures
        fps == rounded_fps(delta as nat),
{
    proof {
        lemma_rounded_fps_bounds(delta as nat);
    }
    if delta > 2 * NANOS_PER_SEC {
        0
    } else {
        let quotient: u128 = (2 * NANOS_PER_SEC + delta) / (2 * delta);
        quotient as u32
    }
}

/// A frame clock as the contracts see it. All times are nanoseconds.
pub struct TimeView {
    /// The reading at which the clock was started.
    pub start_time: nat,
    /// The time from the start to the last update.
    pub current_time: nat,
    /// The time from the update before, or from the start, to the last
    /// update.
    pub delta_time: nat,
    /// Frames per second, from the last frame that took any time.
    pub fps: nat,
    /// Frames counted.
    pub frame_count: nat,
    /// The reading at the last update, or at the start.
    pub last_time: nat,
}

impl TimeView {
    /// A clock started at the reading `now`.
    pub open spec fn started(now: nat) -> TimeView {
        TimeView {
            start_time: now,
            current_time: 0,
            delta_time: 0,
            fps: 0,
            frame_count: 0,
            last_time: now,
        }
    }

    /// The clock after an update at the reading `now`. The rate is only
    /// replaced by a frame that took some time.
    pub open spec fn update(self, now: nat) -> TimeView {
        let delta = elapsed_between(now, self.last_time);
        TimeView {
            current_time: elapsed_between(now, self.start_time),
            delta_time: delta,
            fps: if delta > 0 {
                rounded_fps(delta)
            } else {
                self.fps
            },
            last_time: now,
            ..self
        }
    }

    /// The clock has not run backwards: the last reading is not before the
    /// start, and the elapsed time is the distance between the two.
    pub open spec fn wf(self) -> bool {
        &&& self.start_time <= self.last_time
        &&& self.current_time == self.last_time - self.start_time
        &&& self.fps <= NANOS_PER_SEC
    }
}

/// The frame clock. Made once, updated once per frame.
#[derive(Debug)]
pub struct Time {
    clock: HostClock,
    start_time: u128,
    current_time: u128,
    delta_time: u128,
    fps: u32,
    frame_count: usize,
    last_time: u128,
}

impl View for Time {
    type V = TimeView;

    closed spec fn view(&self) -> TimeView {
        TimeView {
            start_time: self.start_time as nat,
            current_time: self.current_time as nat,
            delta_time: self.delta_time as nat,
            fps: self.fps as nat,
            frame_count: self.frame_count as nat,
            last_time: self.last_time as nat,
        }
    }
}

impl Time {
    /// A clock started now, at reading 0 of a host clock made for it.
    pub fn new() -> (time: Time)
        ensures
            time@ == TimeView::started(0),
    {
        Time::started(HostClock::new(), 0)
    }

    /// A clock started at the reading `now`. The host clock made for it
    /// counts on from there: its readings start at `now`.
    pub fn new_at(now: u128) -> (time: Time)
        ensures
            time@ == TimeView::started(now as nat),
    {
        Time::started(HostClock::new(), now)
    }

    fn started(clock: HostClock, now: u128) -> (time: Time)
        ensures
            time@ == TimeView::started(now as nat),
    {
        Time {
            clock,
            start_time: now,
            current_time: 0,
            delta_time: 0,
            fps: 0,
            frame_count: 0,
            last_time: now,
        }
    }

    /// The present reading of the host's clock on this clock's scale: the
    /// reading that the clock started at, plus the time that the host has
    /// counted since the clock was made. How far the host has counted is
    /// the host's to say; the reading is never before the start.
    pub fn now(&self) -> (now: u128)
        ensures
            now >= self@.start_time,
    {
        let elapsed = self.clock.now();
        self.reading(elapsed)
    }

    /// The reading on this clock's scale once the host has counted
    /// `elapsed` since the clock was made: the start plus `elapsed`, or
    /// the end of the scale where the sum lies beyond it.
    pub fn reading(&self, elapsed: u128) -> (now: u128)
        ensures
            now == reading_from(self@.start_time, elapsed as nat),
            now >= self@.start_time,
    {
        if elapsed <= u128::MAX - self.start_time {
            self.start_time + elapsed
        } else {
            u128::MAX
        }
    }

    /// Reads the host's clock and updates to that reading, which is then
    /// the clock's last reading.
    pub fn update(&mut self)
        ensures
            final(self)@ == old(self)@.update(final(self)@.last_time),
            final(self)@.last_time >= old(self)@.start_time,
            final(self)@.current_time == final(self)@.last_time - old(self)@.start_time,
    {
        let now = self.now();
        self.update_at(now);
    }

    /// Updates to the reading `now`: the elapsed time is counted from the
    /// start, the delta from the reading before, and the rate is
    /// recomputed when the delta is positive.
    pub fn update_at(&mut self, now: u128)
        ensures
            final(self)@ == old(self)@.update(now as nat),
            now >= old(self)@.last_time ==> final(self)@.delta_time == now - old(self)@.last_time,
            final(self)@.delta_time > 0 ==> final(self)@.fps == rounded_fps(
                final(self)@.delta_time,
            ),
            final(self)@.delta_time == 0 ==> final(self)@.fps == old(self)@.fps,
    {
        self.current_time = if now >= self.start_time {
            now - self.start_time
        } else {
            0
        };
        self.delta_time = if now >= self.last_time {
            now - self.last_time
        } else {
            0
        };
        if self.delta_time > 0 {
            self.fps = fps_for(self.delta_time);
        }
        self.last_time = now;
    }

    /// Nanoseconds from the start to the last update.
    pub fn get_time(&self) -> (nanos: u128)
        ensures
            nanos == self@.current_time,
    {
        self.current_time
    }

    /// Nanoseconds that the last frame took.
    pub fn get_delta_time(&self) -> (nanos: u128)
        ensures
            nanos == self@.delta_time,
    {
        self.delta_time
    }

    /// Frames per second, to the nearest whole number.
    pub fn get_fps(&self) -> (fps: u32)
        ensures
            fps == self@.fps,
    {
        self.fps
    }

    /// Frames counted.
    pub fn get_frame_count(&self) -> (frames: usize)
        ensures
            frames == self@.frame_count,
    {
        self.frame_count
    }
}

/// The reading after the first `k` of the given advances.
pub open spec fn reading_after(start: nat, advances: Seq<nat>, k: nat) -> nat
    decreases k,
{
    if k == 0 {
        start
    } else {
        reading_after(start, advances, (k - 1) as nat) + advances[k - 1]
    }
}

/// A clock started at `start`, after one update at the end of each of the
/// first `k` advances.
pub open spec fn after_updates(start: nat, advances: Seq<nat>, k: nat) -> TimeView
    decreases k,
{
    if k == 0 {
        TimeView::started(start)
    } else {
        after_updates(start, advances, (k - 1) as nat).update(reading_after(start, advances, k))
    }
}

/// While the host's clock moves forward, each update reports the advance
/// that led to it: after the `k`-th update the delta is the `k`-th
/// advance, the rate is the rounded rate of that advance, and the elapsed
/// time is the sum of the advances so far.
pub proof fn lemma_updates_report_advances(start: nat, advances: Seq<nat>, k: nat)
    requires
        1 <= k <= advances.len(),
        forall|i: int| 0 <= i < advances.len() ==> advances[i] > 0,
    ensures
        after_updates(start, advances, k).delta_time == advances[k - 1],
        after_updates(start, advances, k).fps == rounded_fps(advances[k - 1]),
        after_updates(start, advances, k).current_time == reading_after(start, advances, k) - start,
        after_updates(start, advances, k).wf(),
{
    lemma_updates_keep_pace(start, advances, (k - 1) as nat);
    lemma_updates_keep_pace(start, advances, k);
    lemma_rounded_fps_bounds(advances[k - 1]);
}

/// After any number of updates the clock's last reading is the reading
/// reached, and the clock is well formed.
proof fn lemma_updates_keep_pace(start: nat, advances: Seq<nat>, k: nat)
    requires
        k <= advances.len(),
    ensures
        after_updates(start, advances, k).last_time == reading_after(start, advances, k),
        after_updates(start, advances, k).start_time == start,
        reading_after(start, advances, k) >= start,
        after_updates(start, advances, k).wf(),
    decreases k,
{
    if k > 0 {
        lemma_updates_keep_pace(start, advances, (k - 1) as nat);
        let delta = advances[k - 1];
        if delta > 0 {
            lemma_rounded_fps_bounds(delta);
        }
    }
}

} // verus!
