//! Time-driven animation state: the circular-wipe transition a screen
//! plays while it expands over the previous top screen, and the launch
//! animation of the main screen's start button.
//!
//! Both are pure functions of elapsed time; restarting one only means
//! resetting its start timestamp.  All geometry is carried in thousandths
//! of the logical unit so that the arithmetic stays exact.

use vstd::prelude::*;

verus! {

/// Number of parts a fully played transition is divided into: progress
/// runs from 0 to this value.
pub const PROGRESS_SCALE: u64 = 1000;

/// Milliseconds a screen needs on stack before it reports itself fully
/// expanded over everything beneath it.
pub const EXPANSION_MS: u64 = 1000;

/// How long the circular wipe runs, in milliseconds.
pub const WIPE_DURATION_MS: u64 = 1000;

/// How long the start button's launch animation runs, in milliseconds.
pub const START_ANIMATION_MS: u64 = 1750;

/// Milliseconds elapsed since `start`; zero when `now` lies before it, so
/// that a clock handed in out of order can never underflow.
pub open spec fn spec_elapsed_ms(start: u64, now: u64) -> int {
    if now >= start {
        now - start
    } else {
        0
    }
}

/// Executable twin of [`spec_elapsed_ms`].
pub fn elapsed_ms(start: u64, now: u64) -> (e: u64)
    ensures
        e == spec_elapsed_ms(start, now),
{
    if now >= start {
        now - start
    } else {
        0
    }
}

/// One control point of the wipe: centre x, centre y and radius, each in
/// thousandths of the logical unit.
#[derive(Clone, Copy, Debug, PartialEq, Eq, Structural)]
pub struct WipePoint {
    pub x: i32,
    pub y: i32,
    pub radius: i32,
}

/// The circular-wipe transition a screen plays as it is composited: a
/// start timestamp, a fixed duration and three control points that the
/// wipe circle follows as a quadratic curve.
#[derive(Clone, Copy, Debug, PartialEq, Eq, Structural)]
pub struct CircleTransition {
    pub start_ms: u64,
    pub duration_ms: u64,
    pub begin: WipePoint,
    pub middle: WipePoint,
    pub finish: WipePoint,
}

/// Progress of a transition in parts of [`PROGRESS_SCALE`]: 0 at its
/// start, the full scale once the duration has passed (at once when the
/// duration is zero).
pub open spec fn spec_progress(t: CircleTransition, now: u64) -> int {
    if t.duration_ms == 0 {
        PROGRESS_SCALE as int
    } else if spec_elapsed_ms(t.start_ms, now) >= t.duration_ms {
        PROGRESS_SCALE as int
    } else {
        spec_elapsed_ms(t.start_ms, now) * (PROGRESS_SCALE as int) / (t.duration_ms as int)
    }
}

/// One coordinate of the wipe circle at progress `p`: the quadratic curve
/// through `a`, `b`, `c`, evaluated in fixed point and scaled back down.
pub open spec fn spec_wipe_coord(a: int, b: int, c: int, p: int) -> int {
    let q = (PROGRESS_SCALE as int) - p;
    (q * q * a + 2 * q * p * b + p * p * c) / ((PROGRESS_SCALE * PROGRESS_SCALE) as int)
}

/// The whole circle at time `now`.
pub open spec fn spec_wipe_at(t: CircleTransition, now: u64) -> (int, int, int) {
    let p = spec_progress(t, now);
    (
        spec_wipe_coord(t.begin.x as int, t.middle.x as int, t.finish.x as int, p),
        spec_wipe_coord(t.begin.y as int, t.middle.y as int, t.finish.y as int, p),
        spec_wipe_coord(t.begin.radius as int, t.middle.radius as int, t.finish.radius as int, p),
    )
}

impl CircleTransition {
    /// A transition that starts at `start_ms` and runs for `duration_ms`.
    pub fn new(
        start_ms: u64,
        duration_ms: u64,
        begin: WipePoint,
        middle: WipePoint,
        finish: WipePoint,
    ) -> (t: Self)
        ensures
            t == (CircleTransition { start_ms, duration_ms, begin, middle, finish }),
    {
        CircleTransition { start_ms, duration_ms, begin, middle, finish }
    }

    /// Restart the wipe: identical state except for the start timestamp.
    pub fn restart(&mut self, now: u64)
        ensures
            *final(self) == (CircleTransition { start_ms: now, ..*old(self) }),
    {
        self.start_ms = now;
    }

    /// Whether the wipe has fully played out at time `now`.
    pub fn is_finished(&self, now: u64) -> (r: bool)
        ensures
            r == (spec_elapsed_ms(self.start_ms, now) >= self.duration_ms),
    {
        elapsed_ms(self.start_ms, now) >= self.duration_ms
    }

    /// Progress at time `now`, in parts of [`PROGRESS_SCALE`].
    pub fn progress(&self, now: u64) -> (p: u64)
        ensures
            p == spec_progress(*self, now),
            0 <= p <= PROGRESS_SCALE,
    {
        if self.duration_ms == 0 {
            PROGRESS_SCALE
        } else {
            let e = elapsed_ms(self.start_ms, now);
            if e >= self.duration_ms {
                PROGRESS_SCALE
            } else {
                let scaled = (e as u128) * (PROGRESS_SCALE as u128);
                let p = scaled / (self.duration_ms as u128);
                assert(p < PROGRESS_SCALE as u128) by (nonlinear_arith)
                    requires
                        scaled == e * PROGRESS_SCALE,
                        p == scaled / (self.duration_ms as u128),
                        e < self.duration_ms,
                        PROGRESS_SCALE > 0,
                ;
                p as u64
            }
        }
    }

    /// The wipe circle at time `now`, as centre x, centre y and radius in
    /// thousandths of the logical unit.
    pub fn wipe_at(&self, now: u64) -> (c: (i64, i64, i64))
        ensures
            (c.0 as int, c.1 as int, c.2 as int) == spec_wipe_at(*self, now),
    {
        let p = self.progress(now);
        (
            wipe_coord(self.begin.x, self.middle.x, self.finish.x, p),
            wipe_coord(self.begin.y, self.middle.y, self.finish.y, p),
            wipe_coord(self.begin.radius, self.middle.radius, self.finish.radius, p),
        )
    }
}

/// Executable twin of [`spec_wipe_coord`].
fn wipe_coord(a: i32, b: i32, c: i32, p: u64) -> (r: i64)
    requires
        0 <= p <= PROGRESS_SCALE,
    ensures
        r == spec_wipe_coord(a as int, b as int, c as int, p as int),
{
    let q = (PROGRESS_SCALE - p) as i64;
    let pp = p as i64;
    proof {
        assert(0 <= q * q <= 1000000 && 0 <= (2 * q) * pp <= 2000000 && 0 <= pp * pp <= 1000000)
            by (nonlinear_arith)
            requires
                0 <= q <= 1000,
                0 <= pp <= 1000,
        ;
        lemma_bounded_product(q as int * q, a as int, 1000000, 0x8000_0000);
        lemma_bounded_product((2 * q) as int * pp, b as int, 2000000, 0x8000_0000);
        lemma_bounded_product(pp as int * pp, c as int, 1000000, 0x8000_0000);
    }
    let sum = q * q * (a as i64) + 2 * q * pp * (b as i64) + pp * pp * (c as i64);
    proof {
        vstd::arithmetic::div_mod::lemma_div_is_ordered(-0x2000_0000_0000_0000, sum as int, 1000000);
        vstd::arithmetic::div_mod::lemma_div_is_ordered(sum as int, 0x2000_0000_0000_0000, 1000000);
    }
    sum.checked_div_euclid(1000000).unwrap()
}

/// For a scale factor within `m_max` and a value within `v_max`, the
/// product stays within `m_max * v_max`.
proof fn lemma_bounded_product(m: int, v: int, m_max: int, v_max: int)
    requires
        0 <= m <= m_max,
        -v_max <= v <= v_max,
        0 <= v_max,
    ensures
        -m_max * v_max <= m * v <= m_max * v_max,
{
    assert(-m_max * v_max <= m * v <= m_max * v_max) by (nonlinear_arith)
        requires
            0 <= m <= m_max,
            -v_max <= v <= v_max,
            0 <= v_max,
    ;
}

/// The start button's launch animation: dormant until launched, finished
/// a fixed time after its launch.
#[derive(Clone, Copy, Debug, PartialEq, Eq, Structural)]
pub struct StartAnimation {
    pub launched_at: Option<u64>,
}

impl StartAnimation {
    /// A dormant animation.
    pub fn new() -> (a: Self)
        ensures
            a.launched_at is None,
    {
        StartAnimation { launched_at: None }
    }

    /// Begin playing at time `now`.
    pub fn launch(&mut self, now: u64)
        ensures
            final(self).launched_at == Some(now),
    {
        self.launched_at = Some(now);
    }

    /// Whether the animation was launched and has fully played out.
    pub fn is_finished(&self, now: u64) -> (r: bool)
        ensures
            r == (match self.launched_at {
                Some(t) => spec_elapsed_ms(t, now) >= START_ANIMATION_MS,
                None => false,
            }),
    {
        match self.launched_at {
            Some(t) => elapsed_ms(t, now) >= START_ANIMATION_MS,
            None => false,
        }
    }
}

} // verus!
