//! Time-based interpolation of scalar values.
//!
//! A tween moves a value from a start to a target over a duration measured
//! in audio ticks, along a closed set of easing curves. Progress and eased
//! progress are `MILLI`-denominated fractions: 1000 stands for 1.0.

use vstd::prelude::*;
use crate::frame::div_trunc;
use crate::frame::MILLI;

verus! {

/// Largest magnitude a tweened value may carry, so that the interpolation
/// arithmetic stays inside `i64`.
pub const VALUE_LIMIT: i64 = 4398046511104;

/// The closed set of easing curves; the exponent of the power curves is
/// treated as at least 1.
#[derive(Clone, Copy, Debug, PartialEq, Eq, Structural)]
pub enum Easing {
    Linear,
    InPowi(u32),
    OutPowi(u32),
    InOutPowi(u32),
}

/// A move toward a target over `duration_ticks` audio ticks.
#[derive(Clone, Copy, Debug, PartialEq, Eq, Structural)]
pub struct Tween {
    pub duration_ticks: u64,
    pub easing: Easing,
}

/// An exponent of a power curve, never below 1.
pub open spec fn pow_or_one(n: u32) -> nat {
    if n == 0 {
        1nat
    } else {
        n as nat
    }
}

/// `p^n` over `MILLI`-fractions: multiply by `p` and truncate back down by
/// 1000, `n - 1` times.
pub open spec fn milli_pow(p: int, n: nat) -> int
    decreases n,
{
    if n <= 1 {
        p
    } else {
        milli_pow(p, (n - 1) as nat) * p / 1000
    }
}

/// A `MILLI`-fraction raised to a power stays a `MILLI`-fraction.
pub proof fn lemma_milli_pow_bounds(p: int, n: nat)
    requires
        0 <= p <= 1000,
    ensures
        0 <= milli_pow(p, n) <= 1000,
    decreases n,
{
    if n > 1 {
        lemma_milli_pow_bounds(p, (n - 1) as nat);
        let q = milli_pow(p, (n - 1) as nat);
        assert(0 <= q * p <= 1000000) by (nonlinear_arith)
            requires
                0 <= q <= 1000,
                0 <= p <= 1000,
        ;
    }
}

/// The eased progress a curve yields for a raw progress `p`.
pub open spec fn eased_milli(easing: Easing, p: int) -> int {
    match easing {
        Easing::Linear => p,
        Easing::InPowi(n) => milli_pow(p, pow_or_one(n)),
        Easing::OutPowi(n) => 1000 - milli_pow(1000 - p, pow_or_one(n)),
        Easing::InOutPowi(n) => if p < 500 {
            milli_pow(2 * p, pow_or_one(n)) / 2
        } else {
            1000 - milli_pow(2 * (1000 - p), pow_or_one(n)) / 2
        },
    }
}

/// Eased progress is itself a `MILLI`-fraction.
pub proof fn lemma_eased_milli_bounds(easing: Easing, p: int)
    requires
        0 <= p <= 1000,
    ensures
        0 <= eased_milli(easing, p) <= 1000,
{
    match easing {
        Easing::Linear => {},
        Easing::InPowi(n) => {
            lemma_milli_pow_bounds(p, pow_or_one(n));
        },
        Easing::OutPowi(n) => {
            lemma_milli_pow_bounds(1000 - p, pow_or_one(n));
        },
        Easing::InOutPowi(n) => {
            if p < 500 {
                lemma_milli_pow_bounds(2 * p, pow_or_one(n));
            } else {
                lemma_milli_pow_bounds(2 * (1000 - p), pow_or_one(n));
            }
        },
    }
}

/// Raw progress: elapsed over duration, clamped to 1.0.
pub open spec fn progress_milli(elapsed: int, duration: int) -> int {
    if elapsed >= duration {
        1000
    } else {
        elapsed * 1000 / duration
    }
}

/// The interpolated value at an eased progress.
pub open spec fn tween_value(start: int, target: int, eased: int) -> int {
    start + div_trunc((target - start) * eased, 1000)
}

/// An interpolated value never leaves the band between start and target.
pub proof fn lemma_tween_value_between(start: int, target: int, eased: int)
    requires
        0 <= eased <= 1000,
    ensures
        start <= target ==> start <= tween_value(start, target, eased) <= target,
        target <= start ==> target <= tween_value(start, target, eased) <= start,
{
    let d = target - start;
    if d >= 0 {
        assert(0 <= d * eased <= d * 1000) by (nonlinear_arith)
            requires
                d >= 0,
                0 <= eased <= 1000,
        ;
        vstd::arithmetic::div_mod::lemma_div_pos_is_pos(d * eased, 1000);
        vstd::arithmetic::div_mod::lemma_div_is_ordered(d * eased, d * 1000, 1000);
        vstd::arithmetic::div_mod::lemma_div_by_multiple(d, 1000);
    } else {
        let m = -d;
        assert(0 <= m * eased <= m * 1000 && m * eased == -(d * eased)) by (nonlinear_arith)
            requires
                m == -d,
                m >= 0,
                0 <= eased <= 1000,
        ;
        vstd::arithmetic::div_mod::lemma_div_pos_is_pos(m * eased, 1000);
        vstd::arithmetic::div_mod::lemma_div_is_ordered(m * eased, m * 1000, 1000);
        vstd::arithmetic::div_mod::lemma_div_by_multiple(m, 1000);
    }
}

/// `p^n` for `MILLI`-fractions, executable.
fn milli_pow_exec(p: u64, n: u32) -> (r: u64)
    requires
        p <= 1000,
        n >= 1,
    ensures
        r == milli_pow(p as int, n as nat),
        r <= 1000,
{
    let mut acc: u64 = p;
    let mut i: u32 = 1;
    while i < n
        invariant
            p <= 1000,
            acc <= 1000,
            1 <= i <= n,
            acc == milli_pow(p as int, i as nat),
        decreases n - i,
    {
        proof {
            assert(acc * p <= 1000000) by (nonlinear_arith)
                requires
                    acc <= 1000,
                    p <= 1000,
            ;
        }
        acc = acc * p / 1000;
        i = i + 1;
    }
    acc
}

/// Eased progress for a raw progress, executable.
pub fn eased_progress(easing: Easing, p: u64) -> (r: u64)
    requires
        p <= 1000,
    ensures
        r == eased_milli(easing, p as int),
        r <= 1000,
{
    proof {
        lemma_eased_milli_bounds(easing, p as int);
    }
    match easing {
        Easing::Linear => p,
        Easing::InPowi(n) => {
            let m: u32 = if n == 0 {
                1
            } else {
                n
            };
            milli_pow_exec(p, m)
        },
        Easing::OutPowi(n) => {
            let m: u32 = if n == 0 {
                1
            } else {
                n
            };
            1000 - milli_pow_exec(1000 - p, m)
        },
        Easing::InOutPowi(n) => {
            let m: u32 = if n == 0 {
                1
            } else {
                n
            };
            if p < 500 {
                milli_pow_exec(2 * p, m) / 2
            } else {
                1000 - milli_pow_exec(2 * (1000 - p), m) / 2
            }
        },
    }
}

/// Raw progress for an elapsed time, executable.
pub fn progress_exec(elapsed: u64, duration: u64) -> (r: u64)
    requires
        duration >= 1,
    ensures
        r == progress_milli(elapsed as int, duration as int),
        r <= 1000,
{
    if elapsed >= duration {
        1000
    } else {
        let q: u128 = (elapsed as u128) * 1000 / (duration as u128);
        proof {
            vstd::arithmetic::div_mod::lemma_div_pos_is_pos(elapsed as int * 1000, duration as int);
            vstd::arithmetic::div_mod::lemma_multiply_divide_lt(
                elapsed as int * 1000,
                duration as int,
                1000,
            );
            assert(elapsed as int * 1000 < duration as int * 1000) by (nonlinear_arith)
                requires
                    (elapsed as int) < duration as int,
            ;
        }
        q as u64
    }
}

/// How one tick of `Tweenable::update` relates the value before to the
/// value after.
pub open spec fn steps_to(pre: Tweenable, post: Tweenable) -> bool {
    match pre.tween() {
        None => post == pre,
        Some(tw) => if pre.elapsed() + 1 >= tw.duration_ticks as int {
            &&& post.current() == pre.target()
            &&& post.target() == pre.target()
            &&& post.tween() is None
        } else {
            &&& post.tween() == Some(tw)
            &&& post.start() == pre.start()
            &&& post.target() == pre.target()
            &&& post.elapsed() == pre.elapsed() + 1
            &&& post.current() == tween_value(
                pre.start(),
                pre.target(),
                eased_milli(
                    tw.easing,
                    progress_milli(pre.elapsed() + 1, tw.duration_ticks as int),
                ),
            )
        },
    }
}

/// Whether one more tick lands the value at rest.
pub open spec fn step_at_rest(pre: Tweenable) -> bool {
    match pre.tween() {
        None => true,
        Some(tw) => pre.elapsed() + 1 >= tw.duration_ticks as int,
    }
}

/// The value one more tick yields.
pub open spec fn step_current(pre: Tweenable) -> int {
    match pre.tween() {
        None => pre.current(),
        Some(tw) => if pre.elapsed() + 1 >= tw.duration_ticks as int {
            pre.target()
        } else {
            tween_value(
                pre.start(),
                pre.target(),
                eased_milli(
                    tw.easing,
                    progress_milli(pre.elapsed() + 1, tw.duration_ticks as int),
                ),
            )
        },
    }
}

/// How `tween_to` relates a value before to after: with a tween of
/// positive duration the move is installed from the current value with a
/// fresh clock; with none, or a zero duration, the value jumps.
pub open spec fn tween_installed(
    pre: Tweenable,
    post: Tweenable,
    target: int,
    tween: Option<Tween>,
) -> bool {
    &&& post.target() == target
    &&& match tween {
        Some(tw) => if tw.duration_ticks == 0 {
            post.current() == target && post.tween() is None
        } else {
            &&& post.current() == pre.current()
            &&& post.start() == pre.current()
            &&& post.tween() == Some(tw)
            &&& post.elapsed() == 0
        },
        None => post.current() == target && post.tween() is None,
    }
}

/// A scalar driven toward a target by an optional tween.
#[derive(Clone, Copy, Debug)]
pub struct Tweenable {
    current: i64,
    start: i64,
    target: i64,
    tween: Option<Tween>,
    elapsed: u64,
}

impl Tweenable {
    /// Values stay bounded, and a value at rest sits on its target.
    pub open spec fn wf(self) -> bool {
        &&& self.tween() is None ==> self.current() == self.target()
        &&& -VALUE_LIMIT <= self.current() <= VALUE_LIMIT as int
        &&& -VALUE_LIMIT <= self.start() <= VALUE_LIMIT as int
        &&& -VALUE_LIMIT <= self.target() <= VALUE_LIMIT as int
    }

    /// The value consumers read each tick.
    pub closed spec fn current(self) -> int {
        self.current as int
    }

    /// Where the active move began.
    pub closed spec fn start(self) -> int {
        self.start as int
    }

    /// Where the value is heading.
    pub closed spec fn target(self) -> int {
        self.target as int
    }

    /// The active move, if any.
    pub closed spec fn tween(self) -> Option<Tween> {
        self.tween
    }

    /// Ticks spent on the active move.
    pub closed spec fn elapsed(self) -> int {
        self.elapsed as int
    }

    /// Ticks the active move still needs; zero at rest.
    pub open spec fn remaining(self) -> int {
        match self.tween() {
            Some(tw) => if tw.duration_ticks as int > self.elapsed() {
                tw.duration_ticks - self.elapsed()
            } else {
                0
            },
            None => 0,
        }
    }

    /// Whether all of current, start and target lie inside a band.
    pub open spec fn in_band(self, lo: int, hi: int) -> bool {
        &&& lo <= self.current() <= hi
        &&& lo <= self.start() <= hi
        &&& lo <= self.target() <= hi
    }

    /// A value at rest on `value`.
    pub fn at(value: i64) -> (t: Tweenable)
        requires
            -VALUE_LIMIT <= value <= VALUE_LIMIT,
        ensures
            t.wf(),
            t.current() == value,
            t.target() == value,
            t.start() == value,
            t.tween() is None,
    {
        Tweenable { current: value, start: value, target: value, tween: None, elapsed: 0 }
    }

    /// Jump to `value` immediately, dropping any active move.
    pub fn set(&mut self, value: i64)
        requires
            -VALUE_LIMIT <= value <= VALUE_LIMIT,
        ensures
            final(self).wf(),
            final(self).current() == value,
            final(self).target() == value,
            final(self).start() == value,
            final(self).tween() is None,
            final(self).elapsed() == 0,
    {
        self.current = value;
        self.start = value;
        self.target = value;
        self.tween = None;
        self.elapsed = 0;
    }

    /// Head for `target`: immediately when no tween is given or its
    /// duration is zero, else from the current value over the tween.
    pub fn tween_to(&mut self, target: i64, tween: Option<Tween>)
        requires
            old(self).wf(),
            -VALUE_LIMIT <= target <= VALUE_LIMIT,
        ensures
            final(self).wf(),
            final(self).target() == target,
            tween_installed(*old(self), *final(self), target as int, tween),
            match tween {
                Some(tw) => if tw.duration_ticks == 0 {
                    final(self).current() == target && final(self).tween() is None
                } else {
                    &&& final(self).current() == old(self).current()
                    &&& final(self).start() == old(self).current()
                    &&& final(self).tween() == Some(tw)
                    &&& final(self).elapsed() == 0
                },
                None => final(self).current() == target && final(self).tween() is None,
            },
            final(self).start() == old(self).current() || final(self).start() == final(self).current(),
            final(self).current() == target || final(self).current() == old(self).current(),
    {
        match tween {
            Some(tw) => {
                if tw.duration_ticks == 0 {
                    self.set(target);
                } else {
                    self.start = self.current;
                    self.target = target;
                    self.tween = Some(tw);
                    self.elapsed = 0;
                }
            },
            None => {
                self.set(target);
            },
        }
    }

    /// Advance the active move by one tick; at the end of its duration the
    /// value lands exactly on the target and comes to rest.
    pub fn update(&mut self)
        requires
            old(self).wf(),
        ensures
            final(self).wf(),
            final(self).target() == old(self).target(),
            steps_to(*old(self), *final(self)),
            match old(self).tween() {
                None => *final(self) == *old(self),
                Some(tw) => if old(self).elapsed() + 1 >= tw.duration_ticks as int {
                    final(self).current() == old(self).target() && final(self).tween() is None
                } else {
                    &&& final(self).tween() == Some(tw)
                    &&& final(self).start() == old(self).start()
                    &&& final(self).elapsed() == old(self).elapsed() + 1
                    &&& final(self).current() == tween_value(
                        old(self).start(),
                        old(self).target(),
                        eased_milli(
                            tw.easing,
                            progress_milli(old(self).elapsed() + 1, tw.duration_ticks as int),
                        ),
                    )
                },
            },
            final(self).current() == old(self).target() || (vstd::math::min(
                old(self).start(),
                old(self).target(),
            ) <= final(self).current() && final(self).current() <= vstd::math::max(
                old(self).start(),
                old(self).target(),
            )),
            final(self).start() == old(self).start() || final(self).start() == old(self).target(),
    {
        match self.tween {
            None => {},
            Some(tw) => {
                let e2 = if self.elapsed < u64::MAX {
                    self.elapsed + 1
                } else {
                    self.elapsed
                };
                if e2 >= tw.duration_ticks {
                    self.current = self.target;
                    self.start = self.target;
                    self.tween = None;
                    self.elapsed = 0;
                } else {
                    let p = progress_exec(e2, tw.duration_ticks);
                    let e = eased_progress(tw.easing, p);
                    let delta = crate::frame::div_trunc_i64(
                        mul_band(self.target - self.start, e as i64),
                        1000,
                    );
                    proof {
                        lemma_tween_value_between(self.start as int, self.target as int, e as int);
                    }
                    self.current = self.start + delta;
                    self.elapsed = e2;
                }
            },
        }
    }

    /// The value consumers read each tick, executable.
    pub fn value(&self) -> (v: i64)
        ensures
            v as int == self.current(),
    {
        self.current
    }

    /// Whether no move is active.
    pub fn at_rest(&self) -> (b: bool)
        ensures
            b == (self.tween() is None),
    {
        match self.tween {
            None => true,
            Some(_) => false,
        }
    }

    /// Ticks the active move still needs, executable.
    pub fn remaining_exec(&self) -> (r: u64)
        ensures
            r as int == self.remaining(),
    {
        match self.tween {
            Some(tw) => if tw.duration_ticks > self.elapsed {
                tw.duration_ticks - self.elapsed
            } else {
                0
            },
            None => 0,
        }
    }
}

/// Multiply a banded difference by an eased `MILLI`-fraction.
fn mul_band(d: i64, e: i64) -> (r: i64)
    requires
        -8796093022208 <= d <= 8796093022208,
        0 <= e <= 1000,
    ensures
        r == d * e,
        -8796093022208000 <= r <= 8796093022208000,
{
    proof {
        assert(-8796093022208000 <= d * e <= 8796093022208000) by (nonlinear_arith)
            requires
                -8796093022208 <= d <= 8796093022208,
                0 <= e <= 1000,
        ;
    }
    d * e
}

} // verus!
