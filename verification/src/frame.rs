//! Stereo frame primitive and 4-point cubic interpolation.
//!
//! A channel value is a fixed-point amplitude: `AMPLITUDE_ONE` stands for a
//! full-scale sample of 1.0. Every operation saturates at
//! `AMPLITUDE_LIMIT`, so channel values of well-formed frames always stay
//! inside `[-AMPLITUDE_LIMIT, AMPLITUDE_LIMIT]` and no arithmetic here can
//! overflow.

use vstd::prelude::*;

verus! {

/// Fixed-point amplitude of a full-scale (1.0) sample.
pub const AMPLITUDE_ONE: i64 = 32768;

/// Saturation bound for a channel value (2^42): ample headroom above full
/// scale for mixing many instances at high gain.
pub const AMPLITUDE_LIMIT: i64 = 4398046511104;

/// Denominator of the sub-sample fraction handed to the interpolator.
pub const FRACTION_ONE: i64 = 1024;

/// Denominator of volume, pitch and fade factors: 1000 stands for 1.0.
pub const MILLI: i64 = 1000;

/// Clamp an amplitude into the saturation range.
pub open spec fn sat_amp(x: int) -> int {
    if x > AMPLITUDE_LIMIT as int {
        AMPLITUDE_LIMIT as int
    } else if x < -(AMPLITUDE_LIMIT as int) {
        -(AMPLITUDE_LIMIT as int)
    } else {
        x
    }
}

/// Integer division truncating toward zero, for a positive divisor.
pub open spec fn div_trunc(a: int, d: int) -> int
    recommends
        d > 0,
{
    if a >= 0 {
        a / d
    } else {
        -((-a) / d)
    }
}

/// One stereo sample: a left and a right fixed-point amplitude.
#[derive(Clone, Copy, Debug)]
pub struct Frame {
    left: i64,
    right: i64,
}

/// The 4-point cubic kernel on one channel, in exact integer arithmetic:
/// the Catmull-Rom coefficients with halves taken by truncating division,
/// evaluated by Horner steps over the `FRACTION_ONE`-scaled fraction `x`.
pub open spec fn interp_channel(y0: int, y1: int, y2: int, y3: int, x: int) -> int {
    let c0 = y1;
    let c1 = div_trunc(y2 - y0, 2);
    let c2 = y0 - div_trunc(5 * y1, 2) + 2 * y2 - div_trunc(y3, 2);
    let c3 = div_trunc(y3 - y0, 2) + div_trunc(3 * (y1 - y2), 2);
    let a1 = div_trunc(c3 * x, FRACTION_ONE as int) + c2;
    let a2 = div_trunc(a1 * x, FRACTION_ONE as int) + c1;
    div_trunc(a2 * x, FRACTION_ONE as int) + c0
}

/// Truncating signed division by a positive divisor, with its bounds.
pub(crate) fn div_trunc_i64(a: i64, d: i64) -> (r: i64)
    requires
        d >= 1,
        a > i64::MIN,
    ensures
        r == div_trunc(a as int, d as int),
        a >= 0 ==> 0 <= r <= a,
        a < 0 ==> a <= r <= 0,
{
    if a >= 0 {
        let q: u64 = (a as u64) / (d as u64);
        proof {
            vstd::arithmetic::div_mod::lemma_div_is_ordered_by_denominator(a as int, 1, d as int);
            vstd::arithmetic::div_mod::lemma_div_pos_is_pos(a as int, d as int);
        }
        q as i64
    } else {
        let m: i64 = -a;
        let q: u64 = (m as u64) / (d as u64);
        proof {
            vstd::arithmetic::div_mod::lemma_div_is_ordered_by_denominator(m as int, 1, d as int);
            vstd::arithmetic::div_mod::lemma_div_pos_is_pos(m as int, d as int);
        }
        -(q as i64)
    }
}

/// Saturate a raw sum or product into the amplitude range.
fn sat_amp_i64(x: i64) -> (r: i64)
    ensures
        r == sat_amp(x as int),
{
    if x > AMPLITUDE_LIMIT {
        AMPLITUDE_LIMIT
    } else if x < -AMPLITUDE_LIMIT {
        -AMPLITUDE_LIMIT
    } else {
        x
    }
}

impl Frame {
    /// Channel values of a frame never leave the saturation range.
    #[verifier::type_invariant]
    pub closed spec fn inv(self) -> bool {
        &&& -(AMPLITUDE_LIMIT as int) <= self.left as int <= AMPLITUDE_LIMIT as int
        &&& -(AMPLITUDE_LIMIT as int) <= self.right as int <= AMPLITUDE_LIMIT as int
    }

    /// The left channel, as a mathematical integer.
    pub closed spec fn l(self) -> int {
        self.left as int
    }

    /// The right channel, as a mathematical integer.
    pub closed spec fn r(self) -> int {
        self.right as int
    }

    /// Build a frame, saturating each channel.
    pub fn new(left: i64, right: i64) -> (f: Frame)
        ensures
            f.l() == sat_amp(left as int),
            f.r() == sat_amp(right as int),
    {
        Frame { left: sat_amp_i64(left), right: sat_amp_i64(right) }
    }

    /// The silent frame.
    pub fn zero() -> (f: Frame)
        ensures
            f.l() == 0,
            f.r() == 0,
    {
        Frame { left: 0, right: 0 }
    }

    /// Duplicate one channel value into both channels.
    pub fn from_mono(value: i64) -> (f: Frame)
        ensures
            f.l() == sat_amp(value as int),
            f.r() == sat_amp(value as int),
    {
        let v = sat_amp_i64(value);
        Frame { left: v, right: v }
    }

    /// Read the left channel.
    pub fn left(&self) -> (v: i64)
        ensures
            v as int == self.l(),
    {
        self.left
    }

    /// Read the right channel.
    pub fn right(&self) -> (v: i64)
        ensures
            v as int == self.r(),
    {
        self.right
    }

    /// Element-wise sum, saturated.
    pub fn add(self, other: Frame) -> (f: Frame)
        ensures
            f.l() == sat_amp(self.l() + other.l()),
            f.r() == sat_amp(self.r() + other.r()),
    {
        proof {
            use_type_invariant(self);
            use_type_invariant(other);
        }
        Frame { left: sat_amp_i64(self.left + other.left), right: sat_amp_i64(self.right + other.right) }
    }

    /// Element-wise difference, saturated.
    pub fn sub(self, other: Frame) -> (f: Frame)
        ensures
            f.l() == sat_amp(self.l() - other.l()),
            f.r() == sat_amp(self.r() - other.r()),
    {
        proof {
            use_type_invariant(self);
            use_type_invariant(other);
        }
        Frame { left: sat_amp_i64(self.left - other.left), right: sat_amp_i64(self.right - other.right) }
    }

    /// Scale both channels by a `MILLI`-denominated factor.
    pub fn scaled(self, factor_milli: i64) -> (f: Frame)
        requires
            0 <= factor_milli <= 2000000,
        ensures
            f.l() == sat_amp(div_trunc(self.l() * factor_milli, MILLI as int)),
            f.r() == sat_amp(div_trunc(self.r() * factor_milli, MILLI as int)),
    {
        proof {
            use_type_invariant(self);
            assert(-9000000000000000000 <= self.left as int * factor_milli <= 9000000000000000000
                && -9000000000000000000 <= self.right as int * factor_milli
                    <= 9000000000000000000) by (nonlinear_arith)
                requires
                    -4398046511104 <= self.left as int <= 4398046511104,
                    -4398046511104 <= self.right as int <= 4398046511104,
                    0 <= factor_milli <= 2000000,
            ;
        }
        let sl = div_trunc_i64(self.left * factor_milli, MILLI);
        let sr = div_trunc_i64(self.right * factor_milli, MILLI);
        Frame { left: sat_amp_i64(sl), right: sat_amp_i64(sr) }
    }

    /// Convert an integer PCM sample of the given bit depth to a fixed-point
    /// amplitude: the sample's full scale `2^(bits-1)` maps to `AMPLITUDE_ONE`.
    pub fn from_i32(left: i32, right: i32, bits: u32) -> (f: Frame)
        requires
            1 <= bits <= 32,
        ensures
            f.l() == sat_amp(scale_pcm(left as int, bits as nat)),
            f.r() == sat_amp(scale_pcm(right as int, bits as nat)),
    {
        Frame {
            left: sat_amp_i64(scale_pcm_i64(left as i64, bits)),
            right: sat_amp_i64(scale_pcm_i64(right as i64, bits)),
        }
    }

    /// Cubic interpolation over four consecutive frames at fraction
    /// `frac / FRACTION_ONE`, channel by channel, saturated.
    pub fn interpolate(y0: Frame, y1: Frame, y2: Frame, y3: Frame, frac: i64) -> (f: Frame)
        requires
            0 <= frac < FRACTION_ONE,
        ensures
            f.l() == sat_amp(interp_channel(y0.l(), y1.l(), y2.l(), y3.l(), frac as int)),
            f.r() == sat_amp(interp_channel(y0.r(), y1.r(), y2.r(), y3.r(), frac as int)),
    {
        proof {
            use_type_invariant(y0);
            use_type_invariant(y1);
            use_type_invariant(y2);
            use_type_invariant(y3);
        }
        Frame {
            left: interp_channel_i64(y0.left, y1.left, y2.left, y3.left, frac),
            right: interp_channel_i64(y0.right, y1.right, y2.right, y3.right, frac),
        }
    }
}

/// Rescale a PCM sample of `bits` depth to the internal amplitude scale.
pub open spec fn scale_pcm(s: int, bits: nat) -> int {
    if bits <= 16 {
        s * vstd::arithmetic::power2::pow2((16 - bits) as nat)
    } else {
        div_trunc(s, vstd::arithmetic::power2::pow2((bits - 16) as nat) as int)
    }
}

/// Executable PCM rescaling: a left shift for shallow samples, a truncating
/// division for deep ones.
fn scale_pcm_i64(s: i64, bits: u32) -> (r: i64)
    requires
        1 <= bits <= 32,
        -0x8000_0000 <= s <= 0x8000_0000,
    ensures
        r == scale_pcm(s as int, bits as nat),
        -0x1_0000_0000_0000 <= r <= 0x1_0000_0000_0000,
{
    proof {
        vstd::arithmetic::power2::lemma2_to64();
    }
    if bits <= 16 {
        let shift: u32 = 16 - bits;
        let factor: i64 = pow2_i64(shift);
        proof {
            vstd::arithmetic::power2::lemma_pow2_adds((16 - bits) as nat, (bits - 1) as nat);
            vstd::arithmetic::power2::lemma_pow2_pos((16 - bits) as nat);
            assert(-281474976710656 <= s as int * factor <= 281474976710656) by (nonlinear_arith)
                requires
                    -0x8000_0000 <= s as int <= 0x8000_0000,
                    1 <= factor as int <= 65536,
            ;
        }
        s * factor
    } else {
        let divisor: i64 = pow2_i64(bits - 16);
        proof {
            vstd::arithmetic::power2::lemma_pow2_pos((bits - 16) as nat);
        }
        if s == i64::MIN {
            0
        } else {
            div_trunc_i64(s, divisor)
        }
    }
}

/// A small power of two as an `i64`.
fn pow2_i64(e: u32) -> (r: i64)
    requires
        e <= 16,
    ensures
        r == vstd::arithmetic::power2::pow2(e as nat),
        1 <= r <= 65536,
{
    proof {
        vstd::arithmetic::power2::lemma2_to64();
    }
    let mut r: i64 = 1;
    let mut i: u32 = 0;
    while i < e
        invariant
            i <= e <= 16,
            r == vstd::arithmetic::power2::pow2(i as nat),
            1 <= r <= 65536,
        decreases e - i,
    {
        proof {
            vstd::arithmetic::power2::lemma_pow2_unfold((i + 1) as nat);
            if i as nat + 1 < 16 {
                vstd::arithmetic::power2::lemma_pow2_strictly_increases(i as nat + 1, 16);
            }
            vstd::arithmetic::power2::lemma2_to64();
        }
        r = r * 2;
        i = i + 1;
    }
    r
}

/// One Horner step: multiply a bounded term by the fraction numerator and
/// truncate back down by `FRACTION_ONE`, which cannot grow the magnitude.
fn frac_step(a: i64, x: i64) -> (r: i64)
    requires
        -1125899906842624 <= a <= 1125899906842624,
        0 <= x < 1024,
    ensures
        r == div_trunc(a * x, FRACTION_ONE as int),
        vstd::math::abs(r as int) <= vstd::math::abs(a as int),
{
    proof {
        assert(0 <= vstd::math::abs(a as int) * x <= 1152921504606846976
            && vstd::math::abs(a as int) * x <= vstd::math::abs(a as int) * 1024
            && vstd::math::abs((a * x) as int) == vstd::math::abs(a as int) * x) by (nonlinear_arith)
            requires
                -1125899906842624 <= a <= 1125899906842624,
                0 <= x < 1024,
        ;
    }
    let p: i64 = a * x;
    let r = div_trunc_i64(p, FRACTION_ONE);
    proof {
        let m = vstd::math::abs(p as int) as int;
        vstd::arithmetic::div_mod::lemma_div_is_ordered(
            m,
            vstd::math::abs(a as int) as int * 1024,
            1024,
        );
        vstd::arithmetic::div_mod::lemma_div_by_multiple(vstd::math::abs(a as int) as int, 1024);
    }
    r
}

/// One channel of the cubic kernel, mirroring `interp_channel` step by step.
#[verifier::rlimit(60)]
fn interp_channel_i64(y0: i64, y1: i64, y2: i64, y3: i64, x: i64) -> (r: i64)
    requires
        0 <= x < FRACTION_ONE,
        -AMPLITUDE_LIMIT <= y0 <= AMPLITUDE_LIMIT,
        -AMPLITUDE_LIMIT <= y1 <= AMPLITUDE_LIMIT,
        -AMPLITUDE_LIMIT <= y2 <= AMPLITUDE_LIMIT,
        -AMPLITUDE_LIMIT <= y3 <= AMPLITUDE_LIMIT,
    ensures
        r == sat_amp(interp_channel(y0 as int, y1 as int, y2 as int, y3 as int, x as int)),
        -AMPLITUDE_LIMIT <= r <= AMPLITUDE_LIMIT,
{
    let c0: i64 = y1;
    let c1: i64 = div_trunc_i64(y2 - y0, 2);
    let c2: i64 = y0 - div_trunc_i64(5 * y1, 2) + 2 * y2 - div_trunc_i64(y3, 2);
    let c3: i64 = div_trunc_i64(y3 - y0, 2) + div_trunc_i64(3 * (y1 - y2), 2);
    let a1: i64 = frac_step(c3, x) + c2;
    let a2: i64 = frac_step(a1, x) + c1;
    let a3: i64 = frac_step(a2, x) + c0;
    sat_amp_i64(a3)
}

} // verus!
