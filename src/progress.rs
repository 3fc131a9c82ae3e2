//! Normalized progress and exact ratios.
//!
//! Time is measured in whole nanoseconds (`u64`). Progress through an
//! animation is a fixed-point fraction in billionths, and fractional
//! parameters (repeat counts, scale factors, percentages) are exact ratios.
use vstd::prelude::*;

verus! {

/// The fixed-point value of a complete progress, i.e. `1.0`.
pub const PROGRESS_ONE: u64 = 1_000_000_000;

/// Half of [`PROGRESS_ONE`], used for round-to-nearest.
pub const PROGRESS_HALF: u64 = 500_000_000;

/// Normalized progress in billionths: `0` is the start, [`PROGRESS_ONE`] the end.
#[derive(Clone, Copy, Debug, PartialEq, Eq, Structural)]
pub struct Progress {
    pub parts: u64,
}

impl Progress {
    /// A progress lies within `[0, 1]`.
    pub open spec fn wf(self) -> bool {
        self.parts <= PROGRESS_ONE
    }

    /// The start of an animation.
    pub fn zero() -> (r: Progress)
        ensures
            r.parts == 0,
    {
        Progress { parts: 0 }
    }

    /// The end of an animation.
    pub fn one() -> (r: Progress)
        ensures
            r.parts == PROGRESS_ONE,
    {
        Progress { parts: PROGRESS_ONE }
    }

    /// Progress `num / den`, rounded down to billionths and capped at one.
    pub fn from_ratio(num: u64, den: u64) -> (r: Progress)
        requires
            den > 0,
        ensures
            r.wf(),
            r.parts == ratio_parts(num as int, den as int),
    {
        proof {
            lemma_mul_fits_u128(num, PROGRESS_ONE);
        }
        let v: u128 = (num as u128) * (PROGRESS_ONE as u128) / (den as u128);
        if v >= PROGRESS_ONE as u128 {
            Progress { parts: PROGRESS_ONE }
        } else {
            Progress { parts: v as u64 }
        }
    }
}

/// Billionths of `num / den`, rounded down and capped at one.
pub open spec fn ratio_parts(num: int, den: int) -> int {
    let v = num * PROGRESS_ONE / den;
    if v >= PROGRESS_ONE {
        PROGRESS_ONE as int
    } else {
        v
    }
}

/// An exact non-negative ratio `num / den`.
#[derive(Clone, Copy, Debug, PartialEq, Eq, Structural)]
pub struct Ratio {
    pub num: u64,
    pub den: u64,
}

impl Ratio {
    /// A ratio has a non-zero denominator.
    pub open spec fn wf(self) -> bool {
        self.den > 0
    }

    /// The ratio `num / den`.
    pub fn new(num: u64, den: u64) -> (r: Ratio)
        requires
            den > 0,
        ensures
            r.wf(),
            r.num == num,
            r.den == den,
    {
        Ratio { num, den }
    }

    /// The ratio `n / 1`.
    pub fn whole(n: u64) -> (r: Ratio)
        ensures
            r.wf(),
            r.num == n,
            r.den == 1,
    {
        Ratio { num: n, den: 1 }
    }

    /// Whether the ratio is zero.
    pub fn is_zero(&self) -> (r: bool)
        ensures
            r == (self.num == 0),
    {
        self.num == 0
    }
}

/// `a + b`, capped at `u64::MAX`.
pub open spec fn sat_add(a: u64, b: u64) -> u64 {
    if a + b > u64::MAX {
        u64::MAX
    } else {
        (a + b) as u64
    }
}

/// `a - b`, floored at zero.
pub open spec fn sat_sub(a: u64, b: u64) -> u64 {
    if a >= b {
        (a - b) as u64
    } else {
        0
    }
}

/// `min(v, u64::MAX)` for a non-negative integer.
pub open spec fn cap(v: int) -> u64 {
    if v > u64::MAX {
        u64::MAX
    } else if v < 0 {
        0
    } else {
        v as u64
    }
}

/// A duration multiplied by a ratio: `d * num / den`, rounded down and capped.
pub open spec fn mul_ratio(d: u64, r: Ratio) -> u64 {
    cap(d * r.num / r.den as int)
}

/// A duration multiplied by a ratio: `d * num / den`, rounded up and capped.
pub open spec fn mul_ratio_ceil(d: u64, r: Ratio) -> u64 {
    cap((d * r.num + r.den - 1) / r.den as int)
}

/// A duration divided by a ratio: `d * den / num`, rounded down and capped.
pub open spec fn div_ratio(d: u64, r: Ratio) -> u64 {
    cap(d * r.den / r.num as int)
}

/// The product of two `u64` values fits in a `u128`.
pub proof fn lemma_mul_fits_u128(a: u64, b: u64)
    ensures
        0 <= a * b <= u64::MAX * u64::MAX,
        u64::MAX * u64::MAX < u128::MAX,
{
    assert(0 <= a * b <= u64::MAX * u64::MAX) by (nonlinear_arith)
        requires
            a <= u64::MAX,
            b <= u64::MAX,
    ;
}

pub(crate) fn add_sat(a: u64, b: u64) -> (r: u64)
    ensures
        r == sat_add(a, b),
{
    a.saturating_add(b)
}

pub(crate) fn sub_sat(a: u64, b: u64) -> (r: u64)
    ensures
        r == sat_sub(a, b),
{
    a.saturating_sub(b)
}

fn cap_u128(v: u128) -> (r: u64)
    ensures
        r == cap(v as int),
{
    if v > u64::MAX as u128 {
        u64::MAX
    } else {
        v as u64
    }
}

/// `d * r`, see [`mul_ratio`].
pub(crate) fn mul_duration(d: u64, r: Ratio) -> (out: u64)
    requires
        r.wf(),
    ensures
        out == mul_ratio(d, r),
{
    proof {
        lemma_mul_fits_u128(d, r.num);
    }
    let p: u128 = (d as u128) * (r.num as u128);
    cap_u128(p / (r.den as u128))
}

/// `d * r` rounded up, see [`mul_ratio_ceil`].
pub(crate) fn mul_duration_ceil(d: u64, r: Ratio) -> (out: u64)
    requires
        r.wf(),
    ensures
        out == mul_ratio_ceil(d, r),
{
    proof {
        lemma_mul_fits_u128(d, r.num);
        assert(d * r.num + r.den <= u64::MAX * u64::MAX + u64::MAX) by (nonlinear_arith)
            requires
                0 <= d * r.num <= u64::MAX * u64::MAX,
                r.den <= u64::MAX,
        ;
    }
    let p: u128 = (d as u128) * (r.num as u128) + (r.den as u128) - 1;
    cap_u128(p / (r.den as u128))
}

/// `d / r`, see [`div_ratio`].
pub(crate) fn div_duration(d: u64, r: Ratio) -> (out: u64)
    requires
        r.num > 0,
    ensures
        out == div_ratio(d, r),
{
    proof {
        lemma_mul_fits_u128(d, r.den);
    }
    let p: u128 = (d as u128) * (r.den as u128);
    cap_u128(p / (r.num as u128))
}

} // verus!
