//! Easing functions: pure mappings from linear progress to eased progress.
use vstd::prelude::*;
use crate::animation::map::is_pure_fn;
use crate::progress::{Progress, PROGRESS_HALF, PROGRESS_ONE};

verus! {

/// An easing function maps normalized linear time to normalized eased time.
pub trait Function {
    /// The eased progress for `normalized_time`.
    spec fn spec_ease(&self, normalized_time: Progress) -> Progress;

    /// Outputs the eased progress for a normalized time in `[0, 1]`.
    fn ease(&self, normalized_time: Progress) -> (r: Progress)
        requires
            normalized_time.wf(),
        ensures
            r == self.spec_ease(normalized_time),
            r.wf(),
    ;
}

/// How a curve is applied over the course of an animation.
#[derive(Clone, Copy, Debug, PartialEq, Eq, Structural)]
pub enum EasingMode {
    /// The curve as it is.
    In,
    /// The complement of the curve.
    Out,
    /// The curve for the first half, its complement for the second.
    InOut,
}

impl Default for EasingMode {
    fn default() -> (r: EasingMode)
        ensures
            r == EasingMode::In,
    {
        EasingMode::In
    }
}

impl EasingMode {
    /// The eased progress at linear progress `t`, given the curve's value `f` at `t`.
    pub open spec fn spec_apply(self, t: u64, f: u64) -> u64 {
        match self {
            EasingMode::In => f,
            EasingMode::Out => (PROGRESS_ONE - f) as u64,
            EasingMode::InOut => if t < PROGRESS_HALF {
                f
            } else {
                (PROGRESS_ONE - f) as u64
            },
        }
    }

    /// The eased progress at linear progress `t`, given the curve's value `f`
    /// at `t`; both in billionths.
    pub fn apply(&self, t: u64, f: u64) -> (r: u64)
        requires
            f <= PROGRESS_ONE,
        ensures
            r == self.spec_apply(t, f),
            r <= PROGRESS_ONE,
    {
        match self {
            EasingMode::In => f,
            EasingMode::Out => PROGRESS_ONE - f,
            EasingMode::InOut => {
                if t < PROGRESS_HALF {
                    f
                } else {
                    PROGRESS_ONE - f
                }
            },
        }
    }
}

/// The shape of an easing curve.
#[derive(Clone, Copy, Debug, PartialEq, Eq, Structural)]
pub enum Curve {
    /// `x = t`
    Linear,
    /// `x = t^n`, computed in fixed point one factor at a time
    Pow(u32),
    /// A ball bouncing to rest: four parabolic arcs
    Bounce,
}

/// `t^n` in billionths, each multiplication rounded down.
pub open spec fn pow_parts(t: int, n: nat) -> int
    decreases n,
{
    if n == 0 {
        PROGRESS_ONE as int
    } else {
        pow_parts(t, (n - 1) as nat) * t / (PROGRESS_ONE as int)
    }
}

/// The bounce curve in billionths at progress `t` (in billionths): one less
/// the height of four parabolic arcs, `121/16 (t - c)^2 + h` on the arcs
/// split at `4/11`, `8/11` and `10/11`, rounded down.
pub open spec fn bounce_parts(t: int) -> int {
    let s = PROGRESS_ONE as int;
    let v = if 11 * t < 4 * s {
        (11 * t) * (11 * t) / (16 * s)
    } else if 11 * t < 8 * s {
        (11 * t - 6 * s) * (11 * t - 6 * s) / (16 * s) + 750_000_000
    } else if 11 * t < 10 * s {
        (11 * t - 9 * s) * (11 * t - 9 * s) / (16 * s) + 937_500_000
    } else {
        (22 * t - 21 * s) * (22 * t - 21 * s) / (64 * s) + 984_375_000
    };
    s - v
}

proof fn lemma_arc(d: int, bound: int, den: int, top: int)
    requires
        -bound <= d <= bound,
        bound >= 0,
        den > 0,
        bound * bound / den == top,
    ensures
        0 <= d * d / den <= top,
        d * d <= bound * bound,
{
    assert(0 <= d * d <= bound * bound) by (nonlinear_arith)
        requires
            -bound <= d <= bound,
            bound >= 0,
    ;
    vstd::arithmetic::div_mod::lemma_div_is_ordered(d * d, bound * bound, den);
    vstd::arithmetic::div_mod::lemma_div_is_ordered(0, d * d, den);
}

proof fn lemma_bounce_range(t: int)
    requires
        0 <= t <= PROGRESS_ONE,
    ensures
        0 <= bounce_parts(t) <= PROGRESS_ONE,
{
    let s = PROGRESS_ONE as int;
    if 11 * t < 4 * s {
        lemma_arc(11 * t, 4 * s, 16 * s, s);
    } else if 11 * t < 8 * s {
        lemma_arc(11 * t - 6 * s, 2 * s, 16 * s, 250_000_000);
    } else if 11 * t < 10 * s {
        lemma_arc(11 * t - 9 * s, s, 16 * s, 62_500_000);
    } else {
        lemma_arc(22 * t - 21 * s, s, 64 * s, 15_625_000);
    }
}

fn bounce_value(t: u64) -> (r: u64)
    requires
        t <= PROGRESS_ONE,
    ensures
        r == bounce_parts(t as int),
{
    proof {
        lemma_bounce_range(t as int);
    }
    let s: i128 = PROGRESS_ONE as i128;
    let x: i128 = t as i128;
    let v: i128 = if 11 * x < 4 * s {
        proof {
            lemma_arc(11 * (x as int), 4 * (s as int), 16 * (s as int), s as int);
            assert(0 <= (11 * x) * (11 * x) <= 16 * s * s);
        }
        (11 * x) * (11 * x) / (16 * s)
    } else if 11 * x < 8 * s {
        proof {
            lemma_arc(11 * (x as int) - 6 * (s as int), 2 * (s as int), 16 * (s as int), 250_000_000);
            assert(0 <= (11 * x - 6 * s) * (11 * x - 6 * s) <= 16 * s * s);
        }
        (11 * x - 6 * s) * (11 * x - 6 * s) / (16 * s) + 750_000_000
    } else if 11 * x < 10 * s {
        proof {
            lemma_arc(11 * (x as int) - 9 * (s as int), s as int, 16 * (s as int), 62_500_000);
            assert(0 <= (11 * x - 9 * s) * (11 * x - 9 * s) <= 16 * s * s);
        }
        (11 * x - 9 * s) * (11 * x - 9 * s) / (16 * s) + 937_500_000
    } else {
        proof {
            lemma_arc(22 * (x as int) - 21 * (s as int), s as int, 64 * (s as int), 15_625_000);
            assert(0 <= (22 * x - 21 * s) * (22 * x - 21 * s) <= 16 * s * s);
        }
        (22 * x - 21 * s) * (22 * x - 21 * s) / (64 * s) + 984_375_000
    };
    (s - v) as u64
}

impl Curve {
    /// The curve's value at progress `t`, in billionths.
    pub open spec fn spec_value(self, t: u64) -> int {
        match self {
            Curve::Linear => t as int,
            Curve::Pow(n) => pow_parts(t as int, n as nat),
            Curve::Bounce => bounce_parts(t as int),
        }
    }

    fn value(&self, t: u64) -> (r: u64)
        requires
            t <= PROGRESS_ONE,
        ensures
            r == self.spec_value(t),
            r <= PROGRESS_ONE,
    {
        match self {
            Curve::Linear => t,
            Curve::Pow(n) => {
                let n = *n;
                let mut acc: u64 = PROGRESS_ONE;
                let mut i: u32 = 0;
                while i < n
                    invariant
                        i <= n,
                        t <= PROGRESS_ONE,
                        acc == pow_parts(t as int, i as nat),
                        acc <= PROGRESS_ONE,
                    decreases n - i,
                {
                    proof {
                        assert(acc * t <= acc * PROGRESS_ONE) by (nonlinear_arith)
                            requires
                                t <= PROGRESS_ONE,
                        ;
                        assert(acc * t <= PROGRESS_ONE * PROGRESS_ONE) by (nonlinear_arith)
                            requires
                                t <= PROGRESS_ONE,
                                acc <= PROGRESS_ONE,
                        ;
                        assert(acc * PROGRESS_ONE / (PROGRESS_ONE as int) == acc) by (nonlinear_arith);
                        vstd::arithmetic::div_mod::lemma_div_is_ordered(
                            acc * t,
                            acc * PROGRESS_ONE,
                            PROGRESS_ONE as int,
                        );
                        assert(0 <= acc * t) by (nonlinear_arith);
                    }
                    acc = acc * t / PROGRESS_ONE;
                    i = i + 1;
                }
                acc
            },
            Curve::Bounce => {
                proof {
                    lemma_bounce_range(t as int);
                }
                bounce_value(t)
            },
        }
    }
}

/// An easing function: a curve and the mode in which it is applied.
#[derive(Clone, Copy, Debug, PartialEq, Eq, Structural)]
pub struct Easing {
    pub mode: EasingMode,
    pub curve: Curve,
}

impl Easing {
    /// Sets the easing mode, see [`EasingMode`].
    pub fn mode(self, mode: EasingMode) -> (r: Easing)
        ensures
            r.mode == mode,
            r.curve == self.curve,
    {
        Easing { mode, curve: self.curve }
    }
}

impl Function for Easing {
    open spec fn spec_ease(&self, normalized_time: Progress) -> Progress {
        Progress {
            parts: self.mode.spec_apply(
                normalized_time.parts,
                self.curve.spec_value(normalized_time.parts) as u64,
            ),
        }
    }

    fn ease(&self, normalized_time: Progress) -> (r: Progress) {
        let f = self.curve.value(normalized_time.parts);
        Progress { parts: self.mode.apply(normalized_time.parts, f) }
    }
}

/// A caller's own easing curve: a pure function on normalized time, applied
/// in an [`EasingMode`]. Results past one are taken as one.
#[verifier::reject_recursive_types(F)]
pub struct Custom<F: Fn(Progress) -> Progress> {
    mode: EasingMode,
    f: F,
}

/// `p`, capped at one.
pub open spec fn capped(p: Progress) -> u64 {
    if p.parts > PROGRESS_ONE {
        PROGRESS_ONE
    } else {
        p.parts
    }
}

impl<F: Fn(Progress) -> Progress> Custom<F> {
    #[verifier::type_invariant]
    spec fn inv(self) -> bool {
        is_pure_fn(self.f)
    }

    /// The mode in which the curve is applied.
    pub closed spec fn spec_mode(&self) -> EasingMode {
        self.mode
    }

    /// The curve.
    pub closed spec fn curve(&self) -> F {
        self.f
    }

    /// Sets the easing mode, see [`EasingMode`].
    pub fn mode(self, mode: EasingMode) -> (r: Self)
        ensures
            r.spec_mode() == mode,
            r.curve() == self.curve(),
    {
        proof {
            use_type_invariant(&self);
        }
        Custom { mode, f: self.f }
    }
}

impl<F: Fn(Progress) -> Progress + Copy> Clone for Custom<F> {
    fn clone(&self) -> (r: Self)
        ensures
            r == *self,
    {
        *self
    }
}

impl<F: Fn(Progress) -> Progress + Copy> Copy for Custom<F> {
}

impl<F: Fn(Progress) -> Progress> Function for Custom<F> {
    closed spec fn spec_ease(&self, normalized_time: Progress) -> Progress {
        let y = choose|y: Progress| self.f.ensures((normalized_time,), y);
        Progress { parts: self.mode.spec_apply(normalized_time.parts, capped(y)) }
    }

    fn ease(&self, normalized_time: Progress) -> (r: Progress) {
        proof {
            use_type_invariant(self);
        }
        let y = (self.f)(normalized_time);
        let f = if y.parts > PROGRESS_ONE {
            PROGRESS_ONE
        } else {
            y.parts
        };
        Progress { parts: self.mode.apply(normalized_time.parts, f) }
    }
}

/// An easing from the caller's own pure curve `f`, in mode [`EasingMode::In`].
pub fn custom<F: Fn(Progress) -> Progress>(f: F) -> (r: Custom<F>)
    requires
        is_pure_fn(f),
    ensures
        r.spec_mode() == EasingMode::In,
        r.curve() == f,
        forall|t: Progress, y: Progress| #[trigger] f.ensures((t,), y) ==> r.spec_ease(t) == (Progress {
            parts: capped(y),
        }),
{
    Custom { mode: EasingMode::In, f }
}

/// Linear easing, `x = t`.
pub fn linear() -> (r: Easing)
    ensures
        r == (Easing { mode: EasingMode::In, curve: Curve::Linear }),
        forall|t: Progress| #[trigger] r.spec_ease(t) == t,
{
    Easing { mode: EasingMode::In, curve: Curve::Linear }
}

/// Power easing, `x = t^power`.
pub fn pow_ease(power: u32) -> (r: Easing)
    ensures
        r == (Easing { mode: EasingMode::In, curve: Curve::Pow(power) }),
{
    Easing { mode: EasingMode::In, curve: Curve::Pow(power) }
}

/// Bounce easing.
pub fn bounce_ease() -> (r: Easing)
    ensures
        r == (Easing { mode: EasingMode::In, curve: Curve::Bounce }),
{
    Easing { mode: EasingMode::In, curve: Curve::Bounce }
}

/// Quadratic easing, `x = t^2`.
pub fn quad_ease() -> (r: Easing)
    ensures
        r == (Easing { mode: EasingMode::In, curve: Curve::Pow(2) }),
{
    pow_ease(2)
}

/// Cubic easing, `x = t^3`.
pub fn cubic_ease() -> (r: Easing)
    ensures
        r == (Easing { mode: EasingMode::In, curve: Curve::Pow(3) }),
{
    pow_ease(3)
}

/// Quartic easing, `x = t^4`.
pub fn quart_ease() -> (r: Easing)
    ensures
        r == (Easing { mode: EasingMode::In, curve: Curve::Pow(4) }),
{
    pow_ease(4)
}

/// Quintic easing, `x = t^5`.
pub fn qunit_ease() -> (r: Easing)
    ensures
        r == (Easing { mode: EasingMode::In, curve: Curve::Pow(5) }),
{
    pow_ease(5)
}

} // verus!
