//! Values that can be blended between two endpoints.
use vstd::prelude::*;
use vstd::arithmetic::div_mod::{lemma_div_is_ordered, lemma_hoist_over_denominator, lemma_basic_div};
use vstd::arithmetic::mul::lemma_mul_inequality;
use crate::progress::{Progress, PROGRESS_HALF, PROGRESS_ONE};

verus! {

/// A value that can be interpolated between two endpoints by a normalized progress.
pub trait Animatable: Sized {
    /// The value a fraction `time` of the way from `from` to `to`.
    spec fn interpolate(from: Self, to: Self, time: Progress) -> Self;

    /// At the start the result is `from`, at the end `to`, and a constant
    /// range yields its single value at every progress.
    proof fn lemma_boundary_identity(from: Self, to: Self, time: Progress)
        requires
            time.wf(),
        ensures
            time.parts == 0 ==> Self::interpolate(from, to, time) == from,
            time.parts == PROGRESS_ONE ==> Self::interpolate(from, to, time) == to,
            Self::interpolate(from, from, time) == from,
    ;

    /// Generates the value at progress `time` between `self` and `to`.
    fn animate(&self, to: &Self, time: Progress) -> (r: Self)
        requires
            time.wf(),
        ensures
            r == Self::interpolate(*self, *to, time),
            time.parts == 0 ==> r == *self,
            time.parts == PROGRESS_ONE ==> r == *to,
            *self == *to ==> r == *self,
    ;
}

/// The distance covered after progress `t` on a range of length `d`,
/// rounded to the nearest whole step (halves round towards the end).
pub open spec fn step(d: int, t: int) -> int {
    (d * t + PROGRESS_HALF) / (PROGRESS_ONE as int)
}

/// Linear interpolation between two integers, rounded to the nearest integer,
/// with halves rounded towards `to`.
pub open spec fn lerp(from: int, to: int, t: int) -> int {
    if to >= from {
        from + step(to - from, t)
    } else {
        from - step(from - to, t)
    }
}

proof fn lemma_step(d: int, t: int)
    requires
        0 <= d,
        0 <= t <= PROGRESS_ONE,
    ensures
        0 <= step(d, t) <= d,
        t == 0 ==> step(d, t) == 0,
        t == PROGRESS_ONE ==> step(d, t) == d,
        d == 0 ==> step(d, t) == 0,
{
    let one = PROGRESS_ONE as int;
    let half = PROGRESS_HALF as int;
    lemma_mul_inequality(t, one, d);
    assert(0 <= d * t) by (nonlinear_arith)
        requires
            0 <= d,
            0 <= t,
    ;
    assert(t * d == d * t) by (nonlinear_arith);
    assert(one * d == d * one) by (nonlinear_arith);
    lemma_div_is_ordered(d * t + half, d * one + half, one);
    lemma_hoist_over_denominator(half, d, one as nat);
    lemma_basic_div(half, one);
    assert(half / one + d == (half + d * one) / one);
    lemma_div_is_ordered(0, d * t + half, one);
    if t == 0 {
        assert(d * t == 0);
    }
    if d == 0 {
        assert(d * t == 0);
    }
}

/// `lerp` stays within the range and meets its ends exactly.
pub proof fn lemma_lerp(from: int, to: int, t: int)
    requires
        0 <= t <= PROGRESS_ONE,
    ensures
        from <= to ==> from <= lerp(from, to, t) <= to,
        to <= from ==> to <= lerp(from, to, t) <= from,
        t == 0 ==> lerp(from, to, t) == from,
        t == PROGRESS_ONE ==> lerp(from, to, t) == to,
        lerp(from, from, t) == from,
{
    if to >= from {
        lemma_step(to - from, t);
    } else {
        lemma_step(from - to, t);
    }
    lemma_step(0, t);
}

fn lerp_wide(from: i128, to: i128, time: Progress) -> (r: i128)
    requires
        time.wf(),
        -(u64::MAX as int) <= from <= u64::MAX,
        -(u64::MAX as int) <= to <= u64::MAX,
    ensures
        r == lerp(from as int, to as int, time.parts as int),
{
    proof {
        lemma_lerp(from as int, to as int, time.parts as int);
    }
    if to >= from {
        let d: i128 = to - from;
        proof {
            assert(0 <= d * time.parts <= 2 * (u64::MAX as int) * PROGRESS_ONE) by (nonlinear_arith)
                requires
                    0 <= d <= 2 * (u64::MAX as int),
                    0 <= time.parts <= PROGRESS_ONE,
            ;
        }
        let s: i128 = (d * (time.parts as i128) + PROGRESS_HALF as i128) / (PROGRESS_ONE as i128);
        from + s
    } else {
        let d: i128 = from - to;
        proof {
            assert(0 <= d * time.parts <= 2 * (u64::MAX as int) * PROGRESS_ONE) by (nonlinear_arith)
                requires
                    0 <= d <= 2 * (u64::MAX as int),
                    0 <= time.parts <= PROGRESS_ONE,
            ;
        }
        let s: i128 = (d * (time.parts as i128) + PROGRESS_HALF as i128) / (PROGRESS_ONE as i128);
        from - s
    }
}

/// `step(d, t)` for a range as long as any `u128`: with `d = q * one + r`,
/// the step is `q * t + (r * t + half) / one`, so no product overflows.
fn step_wide(d: u128, time: Progress) -> (r: u128)
    requires
        time.wf(),
    ensures
        r == step(d as int, time.parts as int),
        r <= d,
{
    proof {
        lemma_step(d as int, time.parts as int);
    }
    let one: u128 = PROGRESS_ONE as u128;
    let t: u128 = time.parts as u128;
    let q: u128 = d / one;
    let rem: u128 = d % one;
    proof {
        let qi = q as int;
        let ri = rem as int;
        let ti = t as int;
        let o = one as int;
        vstd::arithmetic::div_mod::lemma_fundamental_div_mod(d as int, o);
        assert(qi * ti <= qi * o) by (nonlinear_arith)
            requires
                ti <= o,
                qi >= 0,
        ;
        assert(qi * o <= d) by (nonlinear_arith)
            requires
                d as int == o * qi + ri,
                ri >= 0,
        ;
        assert(0 <= ri * ti <= o * o) by (nonlinear_arith)
            requires
                0 <= ri < o,
                0 <= ti <= o,
        ;
        assert(d as int * ti + PROGRESS_HALF == (qi * ti) * o + (ri * ti + PROGRESS_HALF)) by (
        nonlinear_arith)
            requires
                d as int == o * qi + ri,
        ;
        vstd::arithmetic::div_mod::lemma_hoist_over_denominator(
            ri * ti + PROGRESS_HALF,
            qi * ti,
            o as nat,
        );
        assert(0 <= qi * ti) by (nonlinear_arith)
            requires
                qi >= 0,
                ti >= 0,
        ;
    }
    q * t + (rem * t + PROGRESS_HALF as u128) / one
}

impl Animatable for u128 {
    open spec fn interpolate(from: u128, to: u128, time: Progress) -> u128 {
        lerp(from as int, to as int, time.parts as int) as u128
    }

    proof fn lemma_boundary_identity(from: u128, to: u128, time: Progress) {
        lemma_lerp(from as int, to as int, time.parts as int);
        lemma_lerp(from as int, from as int, time.parts as int);
    }

    fn animate(&self, to: &u128, time: Progress) -> (r: u128) {
        proof {
            lemma_lerp(*self as int, *to as int, time.parts as int);
        }
        if *to >= *self {
            *self + step_wide(*to - *self, time)
        } else {
            *self - step_wide(*self - *to, time)
        }
    }
}

/// The distance from `a` up to `b`, which fits a `u128` however far apart
/// the two `i128` values are.
fn distance(a: i128, b: i128) -> (r: u128)
    requires
        a <= b,
    ensures
        r == b - a,
{
    if a >= 0 || b < 0 {
        (b - a) as u128
    } else {
        (b as u128) + ((-(a + 1)) as u128) + 1
    }
}

/// `a + s`, known to lie at most at `b`.
fn add_within(a: i128, s: u128, b: i128) -> (r: i128)
    requires
        a + s <= b,
    ensures
        r == a + s,
{
    if s <= i128::MAX as u128 {
        a + s as i128
    } else {
        let rest: u128 = s - i128::MAX as u128 - 1;
        a + rest as i128 + i128::MAX + 1
    }
}

/// `a - s`, known to lie at least at `b`.
fn sub_within(a: i128, s: u128, b: i128) -> (r: i128)
    requires
        a - s >= b,
    ensures
        r == a - s,
{
    if s <= i128::MAX as u128 {
        a - s as i128
    } else {
        let rest: u128 = s - i128::MAX as u128 - 1;
        a - rest as i128 - i128::MAX - 1
    }
}

impl Animatable for i128 {
    open spec fn interpolate(from: i128, to: i128, time: Progress) -> i128 {
        lerp(from as int, to as int, time.parts as int) as i128
    }

    proof fn lemma_boundary_identity(from: i128, to: i128, time: Progress) {
        lemma_lerp(from as int, to as int, time.parts as int);
        lemma_lerp(from as int, from as int, time.parts as int);
    }

    fn animate(&self, to: &i128, time: Progress) -> (r: i128) {
        proof {
            lemma_lerp(*self as int, *to as int, time.parts as int);
        }
        if *to >= *self {
            let s = step_wide(distance(*self, *to), time);
            add_within(*self, s, *to)
        } else {
            let s = step_wide(distance(*to, *self), time);
            sub_within(*self, s, *to)
        }
    }
}

impl Animatable for u8 {
    open spec fn interpolate(from: u8, to: u8, time: Progress) -> u8 {
        lerp(from as int, to as int, time.parts as int) as u8
    }

    proof fn lemma_boundary_identity(from: u8, to: u8, time: Progress) {
        lemma_lerp(from as int, to as int, time.parts as int);
        lemma_lerp(from as int, from as int, time.parts as int);
    }

    fn animate(&self, to: &u8, time: Progress) -> (r: u8) {
        proof {
            lemma_lerp(*self as int, *to as int, time.parts as int);
        }
        lerp_wide(*self as i128, *to as i128, time) as u8
    }
}

impl Animatable for u16 {
    open spec fn interpolate(from: u16, to: u16, time: Progress) -> u16 {
        lerp(from as int, to as int, time.parts as int) as u16
    }

    proof fn lemma_boundary_identity(from: u16, to: u16, time: Progress) {
        lemma_lerp(from as int, to as int, time.parts as int);
        lemma_lerp(from as int, from as int, time.parts as int);
    }

    fn animate(&self, to: &u16, time: Progress) -> (r: u16) {
        proof {
            lemma_lerp(*self as int, *to as int, time.parts as int);
        }
        lerp_wide(*self as i128, *to as i128, time) as u16
    }
}

impl Animatable for u32 {
    open spec fn interpolate(from: u32, to: u32, time: Progress) -> u32 {
        lerp(from as int, to as int, time.parts as int) as u32
    }

    proof fn lemma_boundary_identity(from: u32, to: u32, time: Progress) {
        lemma_lerp(from as int, to as int, time.parts as int);
        lemma_lerp(from as int, from as int, time.parts as int);
    }

    fn animate(&self, to: &u32, time: Progress) -> (r: u32) {
        proof {
            lemma_lerp(*self as int, *to as int, time.parts as int);
        }
        lerp_wide(*self as i128, *to as i128, time) as u32
    }
}

impl Animatable for u64 {
    open spec fn interpolate(from: u64, to: u64, time: Progress) -> u64 {
        lerp(from as int, to as int, time.parts as int) as u64
    }

    proof fn lemma_boundary_identity(from: u64, to: u64, time: Progress) {
        lemma_lerp(from as int, to as int, time.parts as int);
        lemma_lerp(from as int, from as int, time.parts as int);
    }

    fn animate(&self, to: &u64, time: Progress) -> (r: u64) {
        proof {
            lemma_lerp(*self as int, *to as int, time.parts as int);
        }
        lerp_wide(*self as i128, *to as i128, time) as u64
    }
}

impl Animatable for usize {
    open spec fn interpolate(from: usize, to: usize, time: Progress) -> usize {
        lerp(from as int, to as int, time.parts as int) as usize
    }

    proof fn lemma_boundary_identity(from: usize, to: usize, time: Progress) {
        lemma_lerp(from as int, to as int, time.parts as int);
        lemma_lerp(from as int, from as int, time.parts as int);
    }

    fn animate(&self, to: &usize, time: Progress) -> (r: usize) {
        proof {
            lemma_lerp(*self as int, *to as int, time.parts as int);
        }
        lerp_wide(*self as i128, *to as i128, time) as usize
    }
}

impl Animatable for i8 {
    open spec fn interpolate(from: i8, to: i8, time: Progress) -> i8 {
        lerp(from as int, to as int, time.parts as int) as i8
    }

    proof fn lemma_boundary_identity(from: i8, to: i8, time: Progress) {
        lemma_lerp(from as int, to as int, time.parts as int);
        lemma_lerp(from as int, from as int, time.parts as int);
    }

    fn animate(&self, to: &i8, time: Progress) -> (r: i8) {
        proof {
            lemma_lerp(*self as int, *to as int, time.parts as int);
        }
        lerp_wide(*self as i128, *to as i128, time) as i8
    }
}

impl Animatable for i16 {
    open spec fn interpolate(from: i16, to: i16, time: Progress) -> i16 {
        lerp(from as int, to as int, time.parts as int) as i16
    }

    proof fn lemma_boundary_identity(from: i16, to: i16, time: Progress) {
        lemma_lerp(from as int, to as int, time.parts as int);
        lemma_lerp(from as int, from as int, time.parts as int);
    }

    fn animate(&self, to: &i16, time: Progress) -> (r: i16) {
        proof {
            lemma_lerp(*self as int, *to as int, time.parts as int);
        }
        lerp_wide(*self as i128, *to as i128, time) as i16
    }
}

impl Animatable for i32 {
    open spec fn interpolate(from: i32, to: i32, time: Progress) -> i32 {
        lerp(from as int, to as int, time.parts as int) as i32
    }

    proof fn lemma_boundary_identity(from: i32, to: i32, time: Progress) {
        lemma_lerp(from as int, to as int, time.parts as int);
        lemma_lerp(from as int, from as int, time.parts as int);
    }

    fn animate(&self, to: &i32, time: Progress) -> (r: i32) {
        proof {
            lemma_lerp(*self as int, *to as int, time.parts as int);
        }
        lerp_wide(*self as i128, *to as i128, time) as i32
    }
}

impl Animatable for i64 {
    open spec fn interpolate(from: i64, to: i64, time: Progress) -> i64 {
        lerp(from as int, to as int, time.parts as int) as i64
    }

    proof fn lemma_boundary_identity(from: i64, to: i64, time: Progress) {
        lemma_lerp(from as int, to as int, time.parts as int);
        lemma_lerp(from as int, from as int, time.parts as int);
    }

    fn animate(&self, to: &i64, time: Progress) -> (r: i64) {
        proof {
            lemma_lerp(*self as int, *to as int, time.parts as int);
        }
        lerp_wide(*self as i128, *to as i128, time) as i64
    }
}

impl Animatable for isize {
    open spec fn interpolate(from: isize, to: isize, time: Progress) -> isize {
        lerp(from as int, to as int, time.parts as int) as isize
    }

    proof fn lemma_boundary_identity(from: isize, to: isize, time: Progress) {
        lemma_lerp(from as int, to as int, time.parts as int);
        lemma_lerp(from as int, from as int, time.parts as int);
    }

    fn animate(&self, to: &isize, time: Progress) -> (r: isize) {
        proof {
            lemma_lerp(*self as int, *to as int, time.parts as int);
        }
        lerp_wide(*self as i128, *to as i128, time) as isize
    }
}

impl Animatable for Progress {
    /// Normalized time interpolates like an integer count of billionths.
    open spec fn interpolate(from: Progress, to: Progress, time: Progress) -> Progress {
        Progress { parts: lerp(from.parts as int, to.parts as int, time.parts as int) as u64 }
    }

    proof fn lemma_boundary_identity(from: Progress, to: Progress, time: Progress) {
        lemma_lerp(from.parts as int, to.parts as int, time.parts as int);
        lemma_lerp(from.parts as int, from.parts as int, time.parts as int);
    }

    fn animate(&self, to: &Progress, time: Progress) -> (r: Progress) {
        proof {
            lemma_lerp(self.parts as int, to.parts as int, time.parts as int);
        }
        Progress { parts: lerp_wide(self.parts as i128, to.parts as i128, time) as u64 }
    }
}

impl Animatable for bool {
    /// A boolean switches to `to` only when the progress is complete.
    open spec fn interpolate(from: bool, to: bool, time: Progress) -> bool {
        if time.parts < PROGRESS_ONE {
            from
        } else {
            to
        }
    }

    proof fn lemma_boundary_identity(from: bool, to: bool, time: Progress) {
    }

    fn animate(&self, to: &bool, time: Progress) -> (r: bool) {
        if time.parts < PROGRESS_ONE {
            *self
        } else {
            *to
        }
    }
}

/// The position of a scalar value among all scalar values, counting up from
/// zero and skipping the surrogate gap.
pub open spec fn char_rank(code: u32) -> int {
    if code < 0xD800 {
        code as int
    } else {
        code - 0x800
    }
}

/// The scalar value at a position among all scalar values.
pub open spec fn rank_code(rank: int) -> u32 {
    if rank < 0xD800 {
        rank as u32
    } else {
        (rank + 0x800) as u32
    }
}

/// Relies on `char::from_u32`: `Some` exactly for the code of a scalar value.
pub assume_specification[ char::from_u32 ](i: u32) -> (r: Option<char>)
    ensures
        r == (if i < 0xD800 || (0xE000 <= i && i <= 0x10FFFF) {
            Some(i as char)
        } else {
            None
        }),
;

proof fn lemma_char_code(c: char)
    ensures
        0 <= c as u32 <= 0x10FFFF,
        (c as u32) < 0xD800 || (c as u32) >= 0xE000,
        (c as u32) as char == c,
        rank_code(char_rank(c as u32)) == c as u32,
        0 <= char_rank(c as u32) <= 0x10FFFF - 0x800,
{
}

proof fn lemma_rank_code_valid(rank: int)
    requires
        0 <= rank <= 0x10FFFF - 0x800,
    ensures
        rank_code(rank) < 0xD800 || (0xE000 <= rank_code(rank) && rank_code(rank) <= 0x10FFFF),
{
}

impl Animatable for char {
    /// A character steps through the scalar values between the two ends, one
    /// count per character, and lands on the nearest one.
    open spec fn interpolate(from: char, to: char, time: Progress) -> char {
        if from == to {
            from
        } else {
            rank_code(
                lerp(char_rank(from as u32), char_rank(to as u32), time.parts as int),
            ) as char
        }
    }

    proof fn lemma_boundary_identity(from: char, to: char, time: Progress) {
        lemma_char_code(from);
        lemma_char_code(to);
        lemma_lerp(char_rank(from as u32), char_rank(to as u32), time.parts as int);
    }

    fn animate(&self, to: &char, time: Progress) -> (r: char) {
        if *self == *to {
            return *self;
        }
        let f: u32 = *self as u32;
        let g: u32 = *to as u32;
        let rf: u32 = if f < 0xD800 { f } else { f - 0x800 };
        let rg: u32 = if g < 0xD800 { g } else { g - 0x800 };
        proof {
            lemma_char_code(*self);
            lemma_char_code(*to);
            lemma_lerp(rf as int, rg as int, time.parts as int);
            Self::lemma_boundary_identity(*self, *to, time);
        }
        let k = lerp_wide(rf as i128, rg as i128, time) as u32;
        let code: u32 = if k < 0xD800 { k } else { k + 0x800 };
        proof {
            lemma_rank_code_valid(k as int);
        }
        match char::from_u32(code) {
            Some(c) => c,
            None => *self,
        }
    }
}

impl<A: Animatable> Animatable for (A,) {
    open spec fn interpolate(from: (A,), to: (A,), time: Progress) -> (A,) {
        (A::interpolate(from.0, to.0, time),)
    }

    proof fn lemma_boundary_identity(from: (A,), to: (A,), time: Progress) {
        A::lemma_boundary_identity(from.0, to.0, time);
    }

    fn animate(&self, to: &(A,), time: Progress) -> (r: (A,)) {
        (self.0.animate(&to.0, time),)
    }
}

impl<A: Animatable, B: Animatable> Animatable for (A, B) {
    open spec fn interpolate(from: (A, B), to: (A, B), time: Progress) -> (A, B) {
        (A::interpolate(from.0, to.0, time), B::interpolate(from.1, to.1, time))
    }

    proof fn lemma_boundary_identity(from: (A, B), to: (A, B), time: Progress) {
        A::lemma_boundary_identity(from.0, to.0, time);
        B::lemma_boundary_identity(from.1, to.1, time);
    }

    fn animate(&self, to: &(A, B), time: Progress) -> (r: (A, B)) {
        proof {
            A::lemma_boundary_identity(self.0, to.0, time);
            B::lemma_boundary_identity(self.1, to.1, time);
        }
        (self.0.animate(&to.0, time), self.1.animate(&to.1, time))
    }
}

impl<A: Animatable, B: Animatable, C: Animatable> Animatable for (A, B, C) {
    open spec fn interpolate(from: (A, B, C), to: (A, B, C), time: Progress) -> (A, B, C) {
        (
            A::interpolate(from.0, to.0, time),
            B::interpolate(from.1, to.1, time),
            C::interpolate(from.2, to.2, time),
        )
    }

    proof fn lemma_boundary_identity(from: (A, B, C), to: (A, B, C), time: Progress) {
        A::lemma_boundary_identity(from.0, to.0, time);
        B::lemma_boundary_identity(from.1, to.1, time);
        C::lemma_boundary_identity(from.2, to.2, time);
    }

    fn animate(&self, to: &(A, B, C), time: Progress) -> (r: (A, B, C)) {
        proof {
            A::lemma_boundary_identity(self.0, to.0, time);
            B::lemma_boundary_identity(self.1, to.1, time);
            C::lemma_boundary_identity(self.2, to.2, time);
        }
        (self.0.animate(&to.0, time), self.1.animate(&to.1, time), self.2.animate(&to.2, time))
    }
}

impl<A: Animatable, B: Animatable, C: Animatable, D: Animatable> Animatable for (A, B, C, D) {
    open spec fn interpolate(from: (A, B, C, D), to: (A, B, C, D), time: Progress) -> (A, B, C, D) {
        (
            A::interpolate(from.0, to.0, time),
            B::interpolate(from.1, to.1, time),
            C::interpolate(from.2, to.2, time),
            D::interpolate(from.3, to.3, time),
        )
    }

    proof fn lemma_boundary_identity(from: (A, B, C, D), to: (A, B, C, D), time: Progress) {
        A::lemma_boundary_identity(from.0, to.0, time);
        B::lemma_boundary_identity(from.1, to.1, time);
        C::lemma_boundary_identity(from.2, to.2, time);
        D::lemma_boundary_identity(from.3, to.3, time);
    }

    fn animate(&self, to: &(A, B, C, D), time: Progress) -> (r: (A, B, C, D)) {
        proof {
            A::lemma_boundary_identity(self.0, to.0, time);
            B::lemma_boundary_identity(self.1, to.1, time);
            C::lemma_boundary_identity(self.2, to.2, time);
            D::lemma_boundary_identity(self.3, to.3, time);
        }
        (
            self.0.animate(&to.0, time),
            self.1.animate(&to.1, time),
            self.2.animate(&to.2, time),
            self.3.animate(&to.3, time),
        )
    }
}

impl<A: Animatable, B: Animatable, C: Animatable, D: Animatable, E: Animatable> Animatable for (A, B, C, D, E) {
    open spec fn interpolate(from: (A, B, C, D, E), to: (A, B, C, D, E), time: Progress) -> (A, B, C, D, E) {
        (
            A::interpolate(from.0, to.0, time),
            B::interpolate(from.1, to.1, time),
            C::interpolate(from.2, to.2, time),
            D::interpolate(from.3, to.3, time),
            E::interpolate(from.4, to.4, time),
        )
    }

    proof fn lemma_boundary_identity(from: (A, B, C, D, E), to: (A, B, C, D, E), time: Progress) {
        A::lemma_boundary_identity(from.0, to.0, time);
        B::lemma_boundary_identity(from.1, to.1, time);
        C::lemma_boundary_identity(from.2, to.2, time);
        D::lemma_boundary_identity(from.3, to.3, time);
        E::lemma_boundary_identity(from.4, to.4, time);
    }

    fn animate(&self, to: &(A, B, C, D, E), time: Progress) -> (r: (A, B, C, D, E)) {
        proof {
            A::lemma_boundary_identity(self.0, to.0, time);
            B::lemma_boundary_identity(self.1, to.1, time);
            C::lemma_boundary_identity(self.2, to.2, time);
            D::lemma_boundary_identity(self.3, to.3, time);
            E::lemma_boundary_identity(self.4, to.4, time);
        }
        (
            self.0.animate(&to.0, time),
            self.1.animate(&to.1, time),
            self.2.animate(&to.2, time),
            self.3.animate(&to.3, time),
            self.4.animate(&to.4, time),
        )
    }
}

impl<A: Animatable, B: Animatable, C: Animatable, D: Animatable, E: Animatable, F: Animatable> Animatable for (A, B, C, D, E, F) {
    open spec fn interpolate(from: (A, B, C, D, E, F), to: (A, B, C, D, E, F), time: Progress) -> (A, B, C, D, E, F) {
        (
            A::interpolate(from.0, to.0, time),
            B::interpolate(from.1, to.1, time),
            C::interpolate(from.2, to.2, time),
            D::interpolate(from.3, to.3, time),
            E::interpolate(from.4, to.4, time),
            F::interpolate(from.5, to.5, time),
        )
    }

    proof fn lemma_boundary_identity(from: (A, B, C, D, E, F), to: (A, B, C, D, E, F), time: Progress) {
        A::lemma_boundary_identity(from.0, to.0, time);
        B::lemma_boundary_identity(from.1, to.1, time);
        C::lemma_boundary_identity(from.2, to.2, time);
        D::lemma_boundary_identity(from.3, to.3, time);
        E::lemma_boundary_identity(from.4, to.4, time);
        F::lemma_boundary_identity(from.5, to.5, time);
    }

    fn animate(&self, to: &(A, B, C, D, E, F), time: Progress) -> (r: (A, B, C, D, E, F)) {
        proof {
            A::lemma_boundary_identity(self.0, to.0, time);
            B::lemma_boundary_identity(self.1, to.1, time);
            C::lemma_boundary_identity(self.2, to.2, time);
            D::lemma_boundary_identity(self.3, to.3, time);
            E::lemma_boundary_identity(self.4, to.4, time);
            F::lemma_boundary_identity(self.5, to.5, time);
        }
        (
            self.0.animate(&to.0, time),
            self.1.animate(&to.1, time),
            self.2.animate(&to.2, time),
            self.3.animate(&to.3, time),
            self.4.animate(&to.4, time),
            self.5.animate(&to.5, time),
        )
    }
}

impl<A: Animatable, B: Animatable, C: Animatable, D: Animatable, E: Animatable, F: Animatable, G: Animatable> Animatable for (A, B, C, D, E, F, G) {
    open spec fn interpolate(from: (A, B, C, D, E, F, G), to: (A, B, C, D, E, F, G), time: Progress) -> (A, B, C, D, E, F, G) {
        (
            A::interpolate(from.0, to.0, time),
            B::interpolate(from.1, to.1, time),
            C::interpolate(from.2, to.2, time),
            D::interpolate(from.3, to.3, time),
            E::interpolate(from.4, to.4, time),
            F::interpolate(from.5, to.5, time),
            G::interpolate(from.6, to.6, time),
        )
    }

    proof fn lemma_boundary_identity(from: (A, B, C, D, E, F, G), to: (A, B, C, D, E, F, G), time: Progress) {
        A::lemma_boundary_identity(from.0, to.0, time);
        B::lemma_boundary_identity(from.1, to.1, time);
        C::lemma_boundary_identity(from.2, to.2, time);
        D::lemma_boundary_identity(from.3, to.3, time);
        E::lemma_boundary_identity(from.4, to.4, time);
        F::lemma_boundary_identity(from.5, to.5, time);
        G::lemma_boundary_identity(from.6, to.6, time);
    }

    fn animate(&self, to: &(A, B, C, D, E, F, G), time: Progress) -> (r: (A, B, C, D, E, F, G)) {
        proof {
            A::lemma_boundary_identity(self.0, to.0, time);
            B::lemma_boundary_identity(self.1, to.1, time);
            C::lemma_boundary_identity(self.2, to.2, time);
            D::lemma_boundary_identity(self.3, to.3, time);
            E::lemma_boundary_identity(self.4, to.4, time);
            F::lemma_boundary_identity(self.5, to.5, time);
            G::lemma_boundary_identity(self.6, to.6, time);
        }
        (
            self.0.animate(&to.0, time),
            self.1.animate(&to.1, time),
            self.2.animate(&to.2, time),
            self.3.animate(&to.3, time),
            self.4.animate(&to.4, time),
            self.5.animate(&to.5, time),
            self.6.animate(&to.6, time),
        )
    }
}

impl<A: Animatable, B: Animatable, C: Animatable, D: Animatable, E: Animatable, F: Animatable, G: Animatable, H: Animatable> Animatable for (A, B, C, D, E, F, G, H) {
    open spec fn interpolate(from: (A, B, C, D, E, F, G, H), to: (A, B, C, D, E, F, G, H), time: Progress) -> (A, B, C, D, E, F, G, H) {
        (
            A::interpolate(from.0, to.0, time),
            B::interpolate(from.1, to.1, time),
            C::interpolate(from.2, to.2, time),
            D::interpolate(from.3, to.3, time),
            E::interpolate(from.4, to.4, time),
            F::interpolate(from.5, to.5, time),
            G::interpolate(from.6, to.6, time),
            H::interpolate(from.7, to.7, time),
        )
    }

    proof fn lemma_boundary_identity(from: (A, B, C, D, E, F, G, H), to: (A, B, C, D, E, F, G, H), time: Progress) {
        A::lemma_boundary_identity(from.0, to.0, time);
        B::lemma_boundary_identity(from.1, to.1, time);
        C::lemma_boundary_identity(from.2, to.2, time);
        D::lemma_boundary_identity(from.3, to.3, time);
        E::lemma_boundary_identity(from.4, to.4, time);
        F::lemma_boundary_identity(from.5, to.5, time);
        G::lemma_boundary_identity(from.6, to.6, time);
        H::lemma_boundary_identity(from.7, to.7, time);
    }

    fn animate(&self, to: &(A, B, C, D, E, F, G, H), time: Progress) -> (r: (A, B, C, D, E, F, G, H)) {
        proof {
            A::lemma_boundary_identity(self.0, to.0, time);
            B::lemma_boundary_identity(self.1, to.1, time);
            C::lemma_boundary_identity(self.2, to.2, time);
            D::lemma_boundary_identity(self.3, to.3, time);
            E::lemma_boundary_identity(self.4, to.4, time);
            F::lemma_boundary_identity(self.5, to.5, time);
            G::lemma_boundary_identity(self.6, to.6, time);
            H::lemma_boundary_identity(self.7, to.7, time);
        }
        (
            self.0.animate(&to.0, time),
            self.1.animate(&to.1, time),
            self.2.animate(&to.2, time),
            self.3.animate(&to.3, time),
            self.4.animate(&to.4, time),
            self.5.animate(&to.5, time),
            self.6.animate(&to.6, time),
            self.7.animate(&to.7, time),
        )
    }
}

impl<A: Animatable, B: Animatable, C: Animatable, D: Animatable, E: Animatable, F: Animatable, G: Animatable, H: Animatable, I: Animatable> Animatable for (A, B, C, D, E, F, G, H, I) {
    open spec fn interpolate(from: (A, B, C, D, E, F, G, H, I), to: (A, B, C, D, E, F, G, H, I), time: Progress) -> (A, B, C, D, E, F, G, H, I) {
        (
            A::interpolate(from.0, to.0, time),
            B::interpolate(from.1, to.1, time),
            C::interpolate(from.2, to.2, time),
            D::interpolate(from.3, to.3, time),
            E::interpolate(from.4, to.4, time),
            F::interpolate(from.5, to.5, time),
            G::interpolate(from.6, to.6, time),
            H::interpolate(from.7, to.7, time),
            I::interpolate(from.8, to.8, time),
        )
    }

    proof fn lemma_boundary_identity(from: (A, B, C, D, E, F, G, H, I), to: (A, B, C, D, E, F, G, H, I), time: Progress) {
        A::lemma_boundary_identity(from.0, to.0, time);
        B::lemma_boundary_identity(from.1, to.1, time);
        C::lemma_boundary_identity(from.2, to.2, time);
        D::lemma_boundary_identity(from.3, to.3, time);
        E::lemma_boundary_identity(from.4, to.4, time);
        F::lemma_boundary_identity(from.5, to.5, time);
        G::lemma_boundary_identity(from.6, to.6, time);
        H::lemma_boundary_identity(from.7, to.7, time);
        I::lemma_boundary_identity(from.8, to.8, time);
    }

    fn animate(&self, to: &(A, B, C, D, E, F, G, H, I), time: Progress) -> (r: (A, B, C, D, E, F, G, H, I)) {
        proof {
            A::lemma_boundary_identity(self.0, to.0, time);
            B::lemma_boundary_identity(self.1, to.1, time);
            C::lemma_boundary_identity(self.2, to.2, time);
            D::lemma_boundary_identity(self.3, to.3, time);
            E::lemma_boundary_identity(self.4, to.4, time);
            F::lemma_boundary_identity(self.5, to.5, time);
            G::lemma_boundary_identity(self.6, to.6, time);
            H::lemma_boundary_identity(self.7, to.7, time);
            I::lemma_boundary_identity(self.8, to.8, time);
        }
        (
            self.0.animate(&to.0, time),
            self.1.animate(&to.1, time),
            self.2.animate(&to.2, time),
            self.3.animate(&to.3, time),
            self.4.animate(&to.4, time),
            self.5.animate(&to.5, time),
            self.6.animate(&to.6, time),
            self.7.animate(&to.7, time),
            self.8.animate(&to.8, time),
        )
    }
}

impl<A: Animatable, B: Animatable, C: Animatable, D: Animatable, E: Animatable, F: Animatable, G: Animatable, H: Animatable, I: Animatable, J: Animatable> Animatable for (A, B, C, D, E, F, G, H, I, J) {
    open spec fn interpolate(from: (A, B, C, D, E, F, G, H, I, J), to: (A, B, C, D, E, F, G, H, I, J), time: Progress) -> (A, B, C, D, E, F, G, H, I, J) {
        (
            A::interpolate(from.0, to.0, time),
            B::interpolate(from.1, to.1, time),
            C::interpolate(from.2, to.2, time),
            D::interpolate(from.3, to.3, time),
            E::interpolate(from.4, to.4, time),
            F::interpolate(from.5, to.5, time),
            G::interpolate(from.6, to.6, time),
            H::interpolate(from.7, to.7, time),
            I::interpolate(from.8, to.8, time),
            J::interpolate(from.9, to.9, time),
        )
    }

    proof fn lemma_boundary_identity(from: (A, B, C, D, E, F, G, H, I, J), to: (A, B, C, D, E, F, G, H, I, J), time: Progress) {
        A::lemma_boundary_identity(from.0, to.0, time);
        B::lemma_boundary_identity(from.1, to.1, time);
        C::lemma_boundary_identity(from.2, to.2, time);
        D::lemma_boundary_identity(from.3, to.3, time);
        E::lemma_boundary_identity(from.4, to.4, time);
        F::lemma_boundary_identity(from.5, to.5, time);
        G::lemma_boundary_identity(from.6, to.6, time);
        H::lemma_boundary_identity(from.7, to.7, time);
        I::lemma_boundary_identity(from.8, to.8, time);
        J::lemma_boundary_identity(from.9, to.9, time);
    }

    fn animate(&self, to: &(A, B, C, D, E, F, G, H, I, J), time: Progress) -> (r: (A, B, C, D, E, F, G, H, I, J)) {
        proof {
            A::lemma_boundary_identity(self.0, to.0, time);
            B::lemma_boundary_identity(self.1, to.1, time);
            C::lemma_boundary_identity(self.2, to.2, time);
            D::lemma_boundary_identity(self.3, to.3, time);
            E::lemma_boundary_identity(self.4, to.4, time);
            F::lemma_boundary_identity(self.5, to.5, time);
            G::lemma_boundary_identity(self.6, to.6, time);
            H::lemma_boundary_identity(self.7, to.7, time);
            I::lemma_boundary_identity(self.8, to.8, time);
            J::lemma_boundary_identity(self.9, to.9, time);
        }
        (
            self.0.animate(&to.0, time),
            self.1.animate(&to.1, time),
            self.2.animate(&to.2, time),
            self.3.animate(&to.3, time),
            self.4.animate(&to.4, time),
            self.5.animate(&to.5, time),
            self.6.animate(&to.6, time),
            self.7.animate(&to.7, time),
            self.8.animate(&to.8, time),
            self.9.animate(&to.9, time),
        )
    }
}

impl<A: Animatable, B: Animatable, C: Animatable, D: Animatable, E: Animatable, F: Animatable, G: Animatable, H: Animatable, I: Animatable, J: Animatable, K: Animatable> Animatable for (A, B, C, D, E, F, G, H, I, J, K) {
    open spec fn interpolate(from: (A, B, C, D, E, F, G, H, I, J, K), to: (A, B, C, D, E, F, G, H, I, J, K), time: Progress) -> (A, B, C, D, E, F, G, H, I, J, K) {
        (
            A::interpolate(from.0, to.0, time),
            B::interpolate(from.1, to.1, time),
            C::interpolate(from.2, to.2, time),
            D::interpolate(from.3, to.3, time),
            E::interpolate(from.4, to.4, time),
            F::interpolate(from.5, to.5, time),
            G::interpolate(from.6, to.6, time),
            H::interpolate(from.7, to.7, time),
            I::interpolate(from.8, to.8, time),
            J::interpolate(from.9, to.9, time),
            K::interpolate(from.10, to.10, time),
        )
    }

    proof fn lemma_boundary_identity(from: (A, B, C, D, E, F, G, H, I, J, K), to: (A, B, C, D, E, F, G, H, I, J, K), time: Progress) {
        A::lemma_boundary_identity(from.0, to.0, time);
        B::lemma_boundary_identity(from.1, to.1, time);
        C::lemma_boundary_identity(from.2, to.2, time);
        D::lemma_boundary_identity(from.3, to.3, time);
        E::lemma_boundary_identity(from.4, to.4, time);
        F::lemma_boundary_identity(from.5, to.5, time);
        G::lemma_boundary_identity(from.6, to.6, time);
        H::lemma_boundary_identity(from.7, to.7, time);
        I::lemma_boundary_identity(from.8, to.8, time);
        J::lemma_boundary_identity(from.9, to.9, time);
        K::lemma_boundary_identity(from.10, to.10, time);
    }

    fn animate(&self, to: &(A, B, C, D, E, F, G, H, I, J, K), time: Progress) -> (r: (A, B, C, D, E, F, G, H, I, J, K)) {
        proof {
            A::lemma_boundary_identity(self.0, to.0, time);
            B::lemma_boundary_identity(self.1, to.1, time);
            C::lemma_boundary_identity(self.2, to.2, time);
            D::lemma_boundary_identity(self.3, to.3, time);
            E::lemma_boundary_identity(self.4, to.4, time);
            F::lemma_boundary_identity(self.5, to.5, time);
            G::lemma_boundary_identity(self.6, to.6, time);
            H::lemma_boundary_identity(self.7, to.7, time);
            I::lemma_boundary_identity(self.8, to.8, time);
            J::lemma_boundary_identity(self.9, to.9, time);
            K::lemma_boundary_identity(self.10, to.10, time);
        }
        (
            self.0.animate(&to.0, time),
            self.1.animate(&to.1, time),
            self.2.animate(&to.2, time),
            self.3.animate(&to.3, time),
            self.4.animate(&to.4, time),
            self.5.animate(&to.5, time),
            self.6.animate(&to.6, time),
            self.7.animate(&to.7, time),
            self.8.animate(&to.8, time),
            self.9.animate(&to.9, time),
            self.10.animate(&to.10, time),
        )
    }
}

impl<A: Animatable, B: Animatable, C: Animatable, D: Animatable, E: Animatable, F: Animatable, G: Animatable, H: Animatable, I: Animatable, J: Animatable, K: Animatable, L: Animatable> Animatable for (A, B, C, D, E, F, G, H, I, J, K, L) {
    open spec fn interpolate(from: (A, B, C, D, E, F, G, H, I, J, K, L), to: (A, B, C, D, E, F, G, H, I, J, K, L), time: Progress) -> (A, B, C, D, E, F, G, H, I, J, K, L) {
        (
            A::interpolate(from.0, to.0, time),
            B::interpolate(from.1, to.1, time),
            C::interpolate(from.2, to.2, time),
            D::interpolate(from.3, to.3, time),
            E::interpolate(from.4, to.4, time),
            F::interpolate(from.5, to.5, time),
            G::interpolate(from.6, to.6, time),
            H::interpolate(from.7, to.7, time),
            I::interpolate(from.8, to.8, time),
            J::interpolate(from.9, to.9, time),
            K::interpolate(from.10, to.10, time),
            L::interpolate(from.11, to.11, time),
        )
    }

    proof fn lemma_boundary_identity(from: (A, B, C, D, E, F, G, H, I, J, K, L), to: (A, B, C, D, E, F, G, H, I, J, K, L), time: Progress) {
        A::lemma_boundary_identity(from.0, to.0, time);
        B::lemma_boundary_identity(from.1, to.1, time);
        C::lemma_boundary_identity(from.2, to.2, time);
        D::lemma_boundary_identity(from.3, to.3, time);
        E::lemma_boundary_identity(from.4, to.4, time);
        F::lemma_boundary_identity(from.5, to.5, time);
        G::lemma_boundary_identity(from.6, to.6, time);
        H::lemma_boundary_identity(from.7, to.7, time);
        I::lemma_boundary_identity(from.8, to.8, time);
        J::lemma_boundary_identity(from.9, to.9, time);
        K::lemma_boundary_identity(from.10, to.10, time);
        L::lemma_boundary_identity(from.11, to.11, time);
    }

    fn animate(&self, to: &(A, B, C, D, E, F, G, H, I, J, K, L), time: Progress) -> (r: (A, B, C, D, E, F, G, H, I, J, K, L)) {
        proof {
            A::lemma_boundary_identity(self.0, to.0, time);
            B::lemma_boundary_identity(self.1, to.1, time);
            C::lemma_boundary_identity(self.2, to.2, time);
            D::lemma_boundary_identity(self.3, to.3, time);
            E::lemma_boundary_identity(self.4, to.4, time);
            F::lemma_boundary_identity(self.5, to.5, time);
            G::lemma_boundary_identity(self.6, to.6, time);
            H::lemma_boundary_identity(self.7, to.7, time);
            I::lemma_boundary_identity(self.8, to.8, time);
            J::lemma_boundary_identity(self.9, to.9, time);
            K::lemma_boundary_identity(self.10, to.10, time);
            L::lemma_boundary_identity(self.11, to.11, time);
        }
        (
            self.0.animate(&to.0, time),
            self.1.animate(&to.1, time),
            self.2.animate(&to.2, time),
            self.3.animate(&to.3, time),
            self.4.animate(&to.4, time),
            self.5.animate(&to.5, time),
            self.6.animate(&to.6, time),
            self.7.animate(&to.7, time),
            self.8.animate(&to.8, time),
            self.9.animate(&to.9, time),
            self.10.animate(&to.10, time),
            self.11.animate(&to.11, time),
        )
    }
}

impl<A: Animatable, B: Animatable, C: Animatable, D: Animatable, E: Animatable, F: Animatable, G: Animatable, H: Animatable, I: Animatable, J: Animatable, K: Animatable, L: Animatable, M: Animatable> Animatable for (A, B, C, D, E, F, G, H, I, J, K, L, M) {
    open spec fn interpolate(from: (A, B, C, D, E, F, G, H, I, J, K, L, M), to: (A, B, C, D, E, F, G, H, I, J, K, L, M), time: Progress) -> (A, B, C, D, E, F, G, H, I, J, K, L, M) {
        (
            A::interpolate(from.0, to.0, time),
            B::interpolate(from.1, to.1, time),
            C::interpolate(from.2, to.2, time),
            D::interpolate(from.3, to.3, time),
            E::interpolate(from.4, to.4, time),
            F::interpolate(from.5, to.5, time),
            G::interpolate(from.6, to.6, time),
            H::interpolate(from.7, to.7, time),
            I::interpolate(from.8, to.8, time),
            J::interpolate(from.9, to.9, time),
            K::interpolate(from.10, to.10, time),
            L::interpolate(from.11, to.11, time),
            M::interpolate(from.12, to.12, time),
        )
    }

    proof fn lemma_boundary_identity(from: (A, B, C, D, E, F, G, H, I, J, K, L, M), to: (A, B, C, D, E, F, G, H, I, J, K, L, M), time: Progress) {
        A::lemma_boundary_identity(from.0, to.0, time);
        B::lemma_boundary_identity(from.1, to.1, time);
        C::lemma_boundary_identity(from.2, to.2, time);
        D::lemma_boundary_identity(from.3, to.3, time);
        E::lemma_boundary_identity(from.4, to.4, time);
        F::lemma_boundary_identity(from.5, to.5, time);
        G::lemma_boundary_identity(from.6, to.6, time);
        H::lemma_boundary_identity(from.7, to.7, time);
        I::lemma_boundary_identity(from.8, to.8, time);
        J::lemma_boundary_identity(from.9, to.9, time);
        K::lemma_boundary_identity(from.10, to.10, time);
        L::lemma_boundary_identity(from.11, to.11, time);
        M::lemma_boundary_identity(from.12, to.12, time);
    }

    fn animate(&self, to: &(A, B, C, D, E, F, G, H, I, J, K, L, M), time: Progress) -> (r: (A, B, C, D, E, F, G, H, I, J, K, L, M)) {
        proof {
            A::lemma_boundary_identity(self.0, to.0, time);
            B::lemma_boundary_identity(self.1, to.1, time);
            C::lemma_boundary_identity(self.2, to.2, time);
            D::lemma_boundary_identity(self.3, to.3, time);
            E::lemma_boundary_identity(self.4, to.4, time);
            F::lemma_boundary_identity(self.5, to.5, time);
            G::lemma_boundary_identity(self.6, to.6, time);
            H::lemma_boundary_identity(self.7, to.7, time);
            I::lemma_boundary_identity(self.8, to.8, time);
            J::lemma_boundary_identity(self.9, to.9, time);
            K::lemma_boundary_identity(self.10, to.10, time);
            L::lemma_boundary_identity(self.11, to.11, time);
            M::lemma_boundary_identity(self.12, to.12, time);
        }
        (
            self.0.animate(&to.0, time),
            self.1.animate(&to.1, time),
            self.2.animate(&to.2, time),
            self.3.animate(&to.3, time),
            self.4.animate(&to.4, time),
            self.5.animate(&to.5, time),
            self.6.animate(&to.6, time),
            self.7.animate(&to.7, time),
            self.8.animate(&to.8, time),
            self.9.animate(&to.9, time),
            self.10.animate(&to.10, time),
            self.11.animate(&to.11, time),
            self.12.animate(&to.12, time),
        )
    }
}

impl<A: Animatable, B: Animatable, C: Animatable, D: Animatable, E: Animatable, F: Animatable, G: Animatable, H: Animatable, I: Animatable, J: Animatable, K: Animatable, L: Animatable, M: Animatable, N: Animatable> Animatable for (A, B, C, D, E, F, G, H, I, J, K, L, M, N) {
    open spec fn interpolate(from: (A, B, C, D, E, F, G, H, I, J, K, L, M, N), to: (A, B, C, D, E, F, G, H, I, J, K, L, M, N), time: Progress) -> (A, B, C, D, E, F, G, H, I, J, K, L, M, N) {
        (
            A::interpolate(from.0, to.0, time),
            B::interpolate(from.1, to.1, time),
            C::interpolate(from.2, to.2, time),
            D::interpolate(from.3, to.3, time),
            E::interpolate(from.4, to.4, time),
            F::interpolate(from.5, to.5, time),
            G::interpolate(from.6, to.6, time),
            H::interpolate(from.7, to.7, time),
            I::interpolate(from.8, to.8, time),
            J::interpolate(from.9, to.9, time),
            K::interpolate(from.10, to.10, time),
            L::interpolate(from.11, to.11, time),
            M::interpolate(from.12, to.12, time),
            N::interpolate(from.13, to.13, time),
        )
    }

    proof fn lemma_boundary_identity(from: (A, B, C, D, E, F, G, H, I, J, K, L, M, N), to: (A, B, C, D, E, F, G, H, I, J, K, L, M, N), time: Progress) {
        A::lemma_boundary_identity(from.0, to.0, time);
        B::lemma_boundary_identity(from.1, to.1, time);
        C::lemma_boundary_identity(from.2, to.2, time);
        D::lemma_boundary_identity(from.3, to.3, time);
        E::lemma_boundary_identity(from.4, to.4, time);
        F::lemma_boundary_identity(from.5, to.5, time);
        G::lemma_boundary_identity(from.6, to.6, time);
        H::lemma_boundary_identity(from.7, to.7, time);
        I::lemma_boundary_identity(from.8, to.8, time);
        J::lemma_boundary_identity(from.9, to.9, time);
        K::lemma_boundary_identity(from.10, to.10, time);
        L::lemma_boundary_identity(from.11, to.11, time);
        M::lemma_boundary_identity(from.12, to.12, time);
        N::lemma_boundary_identity(from.13, to.13, time);
    }

    fn animate(&self, to: &(A, B, C, D, E, F, G, H, I, J, K, L, M, N), time: Progress) -> (r: (A, B, C, D, E, F, G, H, I, J, K, L, M, N)) {
        proof {
            A::lemma_boundary_identity(self.0, to.0, time);
            B::lemma_boundary_identity(self.1, to.1, time);
            C::lemma_boundary_identity(self.2, to.2, time);
            D::lemma_boundary_identity(self.3, to.3, time);
            E::lemma_boundary_identity(self.4, to.4, time);
            F::lemma_boundary_identity(self.5, to.5, time);
            G::lemma_boundary_identity(self.6, to.6, time);
            H::lemma_boundary_identity(self.7, to.7, time);
            I::lemma_boundary_identity(self.8, to.8, time);
            J::lemma_boundary_identity(self.9, to.9, time);
            K::lemma_boundary_identity(self.10, to.10, time);
            L::lemma_boundary_identity(self.11, to.11, time);
            M::lemma_boundary_identity(self.12, to.12, time);
            N::lemma_boundary_identity(self.13, to.13, time);
        }
        (
            self.0.animate(&to.0, time),
            self.1.animate(&to.1, time),
            self.2.animate(&to.2, time),
            self.3.animate(&to.3, time),
            self.4.animate(&to.4, time),
            self.5.animate(&to.5, time),
            self.6.animate(&to.6, time),
            self.7.animate(&to.7, time),
            self.8.animate(&to.8, time),
            self.9.animate(&to.9, time),
            self.10.animate(&to.10, time),
            self.11.animate(&to.11, time),
            self.12.animate(&to.12, time),
            self.13.animate(&to.13, time),
        )
    }
}

impl<A: Animatable, B: Animatable, C: Animatable, D: Animatable, E: Animatable, F: Animatable, G: Animatable, H: Animatable, I: Animatable, J: Animatable, K: Animatable, L: Animatable, M: Animatable, N: Animatable, O: Animatable> Animatable for (A, B, C, D, E, F, G, H, I, J, K, L, M, N, O) {
    open spec fn interpolate(from: (A, B, C, D, E, F, G, H, I, J, K, L, M, N, O), to: (A, B, C, D, E, F, G, H, I, J, K, L, M, N, O), time: Progress) -> (A, B, C, D, E, F, G, H, I, J, K, L, M, N, O) {
        (
            A::interpolate(from.0, to.0, time),
            B::interpolate(from.1, to.1, time),
            C::interpolate(from.2, to.2, time),
            D::interpolate(from.3, to.3, time),
            E::interpolate(from.4, to.4, time),
            F::interpolate(from.5, to.5, time),
            G::interpolate(from.6, to.6, time),
            H::interpolate(from.7, to.7, time),
            I::interpolate(from.8, to.8, time),
            J::interpolate(from.9, to.9, time),
            K::interpolate(from.10, to.10, time),
            L::interpolate(from.11, to.11, time),
            M::interpolate(from.12, to.12, time),
            N::interpolate(from.13, to.13, time),
            O::interpolate(from.14, to.14, time),
        )
    }

    proof fn lemma_boundary_identity(from: (A, B, C, D, E, F, G, H, I, J, K, L, M, N, O), to: (A, B, C, D, E, F, G, H, I, J, K, L, M, N, O), time: Progress) {
        A::lemma_boundary_identity(from.0, to.0, time);
        B::lemma_boundary_identity(from.1, to.1, time);
        C::lemma_boundary_identity(from.2, to.2, time);
        D::lemma_boundary_identity(from.3, to.3, time);
        E::lemma_boundary_identity(from.4, to.4, time);
        F::lemma_boundary_identity(from.5, to.5, time);
        G::lemma_boundary_identity(from.6, to.6, time);
        H::lemma_boundary_identity(from.7, to.7, time);
        I::lemma_boundary_identity(from.8, to.8, time);
        J::lemma_boundary_identity(from.9, to.9, time);
        K::lemma_boundary_identity(from.10, to.10, time);
        L::lemma_boundary_identity(from.11, to.11, time);
        M::lemma_boundary_identity(from.12, to.12, time);
        N::lemma_boundary_identity(from.13, to.13, time);
        O::lemma_boundary_identity(from.14, to.14, time);
    }

    fn animate(&self, to: &(A, B, C, D, E, F, G, H, I, J, K, L, M, N, O), time: Progress) -> (r: (A, B, C, D, E, F, G, H, I, J, K, L, M, N, O)) {
        proof {
            A::lemma_boundary_identity(self.0, to.0, time);
            B::lemma_boundary_identity(self.1, to.1, time);
            C::lemma_boundary_identity(self.2, to.2, time);
            D::lemma_boundary_identity(self.3, to.3, time);
            E::lemma_boundary_identity(self.4, to.4, time);
            F::lemma_boundary_identity(self.5, to.5, time);
            G::lemma_boundary_identity(self.6, to.6, time);
            H::lemma_boundary_identity(self.7, to.7, time);
            I::lemma_boundary_identity(self.8, to.8, time);
            J::lemma_boundary_identity(self.9, to.9, time);
            K::lemma_boundary_identity(self.10, to.10, time);
            L::lemma_boundary_identity(self.11, to.11, time);
            M::lemma_boundary_identity(self.12, to.12, time);
            N::lemma_boundary_identity(self.13, to.13, time);
            O::lemma_boundary_identity(self.14, to.14, time);
        }
        (
            self.0.animate(&to.0, time),
            self.1.animate(&to.1, time),
            self.2.animate(&to.2, time),
            self.3.animate(&to.3, time),
            self.4.animate(&to.4, time),
            self.5.animate(&to.5, time),
            self.6.animate(&to.6, time),
            self.7.animate(&to.7, time),
            self.8.animate(&to.8, time),
            self.9.animate(&to.9, time),
            self.10.animate(&to.10, time),
            self.11.animate(&to.11, time),
            self.12.animate(&to.12, time),
            self.13.animate(&to.13, time),
            self.14.animate(&to.14, time),
        )
    }
}

impl<A: Animatable, B: Animatable, C: Animatable, D: Animatable, E: Animatable, F: Animatable, G: Animatable, H: Animatable, I: Animatable, J: Animatable, K: Animatable, L: Animatable, M: Animatable, N: Animatable, O: Animatable, P: Animatable> Animatable for (A, B, C, D, E, F, G, H, I, J, K, L, M, N, O, P) {
    open spec fn interpolate(from: (A, B, C, D, E, F, G, H, I, J, K, L, M, N, O, P), to: (A, B, C, D, E, F, G, H, I, J, K, L, M, N, O, P), time: Progress) -> (A, B, C, D, E, F, G, H, I, J, K, L, M, N, O, P) {
        (
            A::interpolate(from.0, to.0, time),
            B::interpolate(from.1, to.1, time),
            C::interpolate(from.2, to.2, time),
            D::interpolate(from.3, to.3, time),
            E::interpolate(from.4, to.4, time),
            F::interpolate(from.5, to.5, time),
            G::interpolate(from.6, to.6, time),
            H::interpolate(from.7, to.7, time),
            I::interpolate(from.8, to.8, time),
            J::interpolate(from.9, to.9, time),
            K::interpolate(from.10, to.10, time),
            L::interpolate(from.11, to.11, time),
            M::interpolate(from.12, to.12, time),
            N::interpolate(from.13, to.13, time),
            O::interpolate(from.14, to.14, time),
            P::interpolate(from.15, to.15, time),
        )
    }

    proof fn lemma_boundary_identity(from: (A, B, C, D, E, F, G, H, I, J, K, L, M, N, O, P), to: (A, B, C, D, E, F, G, H, I, J, K, L, M, N, O, P), time: Progress) {
        A::lemma_boundary_identity(from.0, to.0, time);
        B::lemma_boundary_identity(from.1, to.1, time);
        C::lemma_boundary_identity(from.2, to.2, time);
        D::lemma_boundary_identity(from.3, to.3, time);
        E::lemma_boundary_identity(from.4, to.4, time);
        F::lemma_boundary_identity(from.5, to.5, time);
        G::lemma_boundary_identity(from.6, to.6, time);
        H::lemma_boundary_identity(from.7, to.7, time);
        I::lemma_boundary_identity(from.8, to.8, time);
        J::lemma_boundary_identity(from.9, to.9, time);
        K::lemma_boundary_identity(from.10, to.10, time);
        L::lemma_boundary_identity(from.11, to.11, time);
        M::lemma_boundary_identity(from.12, to.12, time);
        N::lemma_boundary_identity(from.13, to.13, time);
        O::lemma_boundary_identity(from.14, to.14, time);
        P::lemma_boundary_identity(from.15, to.15, time);
    }

    fn animate(&self, to: &(A, B, C, D, E, F, G, H, I, J, K, L, M, N, O, P), time: Progress) -> (r: (A, B, C, D, E, F, G, H, I, J, K, L, M, N, O, P)) {
        proof {
            A::lemma_boundary_identity(self.0, to.0, time);
            B::lemma_boundary_identity(self.1, to.1, time);
            C::lemma_boundary_identity(self.2, to.2, time);
            D::lemma_boundary_identity(self.3, to.3, time);
            E::lemma_boundary_identity(self.4, to.4, time);
            F::lemma_boundary_identity(self.5, to.5, time);
            G::lemma_boundary_identity(self.6, to.6, time);
            H::lemma_boundary_identity(self.7, to.7, time);
            I::lemma_boundary_identity(self.8, to.8, time);
            J::lemma_boundary_identity(self.9, to.9, time);
            K::lemma_boundary_identity(self.10, to.10, time);
            L::lemma_boundary_identity(self.11, to.11, time);
            M::lemma_boundary_identity(self.12, to.12, time);
            N::lemma_boundary_identity(self.13, to.13, time);
            O::lemma_boundary_identity(self.14, to.14, time);
            P::lemma_boundary_identity(self.15, to.15, time);
        }
        (
            self.0.animate(&to.0, time),
            self.1.animate(&to.1, time),
            self.2.animate(&to.2, time),
            self.3.animate(&to.3, time),
            self.4.animate(&to.4, time),
            self.5.animate(&to.5, time),
            self.6.animate(&to.6, time),
            self.7.animate(&to.7, time),
            self.8.animate(&to.8, time),
            self.9.animate(&to.9, time),
            self.10.animate(&to.10, time),
            self.11.animate(&to.11, time),
            self.12.animate(&to.12, time),
            self.13.animate(&to.13, time),
            self.14.animate(&to.14, time),
            self.15.animate(&to.15, time),
        )
    }
}

} // verus!
