use vstd::prelude::*;
use super::BaseAnimation;
use crate::progress::{cap, div_duration, div_ratio, mul_duration_ceil, mul_ratio_ceil, Ratio};

verus! {

/// An animation whose elapsed time is divided by a factor before it reaches
/// its source: a factor above one slows it down, below one speeds it up.
#[derive(Clone, Copy, Debug)]
pub struct Scale<T> {
    src: T,
    scale: Ratio,
}

/// The duration of a source of duration `d` scaled by `scale`: `d * scale`,
/// rounded up so that the source has reached its end by then; a zero factor
/// makes it instantaneous.
pub open spec fn scaled_duration(d: Option<u64>, scale: Ratio) -> Option<u64> {
    match d {
        Some(d) => Some(if d == 0 || scale.num == 0 || scale.den == 0 {
            0u64
        } else {
            mul_ratio_ceil(d, scale)
        }),
        None => None,
    }
}

/// The time in the source reached after `elapsed`; with a zero factor the
/// source always stands at its end.
pub open spec fn scaled_time(d: Option<u64>, scale: Ratio, elapsed: u64) -> u64 {
    if scale.num == 0 || scale.den == 0 {
        match d {
            Some(d) => d,
            None => 0,
        }
    } else {
        div_ratio(elapsed, scale)
    }
}

proof fn lemma_ceil_then_floor(d: u64, s: Ratio)
    requires
        s.num > 0,
        s.den > 0,
        mul_ratio_ceil(d, s) < u64::MAX,
    ensures
        div_ratio(mul_ratio_ceil(d, s), s) >= d,
{
    let n = s.num as int;
    let m = s.den as int;
    let c = (d * n + m - 1) / m;
    vstd::arithmetic::div_mod::lemma_fundamental_div_mod(d * n + m - 1, m);
    assert(c * m >= d * n) by (nonlinear_arith)
        requires
            d * n + m - 1 == m * c + (d * n + m - 1) % m,
            0 <= (d * n + m - 1) % m < m,
    ;
    assert((c * m) / n >= d) by (nonlinear_arith)
        requires
            c * m >= d * n,
            n > 0,
            d >= 0,
    ;
}

proof fn lemma_div_ratio_monotone(a: u64, b: u64, s: Ratio)
    requires
        s.num > 0,
        a <= b,
    ensures
        div_ratio(a, s) <= div_ratio(b, s),
{
    assert(a * s.den <= b * s.den) by (nonlinear_arith)
        requires
            a <= b,
    ;
    vstd::arithmetic::div_mod::lemma_div_is_ordered(a * s.den, b * s.den, s.num as int);
}

impl<T: BaseAnimation> Scale<T> {
    pub(crate) fn new(src: T, scale: Ratio) -> (r: Self)
        requires
            scale.wf(),
        ensures
            r.spec_duration() == scaled_duration(src.spec_duration(), scale),
            forall|e: u64| #[trigger]
                r.spec_animate(e) == src.spec_animate(scaled_time(src.spec_duration(), scale, e)),
    {
        Scale { src, scale }
    }
}

impl<T: BaseAnimation> BaseAnimation for Scale<T> {
    type Item = T::Item;

    closed spec fn spec_duration(&self) -> Option<u64> {
        scaled_duration(self.src.spec_duration(), self.scale)
    }

    closed spec fn spec_animate(&self, elapsed: u64) -> T::Item {
        self.src.spec_animate(scaled_time(self.src.spec_duration(), self.scale, elapsed))
    }

    proof fn lemma_holds_final(&self, elapsed: u64) {
        let full = self.spec_duration().unwrap();
        let d = self.src.spec_duration().unwrap();
        if self.scale.num != 0 && self.scale.den != 0 && elapsed != full {
            let s = self.scale;
            if d != 0 {
                lemma_ceil_then_floor(d, s);
                lemma_div_ratio_monotone(full, elapsed, s);
            }
            self.src.lemma_holds_final(div_ratio(elapsed, s));
            self.src.lemma_holds_final(div_ratio(full, s));
        }
    }

    fn duration(&self) -> (r: Option<u64>) {
        match self.src.duration() {
            Some(d) => Some(if d == 0 || self.scale.num == 0 || self.scale.den == 0 {
                0
            } else {
                mul_duration_ceil(d, self.scale)
            }),
            None => None,
        }
    }

    fn animate(&self, elapsed: u64) -> (r: T::Item) {
        if self.scale.num == 0 || self.scale.den == 0 {
            let at = match self.src.duration() {
                Some(d) => d,
                None => 0,
            };
            self.src.animate(at)
        } else {
            self.src.animate(div_duration(elapsed, self.scale))
        }
    }
}

} // verus!
