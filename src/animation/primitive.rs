use vstd::prelude::*;
use super::{clamp, clamp_to, BaseAnimation};
use crate::animatable::Animatable;
use crate::easing::{Easing, Function};
use crate::options::{primitive_duration, Options, RepeatBehavior};
use crate::progress::{
    add_sat, sat_add, sat_sub, sub_sat, mul_duration, Progress, PROGRESS_HALF, PROGRESS_ONE,
};

verus! {

/// The primitive animation built from [`Options`].
#[derive(Clone, Copy, Debug)]
pub struct Primitive<T, E = Easing> {
    opt: Options<T, E>,
    duration: Option<u64>,
}

/// The linear progress through the current cycle after `elapsed`, for cycles
/// of length `simple`; the boundary after a finished cycle is its end.
pub open spec fn cycle_fraction(elapsed: u64, simple: u64) -> Progress {
    if simple == 0 {
        Progress { parts: 0 }
    } else if elapsed / simple > 0 && elapsed % simple == 0 {
        Progress { parts: PROGRESS_ONE }
    } else {
        Progress { parts: ((elapsed % simple) * PROGRESS_ONE / (simple as int)) as u64 }
    }
}

/// The value at eased progress `t` between `from` and `to`; with
/// `auto_reverse`, the first half goes forward and the second half back.
pub open spec fn eased_value<T: Animatable>(from: T, to: T, t: Progress, auto_reverse: bool) -> T {
    if auto_reverse {
        if t.parts > PROGRESS_HALF {
            T::interpolate(to, from, Progress { parts: (t.parts * 2 - PROGRESS_ONE) as u64 })
        } else {
            T::interpolate(from, to, Progress { parts: (t.parts * 2) as u64 })
        }
    } else {
        T::interpolate(from, to, t)
    }
}

/// The value of the primitive animation built from `opt` after `elapsed`.
pub open spec fn primitive_value<T: Animatable, E: Function>(opt: Options<T, E>, elapsed: u64) -> T {
    let e = sat_sub(sat_add(elapsed, opt.skip_time()), opt.delay_time());
    let total = opt.repeat.total(Some(opt.duration));
    if total == Some(0u64) {
        opt.from
    } else {
        let t = opt.easing.spec_ease(cycle_fraction(clamp_to(e, total), opt.duration));
        eased_value(opt.from, opt.to, t, opt.auto_reverse)
    }
}

fn fraction(elapsed: u64, simple: u64) -> (r: Progress)
    ensures
        r == cycle_fraction(elapsed, simple),
        r.wf(),
{
    if simple == 0 {
        Progress { parts: 0 }
    } else if elapsed / simple > 0 && elapsed % simple == 0 {
        Progress { parts: PROGRESS_ONE }
    } else {
        let rem = elapsed % simple;
        proof {
            crate::progress::lemma_mul_fits_u128(rem, PROGRESS_ONE);
            assert(rem * PROGRESS_ONE < simple * PROGRESS_ONE) by (nonlinear_arith)
                requires
                    rem < simple,
            ;
            vstd::arithmetic::div_mod::lemma_div_is_ordered(
                rem * PROGRESS_ONE,
                simple * PROGRESS_ONE,
                simple as int,
            );
            assert(simple * PROGRESS_ONE / (simple as int) == PROGRESS_ONE) by (nonlinear_arith)
                requires
                    simple > 0,
            ;
        }
        let p: u128 = (rem as u128) * (PROGRESS_ONE as u128) / (simple as u128);
        Progress { parts: p as u64 }
    }
}

impl<T: Animatable + Copy, E: Function> Primitive<T, E> {
    pub(crate) fn new(opt: Options<T, E>) -> (r: Self)
        requires
            opt.wf(),
        ensures
            r.spec_duration() == primitive_duration(opt),
            forall|e: u64| #[trigger] r.spec_animate(e) == primitive_value(opt, e),
    {
        let duration = if opt.duration == 0 {
            Some(0)
        } else {
            match opt.repeat {
                RepeatBehavior::Count(c) => Some(mul_duration(opt.duration, c)),
                RepeatBehavior::Forever => None,
            }
        };
        Primitive { opt, duration }
    }
}

impl<T: Animatable + Copy, E: Function> BaseAnimation for Primitive<T, E> {
    type Item = T;

    closed spec fn spec_duration(&self) -> Option<u64> {
        match self.duration {
            Some(d) => Some(sat_sub(sat_add(d, self.opt.delay_time()), self.opt.skip_time())),
            None => None,
        }
    }

    closed spec fn spec_animate(&self, elapsed: u64) -> T {
        let e = sat_sub(sat_add(elapsed, self.opt.skip_time()), self.opt.delay_time());
        if self.duration == Some(0u64) {
            self.opt.from
        } else {
            let t = self.opt.easing.spec_ease(
                cycle_fraction(clamp_to(e, self.duration), self.opt.duration),
            );
            eased_value(self.opt.from, self.opt.to, t, self.opt.auto_reverse)
        }
    }

    proof fn lemma_holds_final(&self, elapsed: u64) {
        let full = self.spec_duration().unwrap();
        let total = self.duration.unwrap();
        let skip = self.opt.skip_time();
        let delay = self.opt.delay_time();
        let fe = sat_sub(sat_add(elapsed, skip), delay);
        let ff = sat_sub(sat_add(full, skip), delay);
        assert(clamp_to(fe, self.duration) == clamp_to(ff, self.duration));
    }

    fn duration(&self) -> (r: Option<u64>) {
        match self.duration {
            Some(d) => {
                let delay = match self.opt.delay {
                    Some(v) => v,
                    None => 0,
                };
                let skip = match self.opt.skip {
                    Some(v) => v,
                    None => 0,
                };
                Some(sub_sat(add_sat(d, delay), skip))
            },
            None => None,
        }
    }

    fn animate(&self, elapsed: u64) -> (r: T) {
        let skip = match self.opt.skip {
            Some(v) => v,
            None => 0,
        };
        let delay = match self.opt.delay {
            Some(v) => v,
            None => 0,
        };
        let e = sub_sat(add_sat(elapsed, skip), delay);
        if let Some(total) = self.duration {
            if total == 0 {
                return self.opt.from;
            }
        }
        let e = clamp(e, self.duration);
        let time = self.opt.easing.ease(fraction(e, self.opt.duration));
        if self.opt.auto_reverse {
            if time.parts > PROGRESS_HALF {
                let back = Progress { parts: time.parts * 2 - PROGRESS_ONE };
                self.opt.to.animate(&self.opt.from, back)
            } else {
                let forth = Progress { parts: time.parts * 2 };
                self.opt.from.animate(&self.opt.to, forth)
            }
        } else {
            self.opt.from.animate(&self.opt.to, time)
        }
    }
}

} // verus!
