use vstd::prelude::*;
use super::{clamp, clamp_to, BaseAnimation};
use crate::options::RepeatBehavior;
use crate::progress::mul_duration;

verus! {

/// Repeats a bounded animation.
#[derive(Debug)]
pub struct Repeat<T: BaseAnimation> {
    src: T,
    repeat: RepeatBehavior,
    duration: Option<u64>,
}

/// The time within the current cycle after `elapsed`, for cycles of length
/// `simple`. A time that falls exactly on the boundary after a finished cycle
/// is the end of that cycle, not the start of the next.
pub open spec fn cycle_position(elapsed: u64, simple: u64) -> u64 {
    if simple == 0 {
        0
    } else if elapsed / simple > 0 && elapsed % simple == 0 {
        simple
    } else {
        (elapsed % simple) as u64
    }
}

pub(crate) fn cycle_time(elapsed: u64, simple: u64) -> (r: u64)
    ensures
        r == cycle_position(elapsed, simple),
        r <= simple,
{
    if simple == 0 {
        0
    } else if elapsed / simple > 0 && elapsed % simple == 0 {
        simple
    } else {
        elapsed % simple
    }
}

/// The value of `src` repeated with total duration `total` after `elapsed`.
pub open spec fn repeated_value<T: BaseAnimation>(src: T, total: Option<u64>, elapsed: u64) -> T::Item {
    match src.spec_duration() {
        Some(simple) => src.spec_animate(cycle_position(clamp_to(elapsed, total), simple)),
        None => src.spec_animate(elapsed),
    }
}

impl<T: BaseAnimation> Repeat<T> {
    #[verifier::type_invariant]
    spec fn inv(self) -> bool {
        self.duration == self.repeat.total(self.src.spec_duration())
    }

    pub(crate) fn new(src: T, repeat: RepeatBehavior) -> (r: Self)
        requires
            repeat.wf(),
        ensures
            r.spec_duration() == repeat.total(src.spec_duration()),
            forall|e: u64| #[trigger]
                r.spec_animate(e) == repeated_value(src, repeat.total(src.spec_duration()), e),
    {
        let duration = match src.duration() {
            Some(d) => {
                if d == 0 {
                    Some(0)
                } else {
                    match repeat {
                        RepeatBehavior::Count(c) => Some(mul_duration(d, c)),
                        RepeatBehavior::Forever => None,
                    }
                }
            },
            None => None,
        };
        Repeat { src, repeat, duration }
    }
}

impl<T: BaseAnimation> BaseAnimation for Repeat<T> {
    type Item = T::Item;

    closed spec fn spec_duration(&self) -> Option<u64> {
        self.repeat.total(self.src.spec_duration())
    }

    closed spec fn spec_animate(&self, elapsed: u64) -> T::Item {
        repeated_value(self.src, self.repeat.total(self.src.spec_duration()), elapsed)
    }

    proof fn lemma_holds_final(&self, elapsed: u64) {
    }

    fn duration(&self) -> (r: Option<u64>) {
        proof {
            use_type_invariant(self);
        }
        self.duration
    }

    fn animate(&self, elapsed: u64) -> (r: T::Item) {
        proof {
            use_type_invariant(self);
        }
        match self.src.duration() {
            Some(simple) => {
                let e = clamp(elapsed, self.duration);
                self.src.animate(cycle_time(e, simple))
            },
            None => self.src.animate(elapsed),
        }
    }
}

} // verus!
