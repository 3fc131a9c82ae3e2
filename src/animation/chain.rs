use vstd::prelude::*;
use super::BaseAnimation;
use crate::progress::{add_sat, sat_add};

verus! {

/// Two animations played one after the other.
#[derive(Clone, Copy, Debug)]
pub struct Chain<A, B> {
    first: A,
    second: B,
}

/// The duration of two animations of durations `a` and `b` played in turn.
pub open spec fn chained_duration(a: Option<u64>, b: Option<u64>) -> Option<u64> {
    match (a, b) {
        (Some(a), Some(b)) => Some(sat_add(a, b)),
        _ => None,
    }
}

/// The value of `first` then `second` after `elapsed`: once `first` has
/// finished, `second` plays from its start.
pub open spec fn chained_value<A: BaseAnimation, B: BaseAnimation<Item = A::Item>>(
    first: A,
    second: B,
    elapsed: u64,
) -> A::Item {
    match first.spec_duration() {
        Some(d) => if elapsed >= d {
            second.spec_animate((elapsed - d) as u64)
        } else {
            first.spec_animate(elapsed)
        },
        None => first.spec_animate(elapsed),
    }
}

impl<A: BaseAnimation, B: BaseAnimation<Item = A::Item>> Chain<A, B> {
    pub(crate) fn new(first: A, second: B) -> (r: Self)
        ensures
            r.spec_duration() == chained_duration(first.spec_duration(), second.spec_duration()),
            forall|e: u64| #[trigger] r.spec_animate(e) == chained_value(first, second, e),
    {
        Chain { first, second }
    }
}

impl<A: BaseAnimation, B: BaseAnimation<Item = A::Item>> BaseAnimation for Chain<A, B> {
    type Item = A::Item;

    closed spec fn spec_duration(&self) -> Option<u64> {
        chained_duration(self.first.spec_duration(), self.second.spec_duration())
    }

    closed spec fn spec_animate(&self, elapsed: u64) -> A::Item {
        chained_value(self.first, self.second, elapsed)
    }

    proof fn lemma_holds_final(&self, elapsed: u64) {
        let full = self.spec_duration().unwrap();
        if elapsed != full {
            let a = self.first.spec_duration().unwrap();
            let b = self.second.spec_duration().unwrap();
            self.second.lemma_holds_final((elapsed - a) as u64);
            self.second.lemma_holds_final((full - a) as u64);
        }
    }

    fn duration(&self) -> (r: Option<u64>) {
        match (self.first.duration(), self.second.duration()) {
            (Some(a), Some(b)) => Some(add_sat(a, b)),
            _ => None,
        }
    }

    fn animate(&self, elapsed: u64) -> (r: A::Item) {
        match self.first.duration() {
            Some(d) => {
                if elapsed >= d {
                    self.second.animate(elapsed - d)
                } else {
                    self.first.animate(elapsed)
                }
            },
            None => self.first.animate(elapsed),
        }
    }
}

} // verus!
