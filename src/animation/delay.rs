use vstd::prelude::*;
use super::BaseAnimation;
use crate::progress::{add_sat, sat_add, sat_sub, sub_sat};

verus! {

/// Delays an animation by a fixed time.
#[derive(Clone, Copy, Debug)]
pub struct Delay<T> {
    src: T,
    delay: u64,
}

/// The duration of a source of duration `d` delayed by `delay`.
pub open spec fn delayed_duration(d: Option<u64>, delay: u64) -> Option<u64> {
    match d {
        Some(d) => Some(sat_add(d, delay)),
        None => None,
    }
}

impl<T: BaseAnimation> Delay<T> {
    pub(crate) fn new(src: T, delay: u64) -> (r: Self)
        ensures
            r.spec_duration() == delayed_duration(src.spec_duration(), delay),
            forall|e: u64| #[trigger] r.spec_animate(e) == src.spec_animate(sat_sub(e, delay)),
    {
        Delay { src, delay }
    }
}

impl<T: BaseAnimation> BaseAnimation for Delay<T> {
    type Item = T::Item;

    closed spec fn spec_duration(&self) -> Option<u64> {
        delayed_duration(self.src.spec_duration(), self.delay)
    }

    closed spec fn spec_animate(&self, elapsed: u64) -> T::Item {
        self.src.spec_animate(sat_sub(elapsed, self.delay))
    }

    proof fn lemma_holds_final(&self, elapsed: u64) {
        let full = self.spec_duration().unwrap();
        if elapsed != full {
            let d = self.src.spec_duration().unwrap();
            self.src.lemma_holds_final(sat_sub(elapsed, self.delay));
            self.src.lemma_holds_final(sat_sub(full, self.delay));
        }
    }

    fn duration(&self) -> (r: Option<u64>) {
        match self.src.duration() {
            Some(d) => Some(add_sat(d, self.delay)),
            None => None,
        }
    }

    fn animate(&self, elapsed: u64) -> (r: T::Item) {
        self.src.animate(sub_sat(elapsed, self.delay))
    }
}

} // verus!
