use vstd::prelude::*;
use super::BaseAnimation;
use super::seek::remaining_duration;
use crate::progress::{add_sat, sat_add, sub_sat};

verus! {

/// An animation that always bypasses a fixed time at the start of its source.
#[derive(Clone, Copy, Debug)]
pub struct Skip<T> {
    src: T,
    progress: u64,
}

impl<T: BaseAnimation> Skip<T> {
    /// Skips the first `progress` nanoseconds of `src`.
    pub fn new(src: T, progress: u64) -> (r: Self)
        ensures
            r.spec_duration() == remaining_duration(src.spec_duration(), progress),
            forall|e: u64| #[trigger] r.spec_animate(e) == src.spec_animate(sat_add(progress, e)),
    {
        Skip { src, progress }
    }
}

impl<T: BaseAnimation> BaseAnimation for Skip<T> {
    type Item = T::Item;

    closed spec fn spec_duration(&self) -> Option<u64> {
        remaining_duration(self.src.spec_duration(), self.progress)
    }

    closed spec fn spec_animate(&self, elapsed: u64) -> T::Item {
        self.src.spec_animate(sat_add(self.progress, elapsed))
    }

    proof fn lemma_holds_final(&self, elapsed: u64) {
        let full = self.spec_duration().unwrap();
        self.src.lemma_holds_final(sat_add(self.progress, elapsed));
        self.src.lemma_holds_final(sat_add(self.progress, full));
    }

    fn duration(&self) -> (r: Option<u64>) {
        match self.src.duration() {
            Some(d) => Some(sub_sat(d, self.progress)),
            None => None,
        }
    }

    fn animate(&self, elapsed: u64) -> (r: T::Item) {
        self.src.animate(add_sat(self.progress, elapsed))
    }
}

} // verus!
