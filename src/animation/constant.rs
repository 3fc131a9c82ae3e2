use vstd::prelude::*;
use super::BaseAnimation;

verus! {

/// An animation that outputs one value throughout.
#[derive(Clone, Copy, Debug)]
pub struct Constant<T> {
    value: T,
    duration: u64,
}

impl<T: Copy> Constant<T> {
    pub(crate) fn new(value: T, duration: u64) -> (r: Self)
        ensures
            r.spec_duration() == Some(duration),
            forall|e: u64| #[trigger] r.spec_animate(e) == value,
    {
        Constant { value, duration }
    }
}

impl<T: Copy> BaseAnimation for Constant<T> {
    type Item = T;

    closed spec fn spec_duration(&self) -> Option<u64> {
        Some(self.duration)
    }

    closed spec fn spec_animate(&self, elapsed: u64) -> T {
        self.value
    }

    proof fn lemma_holds_final(&self, elapsed: u64) {
    }

    fn duration(&self) -> (r: Option<u64>) {
        Some(self.duration)
    }

    fn animate(&self, elapsed: u64) -> (r: T) {
        self.value
    }
}

} // verus!
