use vstd::prelude::*;
use super::BaseAnimation;

verus! {

/// Two animations played at the same time, producing pairs.
#[derive(Clone, Copy, Debug)]
pub struct Parallel<A, B> {
    first: A,
    second: B,
}

/// The duration of two animations of durations `a` and `b` played together.
pub open spec fn parallel_duration(a: Option<u64>, b: Option<u64>) -> Option<u64> {
    match (a, b) {
        (Some(a), Some(b)) => Some(if a >= b {
            a
        } else {
            b
        }),
        _ => None,
    }
}

impl<A: BaseAnimation, B: BaseAnimation> Parallel<A, B> {
    pub(crate) fn new(first: A, second: B) -> (r: Self)
        ensures
            r.spec_duration() == parallel_duration(first.spec_duration(), second.spec_duration()),
            forall|e: u64| #[trigger]
                r.spec_animate(e) == (first.spec_animate(e), second.spec_animate(e)),
    {
        Parallel { first, second }
    }
}

impl<A: BaseAnimation, B: BaseAnimation> BaseAnimation for Parallel<A, B> {
    type Item = (A::Item, B::Item);

    closed spec fn spec_duration(&self) -> Option<u64> {
        parallel_duration(self.first.spec_duration(), self.second.spec_duration())
    }

    closed spec fn spec_animate(&self, elapsed: u64) -> (A::Item, B::Item) {
        (self.first.spec_animate(elapsed), self.second.spec_animate(elapsed))
    }

    proof fn lemma_holds_final(&self, elapsed: u64) {
        let full = self.spec_duration().unwrap();
        self.first.lemma_holds_final(elapsed);
        self.first.lemma_holds_final(full);
        self.second.lemma_holds_final(elapsed);
        self.second.lemma_holds_final(full);
    }

    fn duration(&self) -> (r: Option<u64>) {
        match (self.first.duration(), self.second.duration()) {
            (Some(a), Some(b)) => Some(if a >= b { a } else { b }),
            _ => None,
        }
    }

    fn animate(&self, elapsed: u64) -> (r: (A::Item, B::Item)) {
        let first = self.first.animate(elapsed);
        let second = self.second.animate(elapsed);
        (first, second)
    }
}

} // verus!
