use vstd::prelude::*;
use super::BaseAnimation;

verus! {

/// Whether `f` is a pure function: defined on every input, with a single
/// possible result for each.
pub open spec fn is_pure_fn<A, B, F: Fn(A) -> B>(f: F) -> bool {
    &&& forall|x: A| #[trigger] f.requires((x,))
    &&& forall|x: A, a: B, b: B| #[trigger] f.ensures((x,), a) && #[trigger] f.ensures((x,), b) ==> a == b
}

/// Transforms the values of an animation.
#[verifier::reject_recursive_types(T)]
pub struct Mapped<S: BaseAnimation, F: Fn(S::Item) -> T, T> {
    src: S,
    f: F,
}

impl<S: BaseAnimation, F: Fn(S::Item) -> T, T> Mapped<S, F, T> {
    #[verifier::type_invariant]
    spec fn inv(self) -> bool {
        is_pure_fn(self.f)
    }

    pub(crate) fn new(src: S, f: F) -> (r: Self)
        requires
            is_pure_fn(f),
        ensures
            r.spec_duration() == src.spec_duration(),
            forall|e: u64, y: T| #[trigger]
                f.ensures((src.spec_animate(e),), y) ==> r.spec_animate(e) == y,
    {
        Mapped { src, f }
    }
}

impl<S: BaseAnimation, F: Fn(S::Item) -> T, T> BaseAnimation for Mapped<S, F, T> {
    type Item = T;

    closed spec fn spec_duration(&self) -> Option<u64> {
        self.src.spec_duration()
    }

    closed spec fn spec_animate(&self, elapsed: u64) -> T {
        choose|r: T| self.f.ensures((self.src.spec_animate(elapsed),), r)
    }

    proof fn lemma_holds_final(&self, elapsed: u64) {
        let full = self.spec_duration().unwrap();
        self.src.lemma_holds_final(elapsed);
    }

    fn duration(&self) -> (r: Option<u64>) {
        self.src.duration()
    }

    fn animate(&self, elapsed: u64) -> (r: T) {
        proof {
            use_type_invariant(self);
        }
        let v = self.src.animate(elapsed);
        let r = (self.f)(v);
        r
    }
}

} // verus!
