use vstd::prelude::*;
use super::{clamp, clamp_to, BaseAnimation};

verus! {

/// The view of an animation with its concrete type erased.
pub trait Erased<T> {
    spec fn erased_duration(&self) -> Option<u64>;

    spec fn erased_animate(&self, elapsed: u64) -> T;

    fn duration_of(&self) -> (r: Option<u64>)
        ensures
            r == self.erased_duration(),
    ;

    fn animate_at(&self, elapsed: u64) -> (r: T)
        ensures
            r == self.erased_animate(elapsed),
    ;
}

/// Holds an animation whose type is about to be erased.
struct Holder<A>(A);

impl<A: BaseAnimation> Erased<A::Item> for Holder<A> {
    closed spec fn erased_duration(&self) -> Option<u64> {
        self.0.spec_duration()
    }

    closed spec fn erased_animate(&self, elapsed: u64) -> A::Item {
        self.0.spec_animate(elapsed)
    }

    fn duration_of(&self) -> (r: Option<u64>) {
        self.0.duration()
    }

    fn animate_at(&self, elapsed: u64) -> (r: A::Item) {
        self.0.animate(elapsed)
    }
}

/// An animation behind a heap pointer, so that animations of different
/// concrete types with the same item type can be stored alike.
#[verifier::reject_recursive_types(T)]
pub struct Boxed<T> {
    inner: Box<dyn Erased<T>>,
}

impl<T> Boxed<T> {
    /// Boxes `src`, keeping its duration and values.
    pub fn new<F: BaseAnimation<Item = T> + 'static>(src: F) -> (r: Self)
        ensures
            r.spec_duration() == src.spec_duration(),
            forall|e: u64| #[trigger] r.spec_animate(e) == src.spec_animate(e),
    {
        let r = Boxed { inner: Box::new(Holder(src)) };
        assert forall|e: u64| #[trigger] r.spec_animate(e) == src.spec_animate(e) by {
            if let Some(d) = src.spec_duration() {
                if e > d {
                    src.lemma_holds_final(e);
                }
            }
        }
        r
    }
}

impl<T> BaseAnimation for Boxed<T> {
    type Item = T;

    closed spec fn spec_duration(&self) -> Option<u64> {
        self.inner.erased_duration()
    }

    closed spec fn spec_animate(&self, elapsed: u64) -> T {
        self.inner.erased_animate(clamp_to(elapsed, self.inner.erased_duration()))
    }

    proof fn lemma_holds_final(&self, elapsed: u64) {
    }

    fn duration(&self) -> (r: Option<u64>) {
        self.inner.duration_of()
    }

    fn animate(&self, elapsed: u64) -> (r: T) {
        let d = self.inner.duration_of();
        self.inner.animate_at(clamp(elapsed, d))
    }
}

} // verus!
