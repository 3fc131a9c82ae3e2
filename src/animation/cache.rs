use vstd::prelude::*;
use vstd::cell::invcell::InvCell;
use super::{clamp, clamp_to, BaseAnimation};

verus! {

/// Whether a memo slot holds what `src` produces at the recorded time.
pub open spec fn slot_ok<S: BaseAnimation>(src: S, slot: Option<(u64, S::Item)>) -> bool {
    match slot {
        Some((t, v)) => v == src.spec_animate(t),
        None => true,
    }
}

/// Memoizes the most recent value of an animation, keyed by its elapsed time
/// after clamping to the duration. The memo is updated through a shared
/// reference.
#[verifier::reject_recursive_types(S)]
pub struct Cache<S: BaseAnimation> where S::Item: Copy {
    src: S,
    cell: InvCell<Option<(u64, S::Item)>, spec_fn(Option<(u64, S::Item)>) -> bool>,
}

impl<S: BaseAnimation> Cache<S> where S::Item: Copy {
    #[verifier::type_invariant]
    spec fn inv(self) -> bool {
        forall|slot: Option<(u64, S::Item)>| #[trigger] self.cell.inv(slot) == slot_ok(self.src, slot)
    }

    /// The animation whose values are memoized.
    pub closed spec fn source(&self) -> S {
        self.src
    }

    pub(crate) fn new(src: S) -> (r: Self)
        ensures
            r.source() == src,
            r.spec_duration() == src.spec_duration(),
            forall|e: u64| #[trigger]
                r.spec_animate(e) == src.spec_animate(clamp_to(e, src.spec_duration())),
    {
        let ghost pred = |slot: Option<(u64, S::Item)>| slot_ok(src, slot);
        let cell = InvCell::new(None, Ghost(pred));
        Cache { src, cell }
    }
}

impl<S: BaseAnimation> BaseAnimation for Cache<S> where S::Item: Copy {
    type Item = S::Item;

    closed spec fn spec_duration(&self) -> Option<u64> {
        self.src.spec_duration()
    }

    closed spec fn spec_animate(&self, elapsed: u64) -> S::Item {
        self.src.spec_animate(clamp_to(elapsed, self.src.spec_duration()))
    }

    proof fn lemma_holds_final(&self, elapsed: u64) {
    }

    fn duration(&self) -> (r: Option<u64>) {
        self.src.duration()
    }

    fn animate(&self, elapsed: u64) -> (r: S::Item) {
        proof {
            use_type_invariant(self);
        }
        let e = clamp(elapsed, self.src.duration());
        let slot = self.cell.get();
        if let Some((t, v)) = slot {
            if t == e {
                return v;
            }
        }
        let v = self.src.animate(e);
        self.cell.set(Some((e, v)));
        v
    }
}

/// A cached animation is transparent: at every elapsed time it yields
/// exactly what its source yields, and it lasts as long, whatever was queried
/// before; the memo never shows through.
pub proof fn lemma_cache_transparent<S: BaseAnimation>(cache: Cache<S>, elapsed: u64)
    where
        S::Item: Copy,
    ensures
        cache.spec_animate(elapsed) == cache.source().spec_animate(elapsed),
        cache.spec_duration() == cache.source().spec_duration(),
{
    if let Some(d) = cache.source().spec_duration() {
        if elapsed > d {
            cache.source().lemma_holds_final(elapsed);
        }
    }
}

} // verus!
