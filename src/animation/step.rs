use vstd::prelude::*;
use super::map::is_pure_fn;
use super::BaseAnimation;
use crate::progress::cap;

verus! {

/// A sequence that can be read at any position without being consumed.
pub trait Cursor {
    /// The items of the sequence.
    type Item;

    /// The number of items; `None` means the sequence is infinite.
    spec fn spec_size(&self) -> Option<usize>;

    /// The item at position `n`.
    spec fn spec_index(&self, n: usize) -> Self::Item;

    /// The number of items; `None` means the sequence is infinite.
    fn size(&self) -> (r: Option<usize>)
        ensures
            r == self.spec_size(),
    ;

    /// The item at position `n`, which must lie within the sequence.
    fn index(&self, n: usize) -> (r: Self::Item)
        requires
            match self.spec_size() {
                Some(s) => n < s,
                None => true,
            },
        ensures
            r == self.spec_index(n),
    ;
}

impl<T: Copy> Cursor for Vec<T> {
    type Item = T;

    open spec fn spec_size(&self) -> Option<usize> {
        Some(self@.len() as usize)
    }

    open spec fn spec_index(&self, n: usize) -> T {
        self@[n as int]
    }

    fn size(&self) -> (r: Option<usize>) {
        Some(self.len())
    }

    fn index(&self, n: usize) -> (r: T) {
        self[n]
    }
}

/// An infinite sequence given by a function from position to item.
#[verifier::reject_recursive_types(T)]
pub struct Infinite<F: Fn(usize) -> T, T> {
    f: F,
}

impl<F: Fn(usize) -> T, T> Infinite<F, T> {
    #[verifier::type_invariant]
    spec fn inv(self) -> bool {
        is_pure_fn(self.f)
    }

    /// The sequence whose item at `n` is `f(n)`.
    pub fn new(f: F) -> (r: Self)
        requires
            is_pure_fn(f),
        ensures
            r.spec_size().is_none(),
            forall|n: usize, y: T| #[trigger] f.ensures((n,), y) ==> r.spec_index(n) == y,
    {
        Infinite { f }
    }
}

impl<F: Fn(usize) -> T, T> Cursor for Infinite<F, T> {
    type Item = T;

    closed spec fn spec_size(&self) -> Option<usize> {
        None
    }

    closed spec fn spec_index(&self, n: usize) -> T {
        choose|y: T| self.f.ensures((n,), y)
    }

    fn size(&self) -> (r: Option<usize>) {
        None
    }

    fn index(&self, n: usize) -> (r: T) {
        proof {
            use_type_invariant(self);
        }
        (self.f)(n)
    }
}

/// A discrete animation that shows one item of a sequence per interval.
pub struct StepAnimation<T: Cursor> {
    src: T,
    interval: u64,
}

/// The duration of stepping through `size` items, `interval` each.
pub open spec fn steps_duration(size: Option<usize>, interval: u64) -> Option<u64> {
    if interval == 0 {
        Some(0u64)
    } else {
        match size {
            Some(s) => Some(cap(interval * s)),
            None => None,
        }
    }
}

/// The position shown after `elapsed`: one step per interval, held at the
/// last item once the sequence is exhausted.
pub open spec fn step_position(size: Option<usize>, interval: u64, elapsed: u64) -> usize {
    if interval == 0 {
        0
    } else {
        match size {
            Some(s) => if elapsed >= cap(interval * s) {
                (s - 1) as usize
            } else {
                (elapsed / interval) as usize
            },
            None => if elapsed / interval > usize::MAX {
                usize::MAX
            } else {
                (elapsed / interval) as usize
            },
        }
    }
}

impl<T: Cursor> StepAnimation<T> {
    #[verifier::type_invariant]
    spec fn inv(self) -> bool {
        self.src.spec_size() != Some(0usize)
    }

    /// The sequence being stepped through.
    pub closed spec fn source(&self) -> T {
        self.src
    }

    /// The time each item is shown.
    pub closed spec fn spec_interval(&self) -> u64 {
        self.interval
    }

    /// Steps through a non-empty sequence; the interval starts at zero.
    pub fn new(src: T) -> (r: Self)
        requires
            src.spec_size() != Some(0usize),
        ensures
            r.source() == src,
            r.spec_interval() == 0,
    {
        StepAnimation { src, interval: 0 }
    }

    /// Sets the time each item is shown.
    pub fn interval(self, interval: u64) -> (r: Self)
        ensures
            r.source() == self.source(),
            r.spec_interval() == interval,
            r.spec_duration() == steps_duration(self.source().spec_size(), interval),
            forall|e: u64| #[trigger]
                r.spec_animate(e) == self.source().spec_index(
                    step_position(self.source().spec_size(), interval, e),
                ),
    {
        proof {
            use_type_invariant(&self);
        }
        StepAnimation { src: self.src, interval }
    }
}

impl<T: Cursor> BaseAnimation for StepAnimation<T> {
    type Item = T::Item;

    closed spec fn spec_duration(&self) -> Option<u64> {
        steps_duration(self.src.spec_size(), self.interval)
    }

    closed spec fn spec_animate(&self, elapsed: u64) -> T::Item {
        self.src.spec_index(step_position(self.src.spec_size(), self.interval, elapsed))
    }

    proof fn lemma_holds_final(&self, elapsed: u64) {
    }

    fn duration(&self) -> (r: Option<u64>) {
        if self.interval == 0 {
            return Some(0);
        }
        match self.src.size() {
            Some(s) => {
                proof {
                    crate::progress::lemma_mul_fits_u128(self.interval, s as u64);
                }
                let d: u128 = (self.interval as u128) * (s as u128);
                Some(if d > u64::MAX as u128 { u64::MAX } else { d as u64 })
            },
            None => None,
        }
    }

    fn animate(&self, elapsed: u64) -> (r: T::Item) {
        proof {
            use_type_invariant(self);
        }
        if self.interval == 0 {
            return self.src.index(0);
        }
        let n: u64 = elapsed / self.interval;
        match self.src.size() {
            Some(s) => {
                proof {
                    crate::progress::lemma_mul_fits_u128(self.interval, s as u64);
                }
                let d: u128 = (self.interval as u128) * (s as u128);
                if (elapsed as u128) >= d || elapsed == u64::MAX {
                    self.src.index(s - 1)
                } else {
                    proof {
                        let i = self.interval as int;
                        let e = elapsed as int;
                        assert(e / i < s) by (nonlinear_arith)
                            requires
                                e < i * s,
                                i > 0,
                                e >= 0,
                        ;
                    }
                    self.src.index(n as usize)
                }
            },
            None => {
                if n > usize::MAX as u64 {
                    self.src.index(usize::MAX)
                } else {
                    self.src.index(n as usize)
                }
            },
        }
    }
}

} // verus!
