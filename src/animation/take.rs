use vstd::prelude::*;
use super::BaseAnimation;

verus! {

/// The first part of an animation, up to a fixed time.
#[derive(Clone, Copy, Debug)]
pub struct Take<T> {
    src: T,
    duration: u64,
}

/// The duration of the first `limit` of a source of duration `d`.
pub open spec fn taken_duration(d: Option<u64>, limit: u64) -> u64 {
    match d {
        Some(d) => if limit > 0 && limit >= d {
            d
        } else {
            limit
        },
        None => limit,
    }
}

impl<T: BaseAnimation> Take<T> {
    pub(crate) fn new(src: T, duration: u64) -> (r: Self)
        ensures
            r.spec_duration() == Some(taken_duration(src.spec_duration(), duration)),
            forall|e: u64| #[trigger]
                r.spec_animate(e) == src.spec_animate(
                    if e > taken_duration(src.spec_duration(), duration) {
                        taken_duration(src.spec_duration(), duration)
                    } else {
                        e
                    },
                ),
    {
        Take { src, duration }
    }
}

impl<T: BaseAnimation> BaseAnimation for Take<T> {
    type Item = T::Item;

    closed spec fn spec_duration(&self) -> Option<u64> {
        Some(taken_duration(self.src.spec_duration(), self.duration))
    }

    closed spec fn spec_animate(&self, elapsed: u64) -> T::Item {
        let d = taken_duration(self.src.spec_duration(), self.duration);
        self.src.spec_animate(
            if elapsed > d {
                d
            } else {
                elapsed
            },
        )
    }

    proof fn lemma_holds_final(&self, elapsed: u64) {
    }

    fn duration(&self) -> (r: Option<u64>) {
        if self.duration > 0 {
            if let Some(d) = self.src.duration() {
                if self.duration >= d {
                    return Some(d);
                }
            }
        }
        Some(self.duration)
    }

    fn animate(&self, elapsed: u64) -> (r: T::Item) {
        let d = match self.duration() {
            Some(d) => d,
            None => self.duration,
        };
        if elapsed > d {
            self.src.animate(d)
        } else {
            self.src.animate(elapsed)
        }
    }
}

} // verus!
