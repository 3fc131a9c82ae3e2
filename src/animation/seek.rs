use vstd::prelude::*;
use super::BaseAnimation;
use crate::progress::{add_sat, mul_duration, mul_ratio, sat_add, sat_sub, sub_sat, Ratio};

verus! {

/// Where a seek lands in the source animation.
#[derive(Clone, Copy, Debug, PartialEq, Eq, Structural)]
pub enum SeekFrom {
    /// A time from the beginning.
    Begin(u64),
    /// A time before the end.
    End(u64),
    /// A fraction of the duration, from the beginning.
    Percent(Ratio),
    /// A fraction of the duration, back from the end.
    PercentFromEnd(Ratio),
}

impl SeekFrom {
    /// Whether the seek can be resolved against a source of duration `d`:
    /// seeking from the end or by a fraction needs a finite duration, and a
    /// fraction lies within `[0, 1]`.
    pub open spec fn valid_for(self, d: Option<u64>) -> bool {
        match self {
            SeekFrom::Begin(_) => true,
            SeekFrom::End(_) => d.is_some(),
            SeekFrom::Percent(p) => d.is_some() && p.wf() && p.num <= p.den,
            SeekFrom::PercentFromEnd(p) => d.is_some() && p.wf() && p.num <= p.den,
        }
    }

    /// The position in the source at which playback starts.
    pub open spec fn position(self, d: Option<u64>) -> u64 {
        match self {
            SeekFrom::Begin(p) => p,
            SeekFrom::End(p) => sat_sub(d.unwrap(), p),
            SeekFrom::Percent(p) => mul_ratio(d.unwrap(), p),
            SeekFrom::PercentFromEnd(p) => mul_ratio(
                d.unwrap(),
                Ratio { num: (p.den - p.num) as u64, den: p.den },
            ),
        }
    }
}

/// An animation that starts partway into its source.
#[derive(Clone, Copy, Debug)]
pub struct Seek<T> {
    src: T,
    progress: u64,
}

/// The duration left of a source of duration `d` once `progress` is skipped.
pub open spec fn remaining_duration(d: Option<u64>, progress: u64) -> Option<u64> {
    match d {
        Some(d) => Some(sat_sub(d, progress)),
        None => None,
    }
}

impl<T: BaseAnimation> Seek<T> {
    pub(crate) fn new(src: T, seek: SeekFrom) -> (r: Self)
        requires
            seek.valid_for(src.spec_duration()),
        ensures
            r.spec_duration() == remaining_duration(
                src.spec_duration(),
                seek.position(src.spec_duration()),
            ),
            forall|e: u64| #[trigger]
                r.spec_animate(e) == src.spec_animate(
                    sat_add(seek.position(src.spec_duration()), e),
                ),
    {
        let progress = match seek {
            SeekFrom::Begin(p) => p,
            SeekFrom::End(p) => {
                let d = src.duration().unwrap();
                sub_sat(d, p)
            },
            SeekFrom::Percent(p) => {
                let d = src.duration().unwrap();
                mul_duration(d, p)
            },
            SeekFrom::PercentFromEnd(p) => {
                let d = src.duration().unwrap();
                mul_duration(d, Ratio { num: p.den - p.num, den: p.den })
            },
        };
        Seek { src, progress }
    }
}

impl<T: BaseAnimation> BaseAnimation for Seek<T> {
    type Item = T::Item;

    closed spec fn spec_duration(&self) -> Option<u64> {
        remaining_duration(self.src.spec_duration(), self.progress)
    }

    closed spec fn spec_animate(&self, elapsed: u64) -> T::Item {
        self.src.spec_animate(sat_add(self.progress, elapsed))
    }

    proof fn lemma_holds_final(&self, elapsed: u64) {
        let full = self.spec_duration().unwrap();
        self.src.lemma_holds_final(sat_add(self.progress, elapsed));
        self.src.lemma_holds_final(sat_add(self.progress, full));
    }

    fn duration(&self) -> (r: Option<u64>) {
        match self.src.duration() {
            Some(d) => Some(sub_sat(d, self.progress)),
            None => None,
        }
    }

    fn animate(&self, elapsed: u64) -> (r: T::Item) {
        self.src.animate(add_sat(self.progress, elapsed))
    }
}

} // verus!
