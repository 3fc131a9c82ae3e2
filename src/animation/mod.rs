//! Animation nodes: pure functions from elapsed time to a value, and the
//! combinators that compose them.
use vstd::prelude::*;

pub mod boxed;
pub mod cache;
pub mod chain;
pub mod constant;
pub mod delay;
pub mod key_frame;
pub mod map;
pub mod parallel;
pub mod primitive;
pub mod repeat;
pub mod scale;
pub mod seek;
pub mod skip;
pub mod step;
pub mod take;

use self::cache::Cache;
use self::chain::{chained_duration, chained_value, Chain};
use self::constant::Constant;
use self::delay::{delayed_duration, Delay};
use self::key_frame::{
    key_frame_value, key_frames_duration, resolve_frames, sort_by_time, sorted_by_time, KeyFrame,
    KeyFrameAnimation,
};
use self::map::{is_pure_fn, Mapped};
use self::parallel::{parallel_duration, Parallel};
use self::primitive::{primitive_value, Primitive};
use self::repeat::{repeated_value, Repeat};
use self::scale::{scaled_duration, scaled_time, Scale};
use self::seek::{remaining_duration, Seek, SeekFrom};
use self::step::{step_position, steps_duration, Cursor, Infinite, StepAnimation};
use self::take::{taken_duration, Take};
use crate::animatable::Animatable;
use crate::easing::{linear as linear_easing, Curve, Easing, EasingMode, Function};
use crate::options::{primitive_duration, Options, RepeatBehavior};
use crate::progress::{cap, sat_add, sat_sub, Progress, Ratio, PROGRESS_ONE};
use crate::NANOS_PER_MILLI;

verus! {

/// An animation node: a total duration and a value for every elapsed time.
pub trait BaseAnimation {
    /// The animated value.
    type Item;

    /// How long the animation lasts; `None` means it never finishes.
    spec fn spec_duration(&self) -> Option<u64>;

    /// The value after `elapsed` nanoseconds.
    spec fn spec_animate(&self, elapsed: u64) -> Self::Item;

    /// Past its duration an animation holds its final value: the value at
    /// any later time is the value at the duration.
    proof fn lemma_holds_final(&self, elapsed: u64)
        requires
            self.spec_duration() matches Some(d) && elapsed >= d,
        ensures
            self.spec_animate(elapsed) == self.spec_animate(self.spec_duration().unwrap()),
    ;

    /// How long the animation lasts; `None` means it never finishes.
    fn duration(&self) -> (r: Option<u64>)
        ensures
            r == self.spec_duration(),
    ;

    /// Outputs the animated value after `elapsed` nanoseconds.
    fn animate(&self, elapsed: u64) -> (r: Self::Item)
        ensures
            r == self.spec_animate(elapsed),
    ;
}

/// Composes animations. Every method wraps `self` and never changes it.
pub trait Animation: BaseAnimation + Sized {
    /// Delays the animation by `delay`.
    fn delay(self, delay: u64) -> (r: Delay<Self>)
        ensures
            r.spec_duration() == delayed_duration(self.spec_duration(), delay),
            forall|e: u64| #[trigger] r.spec_animate(e) == self.spec_animate(sat_sub(e, delay)),
    {
        Delay::new(self, delay)
    }

    /// Delays the animation by `millis` milliseconds.
    fn delay_ms(self, millis: u64) -> (r: Delay<Self>)
        ensures
            r.spec_duration() == delayed_duration(
                self.spec_duration(),
                cap(millis * NANOS_PER_MILLI),
            ),
            forall|e: u64| #[trigger]
                r.spec_animate(e) == self.spec_animate(sat_sub(e, cap(millis * NANOS_PER_MILLI))),
    {
        let delay = if millis > u64::MAX / NANOS_PER_MILLI {
            u64::MAX
        } else {
            millis * NANOS_PER_MILLI
        };
        Delay::new(self, delay)
    }

    /// Starts the animation `progress` into itself.
    fn skip(self, progress: u64) -> (r: Seek<Self>)
        ensures
            r.spec_duration() == remaining_duration(self.spec_duration(), progress),
            forall|e: u64| #[trigger] r.spec_animate(e) == self.spec_animate(sat_add(progress, e)),
    {
        Seek::new(self, SeekFrom::Begin(progress))
    }

    /// Starts the animation at the position `seek` names; seeking from the end
    /// or by a fraction needs a finite duration.
    fn seek(self, seek: SeekFrom) -> (r: Seek<Self>)
        requires
            seek.valid_for(self.spec_duration()),
        ensures
            r.spec_duration() == remaining_duration(
                self.spec_duration(),
                seek.position(self.spec_duration()),
            ),
            forall|e: u64| #[trigger]
                r.spec_animate(e) == self.spec_animate(
                    sat_add(seek.position(self.spec_duration()), e),
                ),
    {
        Seek::new(self, seek)
    }

    /// Starts the animation a fraction `percent` into itself; needs a finite
    /// duration.
    fn seek_by(self, percent: Ratio) -> (r: Seek<Self>)
        requires
            SeekFrom::Percent(percent).valid_for(self.spec_duration()),
        ensures
            r.spec_duration() == remaining_duration(
                self.spec_duration(),
                SeekFrom::Percent(percent).position(self.spec_duration()),
            ),
            forall|e: u64| #[trigger]
                r.spec_animate(e) == self.spec_animate(
                    sat_add(SeekFrom::Percent(percent).position(self.spec_duration()), e),
                ),
    {
        Seek::new(self, SeekFrom::Percent(percent))
    }

    /// Transforms every value with the pure function `f`.
    fn map<F: Fn(Self::Item) -> T, T>(self, f: F) -> (r: Mapped<Self, F, T>)
        requires
            is_pure_fn(f),
        ensures
            r.spec_duration() == self.spec_duration(),
            forall|e: u64, y: T| #[trigger]
                f.ensures((self.spec_animate(e),), y) ==> r.spec_animate(e) == y,
    {
        Mapped::new(self, f)
    }

    /// Plays `other` once this animation has finished.
    fn chain<Other: BaseAnimation<Item = Self::Item>>(self, other: Other) -> (r: Chain<Self, Other>)
        ensures
            r.spec_duration() == chained_duration(self.spec_duration(), other.spec_duration()),
            forall|e: u64| #[trigger] r.spec_animate(e) == chained_value(self, other, e),
    {
        Chain::new(self, other)
    }

    /// Keeps the first `duration` of the animation.
    fn take(self, duration: u64) -> (r: Take<Self>)
        ensures
            r.spec_duration() == Some(taken_duration(self.spec_duration(), duration)),
            forall|e: u64| #[trigger]
                r.spec_animate(e) == self.spec_animate(
                    if e > taken_duration(self.spec_duration(), duration) {
                        taken_duration(self.spec_duration(), duration)
                    } else {
                        e
                    },
                ),
    {
        Take::new(self, duration)
    }

    /// Divides elapsed time by `scale`: above one slows the animation down,
    /// below one speeds it up, zero makes it instantaneous.
    fn scale(self, scale: Ratio) -> (r: Scale<Self>)
        requires
            scale.wf(),
        ensures
            r.spec_duration() == scaled_duration(self.spec_duration(), scale),
            forall|e: u64| #[trigger]
                r.spec_animate(e) == self.spec_animate(scaled_time(self.spec_duration(), scale, e)),
    {
        Scale::new(self, scale)
    }

    /// Speeds the animation up by a positive `ratio`: scales by its inverse.
    fn speed_up(self, ratio: Ratio) -> (r: Scale<Self>)
        requires
            ratio.wf(),
            ratio.num > 0,
        ensures
            r.spec_duration() == scaled_duration(
                self.spec_duration(),
                Ratio { num: ratio.den, den: ratio.num },
            ),
            forall|e: u64| #[trigger]
                r.spec_animate(e) == self.spec_animate(
                    scaled_time(self.spec_duration(), Ratio { num: ratio.den, den: ratio.num }, e),
                ),
    {
        Scale::new(self, Ratio { num: ratio.den, den: ratio.num })
    }

    /// Repeats the animation as `repeat` says.
    fn repeat(self, repeat: RepeatBehavior) -> (r: Repeat<Self>)
        requires
            repeat.wf(),
        ensures
            r.spec_duration() == repeat.total(self.spec_duration()),
            forall|e: u64| #[trigger]
                r.spec_animate(e) == repeated_value(self, repeat.total(self.spec_duration()), e),
    {
        Repeat::new(self, repeat)
    }

    /// Repeats the animation `count` times.
    fn times(self, count: Ratio) -> (r: Repeat<Self>)
        requires
            count.wf(),
        ensures
            r.spec_duration() == RepeatBehavior::Count(count).total(self.spec_duration()),
            forall|e: u64| #[trigger]
                r.spec_animate(e) == repeated_value(
                    self,
                    RepeatBehavior::Count(count).total(self.spec_duration()),
                    e,
                ),
    {
        Repeat::new(self, RepeatBehavior::Count(count))
    }

    /// Repeats the animation indefinitely; same as [`Animation::cycle`].
    fn forever(self) -> (r: Repeat<Self>)
        ensures
            r.spec_duration() == RepeatBehavior::Forever.total(self.spec_duration()),
            forall|e: u64| #[trigger]
                r.spec_animate(e) == repeated_value(
                    self,
                    RepeatBehavior::Forever.total(self.spec_duration()),
                    e,
                ),
    {
        self.cycle()
    }

    /// Repeats the animation indefinitely.
    fn cycle(self) -> (r: Repeat<Self>)
        ensures
            r.spec_duration() == RepeatBehavior::Forever.total(self.spec_duration()),
            forall|e: u64| #[trigger]
                r.spec_animate(e) == repeated_value(
                    self,
                    RepeatBehavior::Forever.total(self.spec_duration()),
                    e,
                ),
    {
        Repeat::new(self, RepeatBehavior::Forever)
    }

    /// Plays `other` at the same time, producing pairs, until the longer one
    /// finishes.
    fn parallel<Other: BaseAnimation>(self, other: Other) -> (r: Parallel<Self, Other>)
        ensures
            r.spec_duration() == parallel_duration(self.spec_duration(), other.spec_duration()),
            forall|e: u64| #[trigger]
                r.spec_animate(e) == (self.spec_animate(e), other.spec_animate(e)),
    {
        Parallel::new(self, other)
    }

    /// Same as [`Animation::parallel`].
    fn zip<Other: BaseAnimation>(self, other: Other) -> (r: Parallel<Self, Other>)
        ensures
            r.spec_duration() == parallel_duration(self.spec_duration(), other.spec_duration()),
            forall|e: u64| #[trigger]
                r.spec_animate(e) == (self.spec_animate(e), other.spec_animate(e)),
    {
        Parallel::new(self, other)
    }

    /// Memoizes the most recent value.
    fn cached(self) -> (r: Cache<Self>)
        where
            Self::Item: Copy,
        ensures
            r.source() == self,
            r.spec_duration() == self.spec_duration(),
            forall|e: u64| #[trigger]
                r.spec_animate(e) == self.spec_animate(clamp_to(e, self.spec_duration())),
    {
        Cache::new(self)
    }
}

impl<A: BaseAnimation> Animation for A {
}

/// An animation that can be cloned.
pub trait AnimationClone: Animation + Clone {
}

impl<A: Animation + Clone> AnimationClone for A {
}

/// The options of [`linear`] over `duration`.
pub open spec fn linear_options(duration: u64) -> Options<Progress> {
    Options {
        from: Progress { parts: 0 },
        to: Progress { parts: PROGRESS_ONE },
        auto_reverse: false,
        skip: None,
        delay: None,
        duration,
        repeat: RepeatBehavior::Count(Ratio { num: 1, den: 1 }),
        easing: Easing { mode: EasingMode::In, curve: Curve::Linear },
    }
}

/// A linear animation of normalized time: from zero to one over `duration`.
pub fn linear(duration: u64) -> (r: Primitive<Progress>)
    ensures
        r.spec_duration() == primitive_duration(linear_options(duration)),
        forall|e: u64| #[trigger] r.spec_animate(e) == primitive_value(linear_options(duration), e),
{
    Options::new(Progress::zero(), Progress::one()).auto_reverse(false).easing(
        linear_easing(),
    ).duration(duration).build()
}

/// An animation that outputs `value` throughout `duration`.
pub fn constant<T: Copy>(value: T, duration: u64) -> (r: Constant<T>)
    ensures
        r.spec_duration() == Some(duration),
        forall|e: u64| #[trigger] r.spec_animate(e) == value,
{
    Constant::new(value, duration)
}

/// An animation through key frames; see [`Builder::build`].
pub fn key_frames<T: Animatable + Copy, E: Function + Copy>(frames: Vec<KeyFrame<T, E>>) -> (r: KeyFrameAnimation<T, E>)
    requires
        frames@.len() > 0,
        forall|i: int| 0 <= i < frames@.len() ==> #[trigger] frames@[i].key_time.wf(),
    ensures
        r.spec_duration() == Some(key_frames_duration(frames@)),
        r.frames() == sort_by_time(resolve_frames(frames@, key_frames_duration(frames@))),
        sorted_by_time(r.frames()),
        r.frames().to_multiset() == resolve_frames(
            frames@,
            key_frames_duration(frames@),
        ).to_multiset(),
        forall|e: u64| #[trigger]
            r.spec_animate(e) == key_frame_value(r.frames(), key_frames_duration(frames@), e),
{
    KeyFrameAnimation::builder(frames).build()
}

/// Steps through a non-empty sequence, one item per `interval`.
pub fn steps<T: Cursor>(src: T, interval: u64) -> (r: StepAnimation<T>)
    requires
        src.spec_size() != Some(0usize),
    ensures
        r.source() == src,
        r.spec_interval() == interval,
        r.spec_duration() == steps_duration(src.spec_size(), interval),
        forall|e: u64| #[trigger]
            r.spec_animate(e) == src.spec_index(step_position(src.spec_size(), interval, e)),
{
    StepAnimation::new(src).interval(interval)
}

/// Steps through the infinite sequence `f(0), f(1), ...`, one item per
/// `interval`.
pub fn steps_infinite<F: Fn(usize) -> T, T>(f: F, interval: u64) -> (r: StepAnimation<Infinite<F, T>>)
    requires
        is_pure_fn(f),
    ensures
        r.spec_interval() == interval,
        r.spec_duration() == steps_duration(None, interval),
        forall|e: u64, y: T| #[trigger]
            f.ensures((step_position(None, interval, e),), y) ==> r.spec_animate(e) == y,
{
    let src = Infinite::new(f);
    StepAnimation::new(src).interval(interval)
}

/// Whether an animation of duration `d` has finished after `elapsed`.
pub open spec fn finished_at(d: Option<u64>, elapsed: u64) -> bool {
    match d {
        Some(d) => elapsed >= d,
        None => false,
    }
}

/// `elapsed`, clamped to the duration `d` when there is one.
pub open spec fn clamp_to(elapsed: u64, d: Option<u64>) -> u64 {
    match d {
        Some(d) => if elapsed > d {
            d
        } else {
            elapsed
        },
        None => elapsed,
    }
}

pub(crate) fn is_finished<A: BaseAnimation>(a: &A, elapsed: u64) -> (r: bool)
    ensures
        r == finished_at(a.spec_duration(), elapsed),
{
    match a.duration() {
        Some(d) => elapsed >= d,
        None => false,
    }
}

pub(crate) fn clamp(elapsed: u64, d: Option<u64>) -> (r: u64)
    ensures
        r == clamp_to(elapsed, d),
{
    match d {
        Some(d) => if elapsed > d {
            d
        } else {
            elapsed
        },
        None => elapsed,
    }
}

} // verus!
