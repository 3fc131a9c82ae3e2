//! The builder of primitive two-endpoint animations.
use vstd::prelude::*;
use crate::animatable::Animatable;
use crate::animation::primitive::{primitive_value, Primitive};
use crate::animation::BaseAnimation;
use crate::easing::{cubic_ease, Curve, Easing, EasingMode, Function};
use crate::progress::{mul_ratio, Ratio};
use crate::timeline::{begun, Timeline, TimelineId};
use crate::DEFAULT_ANIMATION_DURATION;

verus! {

/// How an animation repeats its simple duration.
#[derive(Clone, Copy, Debug, PartialEq, Eq, Structural)]
pub enum RepeatBehavior {
    /// The number of times the simple duration plays; it may be fractional.
    Count(Ratio),
    /// The animation repeats indefinitely.
    Forever,
}

impl RepeatBehavior {
    /// A repeat count has a non-zero denominator.
    pub open spec fn wf(self) -> bool {
        match self {
            RepeatBehavior::Count(c) => c.wf(),
            RepeatBehavior::Forever => true,
        }
    }

    /// The total duration of a source of simple duration `d` repeated this way.
    pub open spec fn total(self, d: Option<u64>) -> Option<u64> {
        match d {
            Some(d) => if d == 0 {
                Some(0u64)
            } else {
                match self {
                    RepeatBehavior::Count(c) => Some(mul_ratio(d, c)),
                    RepeatBehavior::Forever => None,
                }
            },
            None => None,
        }
    }
}

impl Default for RepeatBehavior {
    fn default() -> (r: RepeatBehavior)
        ensures
            r == RepeatBehavior::Count(Ratio { num: 1, den: 1 }),
    {
        RepeatBehavior::Count(Ratio { num: 1, den: 1 })
    }
}

/// Options of a primitive animation between two values.
#[derive(Clone, Copy, Debug)]
pub struct Options<T, E = Easing> {
    /// The value at the start.
    pub from: T,
    /// The value at the end.
    pub to: T,
    /// Whether the animation plays `from -> to -> from` within each cycle.
    pub auto_reverse: bool,
    /// Progress skipped at the start.
    pub skip: Option<u64>,
    /// Time waited before the animation starts.
    pub delay: Option<u64>,
    /// The simple duration: how long one cycle lasts.
    pub duration: u64,
    /// How the simple duration repeats.
    pub repeat: RepeatBehavior,
    /// The easing function of each cycle.
    pub easing: E,
}

impl<T, E> Options<T, E> {
    /// Options are well formed when the repeat count is.
    pub open spec fn wf(self) -> bool {
        self.repeat.wf()
    }

    /// The time skipped at the start, zero if unset.
    pub open spec fn skip_time(self) -> u64 {
        match self.skip {
            Some(s) => s,
            None => 0,
        }
    }

    /// The time waited before the start, zero if unset.
    pub open spec fn delay_time(self) -> u64 {
        match self.delay {
            Some(d) => d,
            None => 0,
        }
    }
}

impl<T: Animatable + Copy> Options<T, Easing> {
    /// Options for an animation from `from` to `to`: one second, played once,
    /// with cubic easing.
    pub fn new(from: T, to: T) -> (r: Self)
        ensures
            r.wf(),
            r.from == from,
            r.to == to,
            r.auto_reverse == false,
            r.skip.is_none(),
            r.delay.is_none(),
            r.duration == DEFAULT_ANIMATION_DURATION,
            r.repeat == RepeatBehavior::Count(Ratio { num: 1, den: 1 }),
            r.easing == (Easing { mode: EasingMode::In, curve: Curve::Pow(3) }),
    {
        Options {
            from,
            to,
            auto_reverse: false,
            skip: None,
            delay: None,
            duration: DEFAULT_ANIMATION_DURATION,
            repeat: RepeatBehavior::Count(Ratio { num: 1, den: 1 }),
            easing: cubic_ease(),
        }
    }

}

impl<T: Animatable + Copy, E: Function> Options<T, E> {
    /// Sets the start value.
    pub fn from(self, value: T) -> (r: Self)
        ensures
            r == (Options { from: value, ..self }),
    {
        Options { from: value, ..self }
    }

    /// Sets the end value.
    pub fn to(self, value: T) -> (r: Self)
        ensures
            r == (Options { to: value, ..self }),
    {
        Options { to: value, ..self }
    }

    /// Plays `from -> to -> from` within each cycle when set; this does not
    /// lengthen the animation.
    pub fn auto_reverse(self, auto_reverse: bool) -> (r: Self)
        ensures
            r == (Options { auto_reverse, ..self }),
    {
        Options { auto_reverse, ..self }
    }

    /// Older name of [`Options::skip`].
    pub fn begin_time(self, begin_time: u64) -> (r: Self)
        ensures
            r == (Options { skip: Some(begin_time), ..self }),
    {
        self.skip(begin_time)
    }

    /// Plays the animation from the given progress on.
    pub fn skip(self, skip: u64) -> (r: Self)
        ensures
            r == (Options { skip: Some(skip), ..self }),
    {
        Options { skip: Some(skip), ..self }
    }

    /// Waits before the animation starts; the wait happens once, not per cycle.
    pub fn delay(self, delay: u64) -> (r: Self)
        ensures
            r == (Options { delay: Some(delay), ..self }),
    {
        Options { delay: Some(delay), ..self }
    }

    /// Sets the simple duration, the length of one cycle.
    pub fn duration(self, duration: u64) -> (r: Self)
        ensures
            r == (Options { duration, ..self }),
    {
        Options { duration, ..self }
    }

    /// Sets how the animation repeats.
    pub fn repeat(self, behavior: RepeatBehavior) -> (r: Self)
        requires
            behavior.wf(),
        ensures
            r == (Options { repeat: behavior, ..self }),
    {
        Options { repeat: behavior, ..self }
    }

    /// Repeats indefinitely; same as [`Options::cycle`].
    pub fn forever(self) -> (r: Self)
        ensures
            r == (Options { repeat: RepeatBehavior::Forever, ..self }),
    {
        self.cycle()
    }

    /// Repeats indefinitely.
    pub fn cycle(self) -> (r: Self)
        ensures
            r == (Options { repeat: RepeatBehavior::Forever, ..self }),
    {
        Options { repeat: RepeatBehavior::Forever, ..self }
    }

    /// Repeats the simple duration `count` times.
    pub fn times(self, count: Ratio) -> (r: Self)
        requires
            count.wf(),
        ensures
            r == (Options { repeat: RepeatBehavior::Count(count), ..self }),
    {
        Options { repeat: RepeatBehavior::Count(count), ..self }
    }

    /// Sets the easing function: one of [`crate::easing`]'s curves, or the
    /// caller's own through [`crate::easing::custom`].
    pub fn easing<F: Function>(self, func: F) -> (r: Options<T, F>)
        ensures
            r == (Options {
                from: self.from,
                to: self.to,
                auto_reverse: self.auto_reverse,
                skip: self.skip,
                delay: self.delay,
                duration: self.duration,
                repeat: self.repeat,
                easing: func,
            }),
    {
        Options {
            from: self.from,
            to: self.to,
            auto_reverse: self.auto_reverse,
            skip: self.skip,
            delay: self.delay,
            duration: self.duration,
            repeat: self.repeat,
            easing: func,
        }
    }

    /// Builds the animation.
    pub fn build(self) -> (r: Primitive<T, E>)
        requires
            self.wf(),
        ensures
            r.spec_duration() == primitive_duration(self),
            forall|e: u64| #[trigger] r.spec_animate(e) == primitive_value(self, e),
    {
        Primitive::new(self)
    }
}

impl<T: Animatable + Copy + 'static, E: Function + 'static> Options<T, E> {
    /// Builds the animation and a timeline over it, started now.
    pub fn begin_animation(self, id: TimelineId) -> (r: Timeline<T>)
        requires
            self.wf(),
        ensures
            exists|now: u64| r.state() == begun(now),
            r.spec_id() == id,
            r.animation().spec_duration() == primitive_duration(self),
            forall|e: u64| #[trigger] r.animation().spec_animate(e) == primitive_value(self, e),
    {
        let mut timeline: Timeline<T> = Timeline::new(self.build(), id);
        timeline.begin();
        timeline
    }
}

/// The duration of the primitive animation built from `opt`: the simple
/// duration repeated, plus the delay, less the skipped progress.
pub open spec fn primitive_duration<T, E>(opt: Options<T, E>) -> Option<u64> {
    match opt.repeat.total(Some(opt.duration)) {
        Some(d) => Some(
            crate::progress::sat_sub(crate::progress::sat_add(d, opt.delay_time()), opt.skip_time()),
        ),
        None => None,
    }
}

} // verus!
