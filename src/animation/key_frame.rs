use vstd::prelude::*;
use super::BaseAnimation;
use crate::animatable::Animatable;
use crate::easing::{linear, Curve, Easing, EasingMode, Function};
use crate::progress::{mul_duration, mul_ratio, Progress, Ratio, PROGRESS_ONE};
use crate::DEFAULT_ANIMATION_DURATION;

verus! {

broadcast use vstd::seq_lib::to_multiset_insert, vstd::seq_lib::to_multiset_build;

/// When a key frame is reached.
#[derive(Clone, Copy, Debug, PartialEq, Eq, Structural)]
pub enum KeyTime {
    /// A time from the start.
    Duration(u64),
    /// A fraction of the whole animation.
    Percent(Ratio),
}

impl KeyTime {
    /// A fraction lies within `[0, 1]`.
    pub open spec fn wf(self) -> bool {
        match self {
            KeyTime::Duration(_) => true,
            KeyTime::Percent(p) => p.wf() && p.num <= p.den,
        }
    }

    /// The time of the key frame in an animation lasting `total`.
    pub open spec fn resolve(self, total: u64) -> u64 {
        match self {
            KeyTime::Duration(d) => d,
            KeyTime::Percent(p) => mul_ratio(total, p),
        }
    }
}

impl Default for KeyTime {
    fn default() -> (r: KeyTime)
        ensures
            r == KeyTime::Duration(0),
    {
        KeyTime::Duration(0)
    }
}

/// A value to reach at a given time, with the easing of the segment that
/// leads to it.
#[derive(Clone, Copy, Debug)]
pub struct KeyFrame<T, E = Easing> {
    pub value: T,
    pub key_time: KeyTime,
    pub easing: E,
}

impl<T> KeyFrame<T, Easing> {
    /// A key frame at time zero with linear easing.
    pub fn new(value: T) -> (r: Self)
        ensures
            r.value == value,
            r.key_time == KeyTime::Duration(0),
            r.easing == (Easing { mode: EasingMode::In, curve: Curve::Linear }),
    {
        KeyFrame { value, key_time: KeyTime::Duration(0), easing: linear() }
    }

    /// A key frame at `key_time` with linear easing.
    pub fn new_with_key_time(value: T, key_time: KeyTime) -> (r: Self)
        ensures
            r.value == value,
            r.key_time == key_time,
            r.easing == (Easing { mode: EasingMode::In, curve: Curve::Linear }),
    {
        KeyFrame { value, key_time, easing: linear() }
    }

}

impl<T, E: Function> KeyFrame<T, E> {
    /// Sets the value.
    pub fn value(self, value: T) -> (r: Self)
        ensures
            r == (KeyFrame { value, ..self }),
    {
        KeyFrame { value, ..self }
    }

    /// Sets the key time.
    pub fn key_time(self, key_time: KeyTime) -> (r: Self)
        ensures
            r == (KeyFrame { key_time, ..self }),
    {
        KeyFrame { key_time, ..self }
    }

    /// Places the key frame at a fraction of the whole animation.
    pub fn by_percentage(self, percent: Ratio) -> (r: Self)
        requires
            percent.wf(),
            percent.num <= percent.den,
        ensures
            r == (KeyFrame { key_time: KeyTime::Percent(percent), ..self }),
    {
        KeyFrame { key_time: KeyTime::Percent(percent), ..self }
    }

    /// Places the key frame at a time from the start.
    pub fn by_duration(self, duration: u64) -> (r: Self)
        ensures
            r == (KeyFrame { key_time: KeyTime::Duration(duration), ..self }),
    {
        KeyFrame { key_time: KeyTime::Duration(duration), ..self }
    }

    /// Sets the easing of the segment that ends at this key frame: one of
    /// [`crate::easing`]'s curves, or the caller's own through
    /// [`crate::easing::custom`].
    pub fn easing<F: Function>(self, func: F) -> (r: KeyFrame<T, F>)
        ensures
            r == (KeyFrame { value: self.value, key_time: self.key_time, easing: func }),
    {
        KeyFrame { value: self.value, key_time: self.key_time, easing: func }
    }
}

/// A key frame whose time has been resolved.
#[derive(Clone, Copy, Debug)]
pub struct KeyFrameInner<T, E = Easing> {
    pub value: T,
    pub key_time: u64,
    pub easing: E,
}

/// `frame` with its time resolved against an animation lasting `total`.
pub open spec fn resolve_frame<T, E>(frame: KeyFrame<T, E>, total: u64) -> KeyFrameInner<T, E> {
    KeyFrameInner { value: frame.value, key_time: frame.key_time.resolve(total), easing: frame.easing }
}

impl<T: Copy, E: Copy> KeyFrameInner<T, E> {
    /// Resolves the time of `src` against an animation lasting `duration`.
    fn cvt_from(src: &KeyFrame<T, E>, duration: u64) -> (r: Self)
        requires
            src.key_time.wf(),
        ensures
            r == resolve_frame(*src, duration),
    {
        let key_time = match src.key_time {
            KeyTime::Duration(d) => d,
            KeyTime::Percent(p) => mul_duration(duration, p),
        };
        KeyFrameInner { value: src.value, key_time, easing: src.easing }
    }
}

/// All of `frames` resolved against `total`, in their given order.
pub open spec fn resolve_frames<T, E>(frames: Seq<KeyFrame<T, E>>, total: u64) -> Seq<KeyFrameInner<T, E>> {
    frames.map_values(|f: KeyFrame<T, E>| resolve_frame(f, total))
}

/// The latest absolute key time among `frames`, if any is absolute.
pub open spec fn max_key_duration<T, E>(frames: Seq<KeyFrame<T, E>>) -> Option<u64>
    decreases frames.len(),
{
    if frames.len() == 0 {
        None
    } else {
        let rest = max_key_duration(frames.drop_last());
        match frames.last().key_time {
            KeyTime::Duration(d) => match rest {
                Some(m) => Some(if m >= d {
                    m
                } else {
                    d
                }),
                None => Some(d),
            },
            KeyTime::Percent(_) => rest,
        }
    }
}

/// The length of an animation over `frames`: the latest absolute key time,
/// or the default duration when no key time is absolute.
pub open spec fn key_frames_duration<T, E>(frames: Seq<KeyFrame<T, E>>) -> u64 {
    match max_key_duration(frames) {
        Some(d) => d,
        None => DEFAULT_ANIMATION_DURATION,
    }
}

/// Whether resolved frames are in ascending order of time.
pub open spec fn sorted_by_time<T, E>(frames: Seq<KeyFrameInner<T, E>>) -> bool {
    forall|a: int, b: int| 0 <= a < b < frames.len() ==> frames[a].key_time <= frames[b].key_time
}

/// Whether `i` is the position of the first frame after `elapsed`
/// (`frames.len()` when there is none).
pub open spec fn is_first_after<T, E>(frames: Seq<KeyFrameInner<T, E>>, elapsed: u64, i: int) -> bool {
    &&& 0 <= i <= frames.len()
    &&& forall|j: int| 0 <= j < i ==> frames[j].key_time <= elapsed
    &&& i < frames.len() ==> frames[i].key_time > elapsed
}

/// The position of the first frame after `elapsed`.
pub open spec fn first_after<T, E>(frames: Seq<KeyFrameInner<T, E>>, elapsed: u64) -> int {
    choose|i: int| is_first_after(frames, elapsed, i)
}

/// The value of a key-frame animation over sorted `frames` lasting `duration`
/// after `elapsed`: between two frames, the eased interpolation of the
/// segment; before the first or from the end on, the nearest frame's value.
pub open spec fn key_frame_value<T: Animatable, E: Function>(
    frames: Seq<KeyFrameInner<T, E>>,
    duration: u64,
    elapsed: u64,
) -> T {
    let i = first_after(frames, elapsed);
    if elapsed >= duration || i >= frames.len() {
        frames.last().value
    } else if i == 0 {
        frames[0].value
    } else {
        let a = frames[i - 1];
        let b = frames[i];
        let t = Progress {
            parts: ((elapsed - a.key_time) * PROGRESS_ONE / ((b.key_time - a.key_time) as int)) as u64,
        };
        T::interpolate(a.value, b.value, b.easing.spec_ease(t))
    }
}

/// `sorted` with `frame` inserted after every frame that is not later than
/// it.
pub open spec fn insert_by_time<T, E>(sorted: Seq<KeyFrameInner<T, E>>, frame: KeyFrameInner<T, E>) -> Seq<
    KeyFrameInner<T, E>,
> {
    sorted.insert(first_after(sorted, frame.key_time), frame)
}

/// `frames` sorted by time, frames with equal times in their given order:
/// each frame in turn is inserted after every frame not later than it.
pub open spec fn sort_by_time<T, E>(frames: Seq<KeyFrameInner<T, E>>) -> Seq<KeyFrameInner<T, E>>
    decreases frames.len(),
{
    if frames.len() == 0 {
        Seq::empty()
    } else {
        insert_by_time(sort_by_time(frames.drop_last()), frames.last())
    }
}

proof fn lemma_first_after_unique<T, E>(frames: Seq<KeyFrameInner<T, E>>, elapsed: u64, i: int)
    requires
        is_first_after(frames, elapsed, i),
    ensures
        first_after(frames, elapsed) == i,
{
    let k = first_after(frames, elapsed);
    assert(is_first_after(frames, elapsed, k));
    if k < i {
        assert(frames[k].key_time <= elapsed);
    } else if k > i {
        assert(frames[i].key_time <= elapsed);
    }
}

/// An animation through a sorted, non-empty list of key frames.
pub struct KeyFrameAnimation<T, E = Easing> {
    key_frames: Vec<KeyFrameInner<T, E>>,
    duration: u64,
}

impl<T, E> KeyFrameAnimation<T, E> {
    #[verifier::type_invariant]
    spec fn inv(self) -> bool {
        &&& self.key_frames@.len() > 0
        &&& sorted_by_time(self.key_frames@)
    }

    /// The resolved key frames, in ascending order of time.
    pub closed spec fn frames(&self) -> Seq<KeyFrameInner<T, E>> {
        self.key_frames@
    }
}

impl<T: Animatable + Copy, E: Function + Copy> KeyFrameAnimation<T, E> {
    /// A builder over `key_frames`.
    pub fn builder(key_frames: Vec<KeyFrame<T, E>>) -> (r: Builder<T, E>)
        ensures
            r.key_frames@ == key_frames@,
    {
        Builder { key_frames }
    }
}

impl<T: Animatable + Copy, E: Function + Copy> BaseAnimation for KeyFrameAnimation<T, E> {
    type Item = T;

    closed spec fn spec_duration(&self) -> Option<u64> {
        Some(self.duration)
    }

    closed spec fn spec_animate(&self, elapsed: u64) -> T {
        key_frame_value(self.key_frames@, self.duration, elapsed)
    }

    proof fn lemma_holds_final(&self, elapsed: u64) {
    }

    fn duration(&self) -> (r: Option<u64>) {
        Some(self.duration)
    }

    fn animate(&self, elapsed: u64) -> (r: T) {
        proof {
            use_type_invariant(self);
        }
        let frames = &self.key_frames;
        let n = frames.len();
        let mut i: usize = 0;
        while i < n && frames[i].key_time <= elapsed
            invariant
                n == frames@.len(),
                0 <= i <= n,
                forall|j: int| 0 <= j < i ==> frames@[j].key_time <= elapsed,
            decreases n - i,
        {
            i = i + 1;
        }
        proof {
            lemma_first_after_unique(frames@, elapsed, i as int);
        }
        if elapsed >= self.duration || i >= n {
            frames[n - 1].value
        } else if i == 0 {
            frames[0].value
        } else {
            let a = &frames[i - 1];
            let b = &frames[i];
            let delta = elapsed - a.key_time;
            let total = b.key_time - a.key_time;
            proof {
                crate::progress::lemma_mul_fits_u128(delta, PROGRESS_ONE);
                assert(delta * PROGRESS_ONE < total * PROGRESS_ONE) by (nonlinear_arith)
                    requires
                        delta < total,
                ;
                vstd::arithmetic::div_mod::lemma_div_is_ordered(
                    delta * PROGRESS_ONE,
                    total * PROGRESS_ONE,
                    total as int,
                );
                assert(total * PROGRESS_ONE / (total as int) == PROGRESS_ONE) by (nonlinear_arith)
                    requires
                        total > 0,
                ;
            }
            let p: u128 = (delta as u128) * (PROGRESS_ONE as u128) / (total as u128);
            let t = b.easing.ease(Progress { parts: p as u64 });
            a.value.animate(&b.value, t)
        }
    }
}

/// Collects key frames and builds the animation.
pub struct Builder<T, E = Easing> {
    pub key_frames: Vec<KeyFrame<T, E>>,
}

impl<T: Animatable + Copy, E: Function + Copy> Builder<T, E> {
    /// Adds a key frame.
    pub fn push(self, item: KeyFrame<T, E>) -> (r: Self)
        ensures
            r.key_frames@ == self.key_frames@.push(item),
    {
        let mut key_frames = self.key_frames;
        key_frames.push(item);
        Builder { key_frames }
    }

    /// Resolves every key time against the animation's length, then sorts
    /// the frames by time.
    pub fn build(self) -> (r: KeyFrameAnimation<T, E>)
        requires
            self.key_frames@.len() > 0,
            forall|i: int| 0 <= i < self.key_frames@.len() ==> #[trigger] self.key_frames@[i].key_time.wf(),
        ensures
            r.spec_duration() == Some(key_frames_duration(self.key_frames@)),
            r.frames() == sort_by_time(
                resolve_frames(self.key_frames@, key_frames_duration(self.key_frames@)),
            ),
            sorted_by_time(r.frames()),
            r.frames().to_multiset() == resolve_frames(
                self.key_frames@,
                key_frames_duration(self.key_frames@),
            ).to_multiset(),
            forall|e: u64| #[trigger]
                r.spec_animate(e) == key_frame_value(
                    r.frames(),
                    key_frames_duration(self.key_frames@),
                    e,
                ),
    {
        let frames = &self.key_frames;
        let n = frames.len();
        let mut max: Option<u64> = None;
        let mut i: usize = 0;
        while i < n
            invariant
                n == frames@.len(),
                0 <= i <= n,
                max == max_key_duration(frames@.take(i as int)),
            decreases n - i,
        {
            assert(frames@.take(i as int + 1).drop_last() == frames@.take(i as int));
            if let KeyTime::Duration(d) = frames[i].key_time {
                max = match max {
                    Some(m) => Some(if m >= d { m } else { d }),
                    None => Some(d),
                };
            }
            i = i + 1;
        }
        assert(frames@.take(n as int) == frames@);
        let total = match max {
            Some(d) => d,
            None => DEFAULT_ANIMATION_DURATION,
        };
        let ghost resolved = resolve_frames(frames@, total);
        let mut out: Vec<KeyFrameInner<T, E>> = Vec::new();
        assert(out@ =~= resolved.take(0));
        let mut i: usize = 0;
        while i < n
            invariant
                n == frames@.len(),
                0 <= i <= n,
                resolved == resolve_frames(frames@, total),
                forall|k: int| 0 <= k < n ==> #[trigger] frames@[k].key_time.wf(),
                sorted_by_time(out@),
                out@.len() == i,
                out@ == sort_by_time(resolved.take(i as int)),
                out@.to_multiset() == resolved.take(i as int).to_multiset(),
            decreases n - i,
        {
            assert(frames@[i as int].key_time.wf());
            let item = KeyFrameInner::cvt_from(&frames[i], total);
            let key_time = item.key_time;
            assert(item == resolved[i as int]);
            let len = out.len();
            let mut j: usize = 0;
            while j < len && out[j].key_time <= key_time
                invariant
                    len == out@.len(),
                    0 <= j <= len,
                    forall|k: int| 0 <= k < j ==> out@[k].key_time <= key_time,
                decreases len - j,
            {
                j = j + 1;
            }
            let ghost before = out@;
            proof {
                lemma_first_after_unique(before, key_time, j as int);
            }
            out.insert(j, item);
            proof {
                assert(resolved.take(i as int + 1) == resolved.take(i as int).push(item));
                assert(resolved.take(i as int + 1).drop_last() == resolved.take(i as int));
                assert forall|a: int, b: int| 0 <= a < b < out@.len() implies out@[a].key_time
                    <= out@[b].key_time by {
                    if b < j {
                    } else if b == j {
                    } else if a < j {
                        assert(before[j as int].key_time > key_time);
                    } else if a == j {
                        assert(before[j as int].key_time > key_time);
                        assert(out@[b] == before[b - 1]);
                    } else {
                        assert(out@[a] == before[a - 1]);
                        assert(out@[b] == before[b - 1]);
                    }
                }
            }
            i = i + 1;
        }
        assert(resolved.take(n as int) == resolved);
        KeyFrameAnimation { key_frames: out, duration: total }
    }
}

} // verus!
