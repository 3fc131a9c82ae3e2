//! Playback control: the timeline state machine.
use vstd::prelude::*;
use crate::animation::boxed::Boxed;
use crate::animation::{finished_at, is_finished, BaseAnimation};
use crate::clock::{Clock, DefaultClock};
use crate::progress::{add_sat, sat_add, sat_sub, sub_sat};

verus! {

/// The identifier of a timeline.
#[derive(Clone, Copy, Debug, PartialEq, Eq, Structural, Hash)]
pub struct TimelineId(pub usize);

/// Hands out timeline identifiers in increasing order, never twice.
#[derive(Debug)]
pub struct IdGenerator {
    next: usize,
}

impl IdGenerator {
    /// The identifier handed out next.
    pub closed spec fn spec_next(&self) -> usize {
        self.next
    }

    /// A generator whose first identifier is one.
    pub fn new() -> (r: IdGenerator)
        ensures
            r.spec_next() == 1,
    {
        IdGenerator { next: 1 }
    }

    /// Hands out the next identifier.
    pub fn next_id(&mut self) -> (r: TimelineId)
        requires
            old(self).spec_next() < usize::MAX,
        ensures
            r == TimelineId(old(self).spec_next()),
            final(self).spec_next() == old(self).spec_next() + 1,
    {
        let id = TimelineId(self.next);
        self.next = self.next + 1;
        id
    }
}

/// The status of a timeline.
#[derive(Clone, Copy, Debug, PartialEq, Eq, Structural)]
pub enum Status {
    /// Not started yet.
    Idle,
    /// In progress.
    Animating,
    /// Paused.
    Paused,
    /// Completed.
    Completed,
}

impl Status {
    /// Whether the animation has not started yet.
    pub fn is_idle(&self) -> (r: bool)
        ensures
            r == (*self == Status::Idle),
    {
        *self == Status::Idle
    }

    /// Whether the animation is in progress.
    pub fn is_animating(&self) -> (r: bool)
        ensures
            r == (*self == Status::Animating),
    {
        *self == Status::Animating
    }

    /// Whether the animation is paused.
    pub fn is_paused(&self) -> (r: bool)
        ensures
            r == (*self == Status::Paused),
    {
        *self == Status::Paused
    }

    /// Whether the animation is completed.
    pub fn is_completed(&self) -> (r: bool)
        ensures
            r == (*self == Status::Completed),
    {
        *self == Status::Completed
    }
}

/// The play state of a timeline. `elapsed` is the play time accumulated
/// before the current open interval, if any.
#[derive(Clone, Copy, Debug, PartialEq, Eq, Structural)]
pub enum State {
    /// Not started yet.
    Idle,
    /// Playing since clock reading `time`.
    Animating { time: u64, elapsed: Option<u64> },
    /// Paused.
    Paused { elapsed: Option<u64> },
    /// Completed, frozen at the accumulated time.
    Completed { elapsed: Option<u64> },
}

/// `Some(d)` as `d`, `None` as zero.
pub open spec fn or_zero(v: Option<u64>) -> u64 {
    match v {
        Some(d) => d,
        None => 0,
    }
}

/// The total play time in state `s` at clock reading `now`: the accumulated
/// time, plus the open interval while animating.
pub open spec fn accumulated(s: State, now: u64) -> u64 {
    match s {
        State::Idle => 0,
        State::Animating { time, elapsed } => sat_add(or_zero(elapsed), sat_sub(now, time)),
        State::Paused { elapsed } => or_zero(elapsed),
        State::Completed { elapsed } => or_zero(elapsed),
    }
}

/// The status reported in state `s`.
pub open spec fn status_of(s: State) -> Status {
    match s {
        State::Idle => Status::Idle,
        State::Animating { .. } => Status::Animating,
        State::Paused { .. } => Status::Paused,
        State::Completed { .. } => Status::Completed,
    }
}

/// The state after a (re)start at `now`: playing, with nothing accumulated.
pub open spec fn begun(now: u64) -> State {
    State::Animating { time: now, elapsed: None }
}

/// The state after a pause at `now`: only a playing timeline pauses, folding
/// its open interval into the accumulated time.
pub open spec fn paused(s: State, now: u64) -> State {
    match s {
        State::Animating { .. } => State::Paused { elapsed: Some(accumulated(s, now)) },
        _ => s,
    }
}

/// The state after a resume at `now`: a paused timeline reopens an interval
/// and keeps its accumulated time; any other one restarts.
pub open spec fn resumed(s: State, now: u64) -> State {
    match s {
        State::Paused { elapsed } => State::Animating { time: now, elapsed },
        _ => begun(now),
    }
}

/// The state after a stop at `now`: a playing or paused timeline completes,
/// frozen at its accumulated time.
pub open spec fn stopped(s: State, now: u64) -> State {
    match s {
        State::Animating { .. } => State::Completed { elapsed: Some(accumulated(s, now)) },
        State::Paused { elapsed } => State::Completed { elapsed },
        _ => s,
    }
}

/// The state after a reset: a completed timeline forgets its progress.
pub open spec fn reset_state(s: State) -> State {
    match s {
        State::Completed { .. } => State::Completed { elapsed: None },
        _ => s,
    }
}

/// The state after an update at `now` of a timeline whose animation lasts
/// `d`: a playing timeline whose animation has finished completes.
pub open spec fn updated(s: State, now: u64, d: Option<u64>) -> State {
    match s {
        State::Animating { .. } => if finished_at(d, accumulated(s, now)) {
            State::Completed { elapsed: Some(accumulated(s, now)) }
        } else {
            s
        },
        _ => s,
    }
}

/// Controls the playback of an animation.
#[verifier::reject_recursive_types(T)]
pub struct Timeline<T, C = DefaultClock> {
    id: TimelineId,
    animation: Boxed<T>,
    state: State,
    clock: C,
}

impl<T, C: Clock> Timeline<T, C> {
    /// The play state.
    pub closed spec fn state(&self) -> State {
        self.state
    }

    /// The animation played.
    pub closed spec fn animation(&self) -> Boxed<T> {
        self.animation
    }

    /// The identifier.
    pub closed spec fn spec_id(&self) -> TimelineId {
        self.id
    }

    /// This timeline in state `state`, all else unchanged.
    pub closed spec fn with_state(&self, state: State) -> Self {
        Timeline { id: self.id, animation: self.animation, state, clock: self.clock }
    }

    /// The value at clock reading `now`.
    pub open spec fn spec_value(&self, now: u64) -> T {
        self.animation().spec_animate(accumulated(self.state(), now))
    }

    /// An idle timeline over `animation`.
    pub fn new<F: BaseAnimation<Item = T> + 'static>(animation: F, id: TimelineId) -> (r: Self)
        where
            C: Default,
        ensures
            r.state() == State::Idle,
            r.spec_id() == id,
            r.animation().spec_duration() == animation.spec_duration(),
            forall|e: u64| #[trigger] r.animation().spec_animate(e) == animation.spec_animate(e),
    {
        Timeline { id, animation: Boxed::new(animation), state: State::Idle, clock: C::default() }
    }

    /// The clock that the timeline reads.
    pub fn clock(&self) -> &C {
        &self.clock
    }

    /// The clock that the timeline reads, for adjusting it.
    pub fn clock_mut(&mut self) -> &mut C {
        &mut self.clock
    }

    /// The identifier.
    pub fn id(&self) -> (r: TimelineId)
        ensures
            r == self.spec_id(),
    {
        self.id
    }

    /// (Re)starts the animation at clock reading `now`, from zero.
    pub fn begin_at(&mut self, now: u64)
        ensures
            final(self).state() == begun(now),
            final(self).animation() == old(self).animation(),
            final(self).spec_id() == old(self).spec_id(),
    {
        self.state = State::Animating { time: now, elapsed: None };
    }

    /// (Re)starts the animation now, from zero.
    pub fn begin(&mut self)
        ensures
            exists|now: u64| final(self).state() == begun(now),
            final(self).animation() == old(self).animation(),
            final(self).spec_id() == old(self).spec_id(),
    {
        let now = self.clock.now();
        self.begin_at(now);
    }

    /// Stops the animation at clock reading `now`, freezing its progress.
    pub fn stop_at(&mut self, now: u64)
        ensures
            final(self).state() == stopped(old(self).state(), now),
            final(self).animation() == old(self).animation(),
            final(self).spec_id() == old(self).spec_id(),
    {
        match self.state {
            State::Animating { time, elapsed } => {
                let total = add_sat(or_zero_of(elapsed), sub_sat(now, time));
                self.state = State::Completed { elapsed: Some(total) };
            },
            State::Paused { elapsed } => {
                self.state = State::Completed { elapsed };
            },
            _ => {},
        }
    }

    /// Stops the animation now, freezing its progress.
    pub fn stop(&mut self)
        ensures
            exists|now: u64| final(self).state() == stopped(old(self).state(), now),
            final(self).animation() == old(self).animation(),
            final(self).spec_id() == old(self).spec_id(),
    {
        let now = self.clock.now();
        self.stop_at(now);
    }

    /// Pauses the animation at clock reading `now`, if it is playing.
    pub fn pause_at(&mut self, now: u64)
        ensures
            final(self).state() == paused(old(self).state(), now),
            final(self).animation() == old(self).animation(),
            final(self).spec_id() == old(self).spec_id(),
    {
        if let State::Animating { time, elapsed } = self.state {
            let total = add_sat(or_zero_of(elapsed), sub_sat(now, time));
            self.state = State::Paused { elapsed: Some(total) };
        }
    }

    /// Pauses the animation now, if it is playing.
    pub fn pause(&mut self)
        ensures
            exists|now: u64| final(self).state() == paused(old(self).state(), now),
            final(self).animation() == old(self).animation(),
            final(self).spec_id() == old(self).spec_id(),
    {
        let now = self.clock.now();
        self.pause_at(now);
    }

    /// Resumes a paused animation at clock reading `now`; restarts any other.
    pub fn resume_at(&mut self, now: u64)
        ensures
            final(self).state() == resumed(old(self).state(), now),
            final(self).animation() == old(self).animation(),
            final(self).spec_id() == old(self).spec_id(),
    {
        match self.state {
            State::Paused { elapsed } => {
                self.state = State::Animating { time: now, elapsed };
            },
            _ => self.begin_at(now),
        }
    }

    /// Resumes a paused animation now; restarts any other.
    pub fn resume(&mut self)
        ensures
            exists|now: u64| final(self).state() == resumed(old(self).state(), now),
            final(self).animation() == old(self).animation(),
            final(self).spec_id() == old(self).spec_id(),
    {
        let now = self.clock.now();
        self.resume_at(now);
    }

    /// Clears the progress kept by a completed animation.
    pub fn reset(&mut self)
        ensures
            final(self).state() == reset_state(old(self).state()),
            final(self).animation() == old(self).animation(),
            final(self).spec_id() == old(self).spec_id(),
    {
        if let State::Completed { .. } = self.state {
            self.state = State::Completed { elapsed: None };
        }
    }

    /// The status of the animation.
    pub fn status(&self) -> (r: Status)
        ensures
            r == status_of(self.state()),
    {
        match self.state {
            State::Idle => Status::Idle,
            State::Animating { .. } => Status::Animating,
            State::Paused { .. } => Status::Paused,
            State::Completed { .. } => Status::Completed,
        }
    }

    /// The value at clock reading `now`; the timeline is not changed.
    pub fn value_at(&self, now: u64) -> (r: T)
        ensures
            r == self.spec_value(now),
    {
        let elapsed = match self.state {
            State::Idle => 0,
            State::Animating { time, elapsed } => add_sat(or_zero_of(elapsed), sub_sat(now, time)),
            State::Paused { elapsed } => or_zero_of(elapsed),
            State::Completed { elapsed } => or_zero_of(elapsed),
        };
        self.animation.animate(elapsed)
    }

    /// The current value; the timeline is not changed.
    pub fn value(&self) -> (r: T)
        ensures
            exists|now: u64| r == self.spec_value(now),
    {
        let now = self.clock.now();
        self.value_at(now)
    }

    /// Advances the timeline to clock reading `now`: a playing timeline whose
    /// animation has finished completes. Returns the new status.
    pub fn update_at(&mut self, now: u64) -> (r: Status)
        ensures
            *final(self) == old(self).with_state(
                updated(old(self).state(), now, old(self).animation().spec_duration()),
            ),
            final(self).state() == updated(
                old(self).state(),
                now,
                old(self).animation().spec_duration(),
            ),
            r == status_of(final(self).state()),
            final(self).animation() == old(self).animation(),
            final(self).spec_id() == old(self).spec_id(),
    {
        match self.state {
            State::Animating { time, elapsed } => {
                let total = add_sat(or_zero_of(elapsed), sub_sat(now, time));
                if is_finished(&self.animation, total) {
                    self.state = State::Completed { elapsed: Some(total) };
                    Status::Completed
                } else {
                    Status::Animating
                }
            },
            State::Idle => Status::Idle,
            State::Paused { .. } => Status::Paused,
            State::Completed { .. } => Status::Completed,
        }
    }

    /// Advances the timeline to the current time. Returns the new status.
    pub fn update(&mut self) -> (r: Status)
        ensures
            exists|now: u64|
                final(self).state() == updated(
                    old(self).state(),
                    now,
                    old(self).animation().spec_duration(),
                ),
            r == status_of(final(self).state()),
            final(self).animation() == old(self).animation(),
            final(self).spec_id() == old(self).spec_id(),
    {
        let now = self.clock.now();
        self.update_at(now)
    }

    /// Older name of [`Timeline::update_at`].
    pub fn update_with_time(&mut self, now: u64) -> (r: Status)
        ensures
            final(self).state() == updated(
                old(self).state(),
                now,
                old(self).animation().spec_duration(),
            ),
            r == status_of(final(self).state()),
            final(self).animation() == old(self).animation(),
            final(self).spec_id() == old(self).spec_id(),
    {
        self.update_at(now)
    }
}

fn or_zero_of(v: Option<u64>) -> (r: u64)
    ensures
        r == or_zero(v),
{
    match v {
        Some(d) => d,
        None => 0,
    }
}

/// Changing the state of a timeline keeps its animation and identifier.
pub proof fn lemma_with_state<T, C: Clock>(timeline: Timeline<T, C>, state: State)
    ensures
        timeline.with_state(state).state() == state,
        timeline.with_state(state).animation() == timeline.animation(),
        timeline.with_state(state).spec_id() == timeline.spec_id(),
{
}

/// Pausing and resuming keeps the progress: the time spent paused does not
/// count. After a pause at `t_pause` and a resume at `t_resume`, the play time
/// at `now` is the play time at the pause plus the time since the resume.
pub proof fn lemma_pause_resume_keeps_progress(s: State, t_pause: u64, t_resume: u64, now: u64)
    requires
        s matches State::Animating { time, .. } && time <= t_pause,
        t_pause <= t_resume <= now,
        accumulated(s, t_pause) + (now - t_resume) <= u64::MAX,
    ensures
        accumulated(resumed(paused(s, t_pause), t_resume), now) == accumulated(s, t_pause) + (now
            - t_resume),
        status_of(paused(s, t_pause)) == Status::Paused,
        status_of(resumed(paused(s, t_pause), t_resume)) == Status::Animating,
{
}

/// Reading the value does not depend on when it is read unless the timeline
/// is playing: idle, paused and completed timelines yield the same value at
/// every clock reading.
pub proof fn lemma_reads_stable_unless_playing(s: State, now1: u64, now2: u64)
    requires
        status_of(s) != Status::Animating,
    ensures
        accumulated(s, now1) == accumulated(s, now2),
{
}

} // verus!
