//! Scheduling many timelines: the control interface of a timeline and a
//! registry that updates the active ones together.
use vstd::prelude::*;
use crate::animation::BaseAnimation;
use crate::clock::Clock;
use crate::timeline::{lemma_with_state, status_of, updated, Status, Timeline, TimelineId};

verus! {

/// What a scheduler needs of a timeline.
pub trait TimelineControl: Sized {
    /// The identifier.
    spec fn spec_timeline_id(&self) -> TimelineId;

    /// The identifier.
    fn id(&self) -> (r: TimelineId)
        ensures
            r == self.spec_timeline_id(),
    ;

    /// The status.
    spec fn spec_status(&self) -> Status;

    /// The timeline after an update at clock reading `time`.
    spec fn after_update(&self, time: u64) -> Self;

    /// The timeline after it has left a scheduler.
    spec fn after_remove(&self) -> Self;

    /// Advances the timeline to clock reading `time` and reports its status.
    fn update(&mut self, time: u64) -> (r: Status)
        ensures
            *final(self) == old(self).after_update(time),
            final(self).spec_timeline_id() == old(self).spec_timeline_id(),
            r == final(self).spec_status(),
    ;

    /// Called when the timeline enters a scheduler.
    fn on_schedule(&mut self)
        ensures
            final(self).spec_timeline_id() == old(self).spec_timeline_id(),
            final(self).spec_status() == old(self).spec_status(),
    ;

    /// Called when the timeline leaves a scheduler.
    fn on_remove(&mut self)
        ensures
            *final(self) == old(self).after_remove(),
            final(self).spec_timeline_id() == old(self).spec_timeline_id(),
            final(self).spec_status() == old(self).spec_status(),
    ;
}

impl<T, C: Clock> TimelineControl for Timeline<T, C> {
    open spec fn spec_timeline_id(&self) -> TimelineId {
        self.spec_id()
    }

    open spec fn spec_status(&self) -> Status {
        status_of(self.state())
    }

    open spec fn after_update(&self, time: u64) -> Self {
        self.with_state(updated(self.state(), time, self.animation().spec_duration()))
    }

    open spec fn after_remove(&self) -> Self {
        *self
    }

    fn id(&self) -> (r: TimelineId) {
        Timeline::id(self)
    }

    fn update(&mut self, time: u64) -> (r: Status) {
        let r = self.update_at(time);
        proof {
            lemma_with_state(*old(self), updated(old(self).state(), time, old(self).animation().spec_duration()));
        }
        r
    }

    fn on_schedule(&mut self) {
    }

    fn on_remove(&mut self) {
    }
}

/// A registry of timelines, each identifier at most once.
pub trait TimelineScheduler {
    /// The timelines held.
    type Timeline: TimelineControl;

    /// The identifiers of the timelines held, in order of scheduling.
    spec fn scheduled_ids(&self) -> Seq<TimelineId>;

    /// No identifier is held twice.
    spec fn wf(&self) -> bool;

    /// Adds `timeline` unless one with its identifier is already held.
    fn schedule(&mut self, timeline: Self::Timeline)
        requires
            old(self).wf(),
        ensures
            final(self).wf(),
            old(self).scheduled_ids().contains(timeline.spec_timeline_id())
                ==> final(self).scheduled_ids() == old(self).scheduled_ids(),
            !old(self).scheduled_ids().contains(timeline.spec_timeline_id())
                ==> final(self).scheduled_ids() == old(self).scheduled_ids().push(
                timeline.spec_timeline_id(),
            ),
    ;

    /// Removes the timeline with identifier `id`; reports whether there was one.
    fn cancel(&mut self, id: TimelineId) -> (r: bool)
        requires
            old(self).wf(),
        ensures
            final(self).wf(),
            r == old(self).scheduled_ids().contains(id),
            forall|x: TimelineId| #[trigger]
                final(self).scheduled_ids().contains(x) <==> (old(self).scheduled_ids().contains(x)
                    && x != id),
    ;
}

/// The identifiers of `items`, in order.
pub open spec fn ids_of<L: TimelineControl>(items: Seq<L>) -> Seq<TimelineId> {
    items.map_values(|l: L| l.spec_timeline_id())
}

proof fn lemma_push_contains(s: Seq<TimelineId>, a: TimelineId)
    ensures
        forall|x: TimelineId| #[trigger] s.push(a).contains(x) <==> (s.contains(x) || x == a),
{
    assert forall|x: TimelineId| #[trigger] s.push(a).contains(x) <==> (s.contains(x) || x == a) by {
        if s.contains(x) {
            let i = choose|i: int| 0 <= i < s.len() && s[i] == x;
            assert(s.push(a)[i] == x);
        }
        if x == a {
            assert(s.push(a)[s.len() as int] == x);
        }
        if s.push(a).contains(x) {
            let i = choose|i: int| 0 <= i < s.len() + 1 && s.push(a)[i] == x;
            if i < s.len() {
                assert(s[i] == x);
            }
        }
    }
}

/// Each of `items` after an update at clock reading `now`.
pub open spec fn advanced<L: TimelineControl>(items: Seq<L>, now: u64) -> Seq<L> {
    items.map_values(|l: L| l.after_update(now))
}

/// Each of `items` after it has left a scheduler.
pub open spec fn removed<L: TimelineControl>(items: Seq<L>) -> Seq<L> {
    items.map_values(|l: L| l.after_remove())
}

/// Whether a timeline stays scheduled.
pub open spec fn active<L: TimelineControl>() -> spec_fn(L) -> bool {
    |l: L| stays_scheduled(l.spec_status())
}

/// Whether a timeline leaves its scheduler.
pub open spec fn inactive<L: TimelineControl>() -> spec_fn(L) -> bool {
    |l: L| !stays_scheduled(l.spec_status())
}

/// Whether a timeline with status `s` stays scheduled.
pub open spec fn stays_scheduled(s: Status) -> bool {
    s != Status::Completed && s != Status::Paused
}

/// Holds timelines by identifier and updates them together, dropping the
/// ones that complete or pause.
pub struct Manager<L: TimelineControl> {
    items: Vec<L>,
}

impl<L: TimelineControl> Manager<L> {

    /// The timelines held, in order of scheduling.
    pub closed spec fn timelines(&self) -> Seq<L> {
        self.items@
    }

    /// An empty registry.
    pub fn new() -> (r: Self)
        ensures
            r.wf(),
            r.timelines().len() == 0,
    {
        let r = Manager { items: Vec::new() };
        assert(ids_of(r.items@) =~= Seq::empty());
        r
    }

    fn position(&self, id: TimelineId) -> (r: Option<usize>)
        ensures
            match r {
                Some(i) => i < self.items@.len() && ids_of(self.items@)[i as int] == id,
                None => !ids_of(self.items@).contains(id),
            },
    {
        let mut i: usize = 0;
        while i < self.items.len()
            invariant
                0 <= i <= self.items@.len(),
                forall|j: int| 0 <= j < i ==> ids_of(self.items@)[j] != id,
            decreases self.items@.len() - i,
        {
            if self.items[i].id() == id {
                return Some(i);
            }
            i = i + 1;
        }
        None
    }

    /// Updates every timeline to clock reading `now`, then takes out and
    /// returns each one whose update reported [`Status::Completed`] or
    /// [`Status::Paused`]. The timelines kept stay in order.
    pub fn update(&mut self, now: u64) -> (evicted: Vec<L>)
        requires
            old(self).wf(),
        ensures
            final(self).wf(),
            final(self).timelines() == advanced(old(self).timelines(), now).filter(active::<L>()),
            evicted@ == removed(advanced(old(self).timelines(), now).filter(inactive::<L>())),
            forall|i: int| 0 <= i < final(self).timelines().len()
                ==> stays_scheduled(#[trigger] final(self).timelines()[i].spec_status()),
            forall|i: int| 0 <= i < evicted@.len()
                ==> !stays_scheduled(#[trigger] evicted@[i].spec_status()),
            forall|x: TimelineId| #[trigger]
                ids_of(old(self).timelines()).contains(x) <==> (ids_of(final(self).timelines()).contains(x)
                    || ids_of(evicted@).contains(x)),
    {
        let ghost old_ids = ids_of(self.items@);
        let ghost old_items = self.items@;
        let mut rest: Vec<L> = Vec::new();
        std::mem::swap(&mut self.items, &mut rest);
        let mut kept: Vec<L> = Vec::new();
        let mut evicted: Vec<L> = Vec::new();
        while rest.len() > 0
            invariant
                rest@.len() <= old_ids.len(),
                old_ids == ids_of(old_items),
                rest@ == old_items.subrange(old_items.len() - rest@.len(), old_items.len() as int),
                kept@ == advanced(old_items.take(old_items.len() - rest@.len()), now).filter(
                    active::<L>(),
                ),
                evicted@ == removed(
                    advanced(old_items.take(old_items.len() - rest@.len()), now).filter(
                        inactive::<L>(),
                    ),
                ),
                ids_of(rest@) == old_ids.subrange(old_ids.len() - rest@.len(), old_ids.len() as int),
                old_ids.no_duplicates(),
                ids_of(kept@).no_duplicates(),
                forall|i: int| 0 <= i < kept@.len() ==> stays_scheduled(#[trigger] kept@[i].spec_status()),
                forall|i: int| 0 <= i < evicted@.len() ==> !stays_scheduled(#[trigger] evicted@[i].spec_status()),
                forall|x: TimelineId| #[trigger]
                    old_ids.subrange(0, old_ids.len() - rest@.len()).contains(x) <==> (ids_of(kept@).contains(x)
                        || ids_of(evicted@).contains(x)),
            decreases rest@.len(),
        {
            let ghost before = rest@;
            let ghost kept_before = kept@;
            let ghost evicted_before = evicted@;
            let ghost k = old_ids.len() - before.len();
            let ghost old_item = before[0];
            let mut item = rest.remove(0);
            let status = item.update(now);
            proof {
                let adv = advanced(old_items.take(k), now);
                assert(old_item == old_items[k]);
                assert(old_items.take(k + 1) == old_items.take(k).push(old_item));
                assert(advanced(old_items.take(k + 1), now) == adv.push(item)) by {
                    old_items.take(k).lemma_push_map_commute(|l: L| l.after_update(now), old_item);
                }
                adv.lemma_filter_push(item, active::<L>());
                adv.lemma_filter_push(item, inactive::<L>());
                assert(rest@ == old_items.subrange(old_items.len() - rest@.len(), old_items.len() as int));
                assert(ids_of(rest@) =~= ids_of(before).subrange(1, before.len() as int));
                assert(ids_of(before)[0] == item.spec_timeline_id());
                assert(ids_of(before)[0] == old_ids.subrange(k, old_ids.len() as int)[0]);
                assert(old_ids[k] == item.spec_timeline_id());
                assert(old_ids.subrange(0, k + 1) =~= old_ids.subrange(0, k).push(old_ids[k]));
            }
            proof {
                lemma_push_contains(old_ids.subrange(0, k), item.spec_timeline_id());
                lemma_push_contains(ids_of(kept_before), item.spec_timeline_id());
                lemma_push_contains(ids_of(evicted_before), item.spec_timeline_id());
            }
            if status != Status::Completed && status != Status::Paused {
                kept.push(item);
                proof {
                    assert(ids_of(kept@) =~= ids_of(kept_before).push(item.spec_timeline_id()));
                    assert forall|x: TimelineId| #[trigger] ids_of(kept_before).contains(x)
                        implies x != item.spec_timeline_id() by {
                        assert(old_ids.subrange(0, k).contains(x));
                        let i = choose|i: int| 0 <= i < k && old_ids.subrange(0, k)[i] == x;
                        assert(old_ids[i] == x);
                    }
                    assert forall|a: int, b: int| 0 <= a < b < ids_of(kept@).len() implies ids_of(
                        kept@,
                    )[a] != ids_of(kept@)[b] by {
                        if b == kept_before.len() {
                            assert(ids_of(kept_before).contains(ids_of(kept_before)[a]));
                        } else {
                            assert(ids_of(kept_before)[a] != ids_of(kept_before)[b]);
                        }
                    }
                    assert forall|i: int| 0 <= i < kept@.len() implies stays_scheduled(
                        #[trigger] kept@[i].spec_status(),
                    ) by {
                        if i < kept_before.len() {
                            assert(kept@[i] == kept_before[i]);
                        }
                    }
                }
            } else {
                let ghost updated_item = item;
                item.on_remove();
                evicted.push(item);
                proof {
                    advanced(old_items.take(k), now).filter(inactive::<L>()).lemma_push_map_commute(
                        |l: L| l.after_remove(),
                        updated_item,
                    );
                    assert(ids_of(evicted@) =~= ids_of(evicted_before).push(item.spec_timeline_id()));
                    assert forall|i: int| 0 <= i < evicted@.len() implies !stays_scheduled(
                        #[trigger] evicted@[i].spec_status(),
                    ) by {
                        if i < evicted_before.len() {
                            assert(evicted@[i] == evicted_before[i]);
                        }
                    }
                }
            }
        }
        assert(old_ids.subrange(0, old_ids.len() as int) == old_ids);
        assert(old_items.take(old_items.len() as int) == old_items);
        self.items = kept;
        evicted
    }
}

impl<L: TimelineControl> TimelineScheduler for Manager<L> {
    type Timeline = L;

    closed spec fn scheduled_ids(&self) -> Seq<TimelineId> {
        ids_of(self.items@)
    }

    closed spec fn wf(&self) -> bool {
        ids_of(self.items@).no_duplicates()
    }

    fn schedule(&mut self, timeline: L) {
        let mut timeline = timeline;
        let id = timeline.id();
        if self.position(id).is_none() {
            timeline.on_schedule();
            let ghost before = self.items@;
            self.items.push(timeline);
            proof {
                assert(ids_of(self.items@) =~= ids_of(before).push(id));
                assert forall|a: int, b: int| 0 <= a < b < ids_of(self.items@).len() implies ids_of(
                    self.items@,
                )[a] != ids_of(self.items@)[b] by {
                    if b == before.len() {
                        assert(ids_of(before)[a] != id);
                    }
                }
            }
        }
    }

    fn cancel(&mut self, id: TimelineId) -> (r: bool) {
        let ghost before = ids_of(self.items@);
        match self.position(id) {
            Some(i) => {
                let ghost items_before = self.items@;
                let mut item = self.items.remove(i);
                item.on_remove();
                proof {
                    let after = ids_of(self.items@);
                    assert(after =~= before.remove(i as int));
                    assert forall|x: TimelineId| #[trigger] after.contains(x) <==> (before.contains(x)
                        && x != id) by {
                        if after.contains(x) {
                            let j = choose|j: int| 0 <= j < after.len() && after[j] == x;
                            if j < i {
                                assert(before[j] == x);
                            } else {
                                assert(before[j + 1] == x);
                            }
                        }
                        if before.contains(x) && x != id {
                            let j = choose|j: int| 0 <= j < before.len() && before[j] == x;
                            if j < i {
                                assert(after[j] == x);
                            } else {
                                assert(after[j - 1] == x);
                            }
                        }
                    }
                }
                true
            },
            None => false,
        }
    }
}

} // verus!
