use anim::easing;
use anim::{
    Clock, IdGenerator, Manager, Options, Status, Timeline, TimelineControl, TimelineId,
    TimelineScheduler,
};
use std::cell::Cell;
use std::rc::Rc;

const MS: u64 = 1_000_000;

fn ms(n: u64) -> u64 {
    n * MS
}

#[derive(Default)]
struct ManualClock {
    now: Rc<Cell<u64>>,
}

impl Clock for ManualClock {
    fn now(&self) -> u64 {
        self.now.get()
    }
}

fn one_second(id: usize) -> Timeline<i64, ManualClock> {
    let animation = Options::new(0i64, 1000).easing(easing::linear()).duration(ms(1000)).build();
    Timeline::new(animation, TimelineId(id))
}

#[test]
fn pause_and_resume_keep_progress() {
    let mut timeline = one_second(1);
    timeline.begin_at(0);
    timeline.pause_at(ms(500));
    assert_eq!(timeline.status(), Status::Paused);
    assert_eq!(timeline.value_at(ms(9000)), 500);
    timeline.resume_at(ms(10_500));
    assert_eq!(timeline.update_at(ms(10_900)), Status::Animating);
    assert_eq!(timeline.value_at(ms(10_900)), 900);
    assert_eq!(timeline.update_at(ms(11_000)), Status::Completed);
    assert_eq!(timeline.value_at(ms(50_000)), 1000);
}

#[test]
fn pause_and_resume_with_a_synthetic_clock() {
    let mut timeline = one_second(2);
    let clock = timeline.clock().now.clone();
    clock.set(ms(100));
    timeline.begin();
    clock.set(ms(600));
    timeline.pause();
    clock.set(ms(10_600));
    timeline.resume();
    clock.set(ms(11_099));
    assert_eq!(timeline.update(), Status::Animating);
    clock.set(ms(11_100));
    assert_eq!(timeline.update(), Status::Completed);
    assert_eq!(timeline.value(), 1000);
}

#[test]
fn value_reads_do_not_change_the_timeline() {
    let mut timeline = one_second(3);
    timeline.begin_at(ms(1));
    let first = timeline.value_at(ms(251));
    for _ in 0..10 {
        assert_eq!(timeline.value_at(ms(251)), first);
    }
    assert_eq!(first, 250);
    assert_eq!(timeline.status(), Status::Animating);
    timeline.pause_at(ms(401));
    let paused = timeline.value_at(ms(402));
    for n in 0..10u64 {
        assert_eq!(timeline.value_at(ms(1000 * n)), paused);
    }
}

#[test]
fn idle_timeline_shows_the_start_and_ignores_updates() {
    let mut timeline = one_second(4);
    assert!(timeline.status().is_idle());
    assert_eq!(timeline.update_at(ms(5000)), Status::Idle);
    assert_eq!(timeline.value_at(ms(5000)), 0);
    timeline.stop_at(ms(5000));
    assert!(timeline.status().is_idle());
}

#[test]
fn begin_restarts_from_zero() {
    let mut timeline = one_second(5);
    timeline.begin_at(0);
    timeline.pause_at(ms(700));
    timeline.begin_at(ms(1000));
    assert!(timeline.status().is_animating());
    assert_eq!(timeline.value_at(ms(1100)), 100);
}

#[test]
fn resume_when_not_paused_restarts() {
    let mut timeline = one_second(6);
    timeline.resume_at(ms(200));
    assert_eq!(timeline.value_at(ms(500)), 300);
}

#[test]
fn stop_freezes_and_reset_clears() {
    let mut timeline = one_second(7);
    timeline.begin_at(0);
    timeline.stop_at(ms(300));
    assert!(timeline.status().is_completed());
    assert_eq!(timeline.value_at(ms(900)), 300);
    timeline.reset();
    assert_eq!(timeline.value_at(ms(900)), 0);
    assert!(timeline.status().is_completed());

    let mut paused = one_second(8);
    paused.begin_at(0);
    paused.pause_at(ms(400));
    paused.stop_at(ms(800));
    assert_eq!(paused.value_at(ms(800)), 400);
    assert!(!paused.status().is_paused());
}

#[test]
fn update_with_time_matches_update_at() {
    let mut timeline = one_second(9);
    timeline.begin_at(0);
    assert_eq!(timeline.update_with_time(ms(999)), Status::Animating);
    assert_eq!(timeline.update_with_time(ms(1000)), Status::Completed);
}

#[test]
fn endless_animation_never_completes() {
    let animation = Options::new(0i64, 10).duration(ms(10)).forever().build();
    let mut timeline: Timeline<i64, ManualClock> = Timeline::new(animation, TimelineId(10));
    timeline.begin_at(0);
    assert_eq!(timeline.update_at(u64::MAX), Status::Animating);
}

#[test]
fn id_generator_counts_up_from_one() {
    let mut ids = IdGenerator::new();
    assert_eq!(ids.next_id(), TimelineId(1));
    assert_eq!(ids.next_id(), TimelineId(2));
    let timeline = one_second(ids.next_id().0);
    assert_eq!(timeline.id(), TimelineId(3));
}

#[test]
fn manager_updates_and_drops_finished_timelines() {
    let mut manager: Manager<Timeline<i64, ManualClock>> = Manager::new();
    let mut short = one_second(1);
    short.begin_at(0);
    let animation = Options::new(0i64, 1000).easing(easing::linear()).duration(ms(5000)).build();
    let mut long: Timeline<i64, ManualClock> = Timeline::new(animation, TimelineId(2));
    long.begin_at(0);
    let mut duplicate = one_second(1);
    duplicate.begin_at(0);

    manager.schedule(short);
    manager.schedule(long);
    manager.schedule(duplicate);
    assert!(manager.update(ms(500)).is_empty());
    assert!(manager.cancel(TimelineId(1)));
    assert!(!manager.cancel(TimelineId(1)));

    let mut again = one_second(3);
    again.begin_at(0);
    manager.schedule(again);
    let evicted = manager.update(ms(2000));
    assert_eq!(evicted.len(), 1);
    assert_eq!(evicted[0].id(), TimelineId(3));
    assert!(evicted[0].status().is_completed());
    assert_eq!(evicted[0].value_at(ms(99_999)), 1000);
    assert!(!manager.cancel(TimelineId(3)));
    assert!(manager.cancel(TimelineId(2)));
}

#[test]
fn timeline_control_reports_id_and_status() {
    let mut timeline = one_second(11);
    timeline.begin_at(0);
    assert_eq!(TimelineControl::id(&timeline), TimelineId(11));
    assert_eq!(TimelineControl::update(&mut timeline, ms(1000)), Status::Completed);
}

#[test]
fn options_begin_animation_starts_playing() {
    let timeline = Options::new(0i64, 1000).duration(ms(1000)).begin_animation(TimelineId(12));
    assert!(timeline.status().is_animating());
}
