use anim::builder::{constant, key_frames, linear, steps, steps_infinite};
use anim::easing;
use anim::easing::{EasingMode, Function};
use anim::{Animation, BaseAnimation, KeyFrame, Options, Progress, Ratio, SeekFrom};

const MS: u64 = 1_000_000;
const DURATION_ZERO: u64 = 0;

fn ms(n: u64) -> u64 {
    n * MS
}

#[test]
fn test_constant() {
    let animation = constant(1.0, ms(200));
    let v = animation.animate(DURATION_ZERO);
    assert_eq!(v, 1.0);
    let v = animation.animate(ms(10_000));
    assert_eq!(v, 1.0);
}

#[test]
fn test_primitive() {
    let animation = Options::new(0i64, 1000)
        .easing(easing::linear())
        .duration(ms(1000))
        .auto_reverse(false)
        .build();

    let v = animation.animate(DURATION_ZERO);
    assert_eq!(v, 0);

    let v = animation.animate(ms(500));
    assert_eq!(v, 500);

    let v = animation.animate(ms(1000));
    assert_eq!(v, 1000);

    let v = animation.animate(ms(1100));
    assert_eq!(v, 1000);
}

#[test]
fn test_primitive_const() {
    let animation = Options::new(1000i64, 1000)
        .easing(easing::linear())
        .duration(ms(1000))
        .auto_reverse(false)
        .build();

    let v = animation.animate(DURATION_ZERO);
    assert_eq!(v, 1000);

    let v = animation.animate(ms(500));
    assert_eq!(v, 1000);

    let v = animation.animate(ms(1000));
    assert_eq!(v, 1000);

    let v = animation.animate(ms(1100));
    assert_eq!(v, 1000);
}

#[test]
fn test_primitive_duration_zero() {
    let animation = Options::new(1000i64, 2000)
        .easing(easing::linear())
        .duration(DURATION_ZERO)
        .auto_reverse(false)
        .build();

    let v = animation.animate(DURATION_ZERO);
    assert_eq!(v, 1000);

    let v = animation.animate(ms(500));
    assert_eq!(v, 1000);

    let v = animation.animate(ms(1000));
    assert_eq!(v, 1000);

    let v = animation.animate(ms(1100));
    assert_eq!(v, 1000);
}

#[test]
fn test_primitive_reverse() {
    let animation = Options::new(0i64, 1000)
        .easing(easing::linear())
        .duration(ms(1000))
        .auto_reverse(true)
        .build();
    let v = animation.animate(DURATION_ZERO);
    assert_eq!(v, 0);

    let v = animation.animate(ms(250));
    assert_eq!(v, 500);

    let v = animation.animate(ms(500));
    assert_eq!(v, 1000);

    let v = animation.animate(ms(750));
    assert_eq!(v, 500);

    let v = animation.animate(ms(1000));
    assert_eq!(v, 0);

    let v = animation.animate(ms(1100));
    assert_eq!(v, 0);
}

#[test]
fn test_primitive_repeat() {
    let animation = Options::new(0i64, 1000)
        .easing(easing::linear())
        .duration(ms(1000))
        .times(Ratio::whole(2))
        .auto_reverse(false)
        .build();

    let v = animation.animate(DURATION_ZERO);
    assert_eq!(v, 0);

    let v = animation.animate(ms(500));
    assert_eq!(v, 500);

    let v = animation.animate(ms(1000));
    assert_eq!(v, 1000);

    let v = animation.animate(ms(1500));
    assert_eq!(v, 500);

    let v = animation.animate(ms(2000));
    assert_eq!(v, 1000);

    let v = animation.animate(ms(2100));
    assert_eq!(v, 1000);
}

#[test]
fn test_primitive_skip() {
    let animation = Options::new(0i64, 1000)
        .easing(easing::linear())
        .duration(ms(1000))
        .auto_reverse(false)
        .skip(ms(500))
        .build();

    let v = animation.animate(DURATION_ZERO);
    assert_eq!(v, 500);

    let v = animation.animate(ms(250));
    assert_eq!(v, 750);

    let v = animation.animate(ms(500));
    assert_eq!(v, 1000);

    let v = animation.animate(ms(1100));
    assert_eq!(v, 1000);
}

#[test]
fn test_primitive_delay() {
    let animation = Options::new(0i64, 1000)
        .easing(easing::linear())
        .duration(ms(1000))
        .auto_reverse(false)
        .delay(ms(500))
        .build();

    let v = animation.animate(DURATION_ZERO);
    assert_eq!(v, 0);

    let v = animation.animate(ms(250));
    assert_eq!(v, 0);

    let v = animation.animate(ms(500));
    assert_eq!(v, 0);

    let v = animation.animate(ms(1000));
    assert_eq!(v, 500);

    let v = animation.animate(ms(1500));
    assert_eq!(v, 1000);

    let v = animation.animate(ms(1700));
    assert_eq!(v, 1000);
}

#[test]
fn test_map() {
    let animation = Options::new(0i64, 1000)
        .easing(easing::linear())
        .duration(ms(1000))
        .auto_reverse(false)
        .build()
        .map(|v| v * 2);

    let v = animation.animate(DURATION_ZERO);
    assert_eq!(v, 0);

    let v = animation.animate(ms(500));
    assert_eq!(v, 1000);

    let v = animation.animate(ms(1000));
    assert_eq!(v, 2000);

    let v = animation.animate(ms(1100));
    assert_eq!(v, 2000);
}

fn linear_second() -> anim::animation::primitive::Primitive<i64> {
    Options::new(0i64, 1000)
        .easing(easing::linear())
        .duration(ms(1000))
        .auto_reverse(false)
        .build()
}

#[test]
fn test_skip() {
    let animation = linear_second().skip(ms(500));

    let v = animation.animate(DURATION_ZERO);
    assert_eq!(v, 500);

    let v = animation.animate(ms(250));
    assert_eq!(v, 750);

    let v = animation.animate(ms(500));
    assert_eq!(v, 1000);

    let v = animation.animate(ms(1000));
    assert_eq!(v, 1000);
}

#[test]
fn test_seek_from_end() {
    let animation = linear_second().seek(SeekFrom::End(ms(500)));

    let v = animation.animate(DURATION_ZERO);
    assert_eq!(v, 500);

    let v = animation.animate(ms(250));
    assert_eq!(v, 750);

    let v = animation.animate(ms(500));
    assert_eq!(v, 1000);

    let v = animation.animate(ms(1000));
    assert_eq!(v, 1000);
}

#[test]
fn test_seek_by() {
    let animation = linear_second().seek(SeekFrom::Percent(Ratio::new(1, 2)));

    let v = animation.animate(DURATION_ZERO);
    assert_eq!(v, 500);

    let v = animation.animate(ms(250));
    assert_eq!(v, 750);

    let v = animation.animate(ms(500));
    assert_eq!(v, 1000);

    let v = animation.animate(ms(1000));
    assert_eq!(v, 1000);
}

#[test]
fn test_seek_by_negative() {
    let animation = linear_second().seek(SeekFrom::PercentFromEnd(Ratio::new(1, 2)));

    let v = animation.animate(DURATION_ZERO);
    assert_eq!(v, 500);

    let v = animation.animate(ms(250));
    assert_eq!(v, 750);

    let v = animation.animate(ms(500));
    assert_eq!(v, 1000);

    let v = animation.animate(ms(1000));
    assert_eq!(v, 1000);
}

#[test]
fn test_delay() {
    let animation = linear_second().delay(ms(500));

    let v = animation.animate(DURATION_ZERO);
    assert_eq!(v, 0);

    let v = animation.animate(ms(250));
    assert_eq!(v, 0);

    let v = animation.animate(ms(500));
    assert_eq!(v, 0);

    let v = animation.animate(ms(1000));
    assert_eq!(v, 500);

    let v = animation.animate(ms(1500));
    assert_eq!(v, 1000);

    let v = animation.animate(ms(1600));
    assert_eq!(v, 1000);
}

#[test]
fn test_chain() {
    let animation = linear_second().chain(
        Options::new(0i64, 1000)
            .easing(easing::custom(|t| t))
            .duration(ms(1000))
            .auto_reverse(false)
            .build(),
    );

    let v = animation.animate(DURATION_ZERO);
    assert_eq!(v, 0);

    let v = animation.animate(ms(250));
    assert_eq!(v, 250);

    let v = animation.animate(ms(500));
    assert_eq!(v, 500);

    // the first segment ended at 1000, the second starts again from 0
    let v = animation.animate(ms(1000));
    assert_eq!(v, 0);

    let v = animation.animate(ms(1500));
    assert_eq!(v, 500);

    let v = animation.animate(ms(2000));
    assert_eq!(v, 1000);

    let v = animation.animate(ms(2100));
    assert_eq!(v, 1000);
}

#[test]
fn chain_jumps_at_the_boundary() {
    let animation = linear_second().chain(linear_second());
    assert_eq!(animation.animate(ms(999)), 999);
    assert_eq!(animation.animate(ms(1000)), 0);
    assert_eq!(animation.duration(), Some(ms(2000)));
}

#[test]
fn test_parallel() {
    let animation = linear_second().parallel(
        Options::new(0i64, 1000)
            .easing(easing::linear())
            .duration(ms(2000))
            .auto_reverse(false)
            .build(),
    );

    let v = animation.animate(ms(0));
    assert_eq!(v, (0, 0));

    let v = animation.animate(ms(500));
    assert_eq!(v, (500, 250));

    let v = animation.animate(ms(1000));
    assert_eq!(v, (1000, 500));

    let v = animation.animate(ms(1500));
    assert_eq!(v, (1000, 750));

    let v = animation.animate(ms(2000));
    assert_eq!(v, (1000, 1000));

    let v = animation.animate(ms(2300));
    assert_eq!(v, (1000, 1000));
}

#[test]
fn parallel_lasts_as_long_as_the_longer() {
    let long = Options::new(0i64, 1000).easing(easing::linear()).duration(ms(2000)).build();
    let animation = linear_second().zip(long);
    assert_eq!(animation.duration(), Some(ms(2000)));
    assert_eq!(animation.animate(ms(2000)), (1000, 1000));
    let endless = linear_second().zip(linear_second().forever());
    assert_eq!(endless.duration(), None);
}

#[test]
fn test_repeat() {
    let animation = linear_second().times(Ratio::new(3, 2));

    let v = animation.animate(DURATION_ZERO);
    assert_eq!(v, 0);

    let v = animation.animate(ms(500));
    assert_eq!(v, 500);

    let v = animation.animate(ms(1000));
    assert_eq!(v, 1000);

    let v = animation.animate(ms(1500));
    assert_eq!(v, 500);

    let v = animation.animate(ms(2000));
    assert_eq!(v, 500);

    let v = animation.animate(ms(2100));
    assert_eq!(v, 500);
}

#[test]
fn repeat_forever_over_an_empty_source_is_instant() {
    let empty = Options::new(0i64, 1000).duration(0).build();
    let animation = empty.forever();
    assert_eq!(animation.duration(), Some(0));
    assert_eq!(animation.animate(ms(5)), 0);
}

#[test]
fn test_scale_up() {
    let animation = linear_second().scale(Ratio::whole(2));

    let v = animation.animate(DURATION_ZERO);
    assert_eq!(v, 0);

    let v = animation.animate(ms(500));
    assert_eq!(v, 250);

    let v = animation.animate(ms(1000));
    assert_eq!(v, 500);

    let v = animation.animate(ms(2000));
    assert_eq!(v, 1000);

    let v = animation.animate(ms(2100));
    assert_eq!(v, 1000);
}

fn linear_two_seconds() -> anim::animation::primitive::Primitive<i64> {
    Options::new(0i64, 1000)
        .easing(easing::linear())
        .duration(ms(2000))
        .auto_reverse(false)
        .build()
}

#[test]
fn test_scale_down() {
    let animation = linear_two_seconds().scale(Ratio::new(1, 2));

    let v = animation.animate(DURATION_ZERO);
    assert_eq!(v, 0);

    let v = animation.animate(ms(500));
    assert_eq!(v, 500);

    let v = animation.animate(ms(1000));
    assert_eq!(v, 1000);

    let v = animation.animate(ms(1200));
    assert_eq!(v, 1000);

    let v = animation.animate(ms(2100));
    assert_eq!(v, 1000);
}

#[test]
fn test_speed_up() {
    let animation = linear_two_seconds().speed_up(Ratio::whole(2));

    let v = animation.animate(DURATION_ZERO);
    assert_eq!(v, 0);

    let v = animation.animate(ms(500));
    assert_eq!(v, 500);

    let v = animation.animate(ms(1000));
    assert_eq!(v, 1000);

    let v = animation.animate(ms(1200));
    assert_eq!(v, 1000);

    let v = animation.animate(ms(2100));
    assert_eq!(v, 1000);
}

#[test]
fn scaled_duration_matches_where_values_end() {
    let slower = linear_second().scale(Ratio::whole(2));
    assert_eq!(slower.duration(), Some(ms(2000)));
    assert_eq!(slower.animate(ms(1998)), 999);
    assert_eq!(slower.animate(ms(2000)), 1000);
    let faster = linear_two_seconds().speed_up(Ratio::whole(2));
    assert_eq!(faster.duration(), Some(ms(1000)));
    assert_eq!(faster.animate(ms(1000)), 1000);
    let third = linear_second().scale(Ratio::new(1, 3));
    assert_eq!(third.duration(), Some(333_333_334));
    assert_eq!(third.animate(333_333_334), 1000);
}

#[test]
fn scale_by_zero_stands_at_the_end() {
    let animation = linear_second().scale(Ratio::whole(0));
    assert_eq!(animation.duration(), Some(0));
    assert_eq!(animation.animate(0), 1000);
}

#[test]
fn test_key_frames() {
    let key_frames = key_frames(vec![
        KeyFrame::new(500i64).by_percentage(Ratio::new(1, 2)),
        KeyFrame::new(1000i64).by_duration(ms(2000)),
    ]);

    let v = key_frames.animate(ms(0));
    assert_eq!(v, 500);

    let v = key_frames.animate(ms(500));
    assert_eq!(v, 500);

    let v = key_frames.animate(ms(1000));
    assert_eq!(v, 500);

    let v = key_frames.animate(ms(1500));
    assert_eq!(v, 750);

    let v = key_frames.animate(ms(2000));
    assert_eq!(v, 1000);

    let v = key_frames.animate(ms(2100));
    assert_eq!(v, 1000);
}

#[test]
fn key_frames_are_sorted_and_default_to_one_second() {
    let frames = key_frames(vec![
        KeyFrame::new(100i32).by_percentage(Ratio::new(1, 1)),
        KeyFrame::new(0i32).by_percentage(Ratio::new(0, 1)),
    ]);
    assert_eq!(frames.duration(), Some(ms(1000)));
    assert_eq!(frames.animate(ms(250)), 25);
    assert_eq!(frames.animate(ms(1000)), 100);
}

#[test]
fn custom_easing_drives_options_and_key_frames() {
    let square = |t: Progress| Progress { parts: t.parts / 1000 * (t.parts / 1000) / 1000 };
    let animation = Options::new(0i64, 1000).easing(easing::custom(square)).duration(ms(1000)).build();
    assert_eq!(animation.animate(ms(500)), 250);
    let frames = key_frames(vec![
        KeyFrame::new(0i64).by_duration(0).easing(easing::custom(square)),
        KeyFrame::new(1000i64).by_duration(ms(1000)).easing(easing::custom(square)),
    ]);
    assert_eq!(frames.animate(ms(500)), 250);
    let overshoot = easing::custom(|_t: Progress| Progress { parts: 3_000_000_000 });
    assert_eq!(overshoot.ease(Progress::zero()), Progress::one());
    let out = easing::custom(|t: Progress| t).mode(EasingMode::Out);
    assert_eq!(out.ease(Progress::from_ratio(1, 4)).parts, 750_000_000);
}

#[test]
fn key_frames_keep_the_order_of_equal_times() {
    let frames = key_frames(vec![
        KeyFrame::new(10i32).by_duration(ms(100)),
        KeyFrame::new(20i32).by_duration(ms(100)),
        KeyFrame::new(0i32).by_duration(0),
        KeyFrame::new(30i32).by_duration(ms(200)),
    ]);
    assert_eq!(frames.animate(ms(50)), 5);
    assert_eq!(frames.animate(ms(100)), 20);
    assert_eq!(frames.animate(ms(150)), 25);
}

#[test]
fn key_frames_use_the_easing_of_each_segment() {
    let frames = key_frames(vec![
        KeyFrame::new(0i64).by_duration(0),
        KeyFrame::new(1000i64).by_duration(ms(1000)).easing(easing::quad_ease()),
    ]);
    assert_eq!(frames.animate(ms(500)), 250);
}

#[derive(Debug, PartialEq, Eq, Clone, Copy)]
enum Action {
    Stand,
    Step1,
    Step2,
    Run,
}

#[test]
fn test_steps_infinite() {
    let steps = steps_infinite(
        |i: usize| {
            if i == 0 {
                return Action::Stand;
            }
            match (i - 1) % 3 {
                0 => Action::Step1,
                1 => Action::Step2,
                _ => Action::Run,
            }
        },
        ms(100),
    );
    let v = steps.animate(DURATION_ZERO);
    assert_eq!(v, Action::Stand);

    let v = steps.animate(ms(100));
    assert_eq!(v, Action::Step1);

    let v = steps.animate(ms(199));
    assert_eq!(v, Action::Step1);

    let v = steps.animate(ms(900));
    assert_eq!(v, Action::Run);

    let v = steps.animate(ms(999));
    assert_eq!(v, Action::Run);
}

#[test]
fn finite_steps_hold_the_last_item() {
    let animation = steps(vec![1u8, 2, 3], ms(10));
    assert_eq!(animation.duration(), Some(ms(30)));
    assert_eq!(animation.animate(ms(0)), 1);
    assert_eq!(animation.animate(ms(15)), 2);
    assert_eq!(animation.animate(ms(30)), 3);
    assert_eq!(animation.animate(ms(99)), 3);
}

#[test]
fn test_take_in_range() {
    let animation = linear_two_seconds().take(ms(1000));

    let v = animation.animate(DURATION_ZERO);
    assert_eq!(v, 0);

    let v = animation.animate(ms(500));
    assert_eq!(v, 250);

    let v = animation.animate(ms(1000));
    assert_eq!(v, 500);

    let v = animation.animate(ms(1500));
    assert_eq!(v, 500);
}

#[test]
fn test_take_out_range() {
    let animation = linear_two_seconds().skip(ms(1000)).take(ms(2000));

    let v = animation.animate(DURATION_ZERO);
    assert_eq!(v, 500);

    let v = animation.animate(ms(500));
    assert_eq!(v, 750);

    let v = animation.animate(ms(1000));
    assert_eq!(v, 1000);

    let v = animation.animate(ms(1500));
    assert_eq!(v, 1000);

    let v = animation.animate(ms(2111));
    assert_eq!(v, 1000);
}

#[test]
fn cached_matches_its_source_for_any_query_order() {
    let source = Options::new(0i64, 1000).easing(easing::cubic_ease()).duration(ms(1000)).build();
    let cached = Options::new(0i64, 1000)
        .easing(easing::cubic_ease())
        .duration(ms(1000))
        .build()
        .cached();
    for t in [0u64, 300, 300, 700, 300, 1000, 1500, 1500, 0, 999] {
        let e = ms(t);
        let expected = source.animate(if e > ms(1000) { ms(1000) } else { e });
        assert_eq!(cached.animate(e), expected);
    }
    assert_eq!(cached.duration(), source.duration());
}

#[test]
fn linear_builder_outputs_normalized_time() {
    let animation = linear(ms(2000));
    assert_eq!(animation.animate(ms(500)), Progress::from_ratio(1, 4));
    assert_eq!(animation.animate(ms(3000)), Progress::one());
}

#[test]
fn easing_curves_and_modes() {
    let half = Progress::from_ratio(1, 2);
    assert_eq!(easing::quad_ease().ease(half).parts, 250_000_000);
    assert_eq!(easing::cubic_ease().ease(half).parts, 125_000_000);
    assert_eq!(easing::quart_ease().ease(half).parts, 62_500_000);
    assert_eq!(easing::qunit_ease().ease(half).parts, 31_250_000);
    assert_eq!(easing::linear().mode(EasingMode::Out).ease(Progress::from_ratio(1, 4)).parts, 750_000_000);
    let in_out = easing::quad_ease().mode(EasingMode::InOut);
    assert_eq!(in_out.ease(Progress::from_ratio(1, 4)).parts, 62_500_000);
    assert_eq!(in_out.ease(Progress::from_ratio(3, 4)).parts, 437_500_000);
}

#[test]
fn bounce_easing_follows_its_arcs() {
    let bounce = easing::bounce_ease();
    assert_eq!(bounce.ease(Progress::zero()).parts, 1_000_000_000);
    assert_eq!(bounce.ease(Progress::from_ratio(1, 2)).parts, 234_375_000);
    assert_eq!(bounce.ease(Progress::one()).parts, 0);
}

#[test]
fn default_options_use_cubic_easing_over_one_second() {
    let animation = Options::new(0i64, 1000).build();
    assert_eq!(animation.duration(), Some(ms(1000)));
    assert_eq!(animation.animate(ms(500)), 125);
    let delayed = Options::new(0i64, 1000).delay(ms(300)).skip(ms(100)).build();
    assert_eq!(delayed.duration(), Some(ms(1200)));
}

#[test]
fn delay_in_milliseconds() {
    let animation = linear_second().delay_ms(500);
    assert_eq!(animation.duration(), Some(ms(1500)));
    assert_eq!(animation.animate(ms(1000)), 500);
}
