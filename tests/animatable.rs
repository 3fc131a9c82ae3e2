use anim::{Animatable, Progress};

fn at(num: u64, den: u64) -> Progress {
    Progress::from_ratio(num, den)
}

#[test]
fn test_bool() {
    let v = false.animate(&true, at(0, 1));
    assert!(v == false);

    let v = false.animate(&true, at(1, 2));
    assert!(v == false);

    let v = false.animate(&true, at(1, 1));
    assert!(v == true);

    let v = true.animate(&true, at(3, 10));
    assert!(v == true);

    let v = false.animate(&false, at(2, 10));
    assert!(v == false);
}

#[test]
fn test_char() {
    let v = 'a'.animate(&'e', at(0, 1));
    assert_eq!(v, 'a');

    let v = 'a'.animate(&'e', at(1, 2));
    assert_eq!(v, 'c');

    let v = 'a'.animate(&'e', at(555, 1000));
    assert_eq!(v, 'c');

    let v = 'a'.animate(&'e', at(1, 1));
    assert_eq!(v, 'e');
}

#[test]
fn char_counts_down_towards_a_smaller_end() {
    assert_eq!('e'.animate(&'a', at(0, 1)), 'e');
    assert_eq!('e'.animate(&'a', at(1, 4)), 'd');
    assert_eq!('e'.animate(&'a', at(1, 1)), 'a');
}

#[test]
fn char_steps_over_the_surrogate_gap() {
    let low = '\u{D7FF}';
    let high = '\u{E000}';
    assert_eq!(low.animate(&high, at(1, 1)), high);
    assert_eq!(low.animate(&high, at(1, 2)), high);
    assert_eq!(low.animate(&high, at(1, 3)), low);
}

#[test]
fn integers_meet_both_ends_exactly() {
    assert_eq!(3u8.animate(&250, at(0, 1)), 3);
    assert_eq!(3u8.animate(&250, at(1, 1)), 250);
    assert_eq!((-40i32).animate(&17, at(0, 1)), -40);
    assert_eq!((-40i32).animate(&17, at(1, 1)), 17);
    assert_eq!(u64::MAX.animate(&0, at(1, 1)), 0);
    assert_eq!(i64::MIN.animate(&i64::MAX, at(1, 1)), i64::MAX);
    assert_eq!(7usize.animate(&7, at(3, 7)), 7);
}

#[test]
fn integers_round_to_nearest_with_halves_towards_the_end() {
    assert_eq!(0i32.animate(&10, at(1, 4)), 3);
    assert_eq!(10i32.animate(&0, at(1, 4)), 7);
    assert_eq!(0i64.animate(&3, at(1, 2)), 2);
    assert_eq!(3i64.animate(&0, at(1, 2)), 1);
    assert_eq!((-10i16).animate(&10, at(1, 2)), 0);
    assert_eq!(100u16.animate(&200, at(1, 3)), 133);
}

#[test]
fn progress_interpolates_linearly() {
    let v = Progress::zero().animate(&Progress::one(), at(1, 4));
    assert_eq!(v, Progress::from_ratio(1, 4));
}

#[test]
fn tuples_interpolate_field_by_field() {
    let from = (0i32, false, 'a');
    let to = (100i32, true, 'k');
    assert_eq!(from.animate(&to, at(0, 1)), from);
    assert_eq!(from.animate(&to, at(1, 1)), to);
    assert_eq!(from.animate(&to, at(1, 2)), (50, false, 'f'));
    assert_eq!((1u8,).animate(&(3u8,), at(1, 2)), (2u8,));
    let four = (0i8, 0i16, 0u32, 0u64).animate(&(10, 20, 30, 40), at(1, 10));
    assert_eq!(four, (1, 2, 3, 4));
}

#[test]
fn progress_from_ratio_caps_at_one() {
    assert_eq!(Progress::from_ratio(3, 2), Progress::one());
    assert_eq!(Progress::from_ratio(1, 3).parts, 333_333_333);
}

#[test]
fn wide_integers_interpolate_over_their_whole_range() {
    assert_eq!(i128::MIN.animate(&i128::MAX, at(0, 1)), i128::MIN);
    assert_eq!(i128::MIN.animate(&i128::MAX, at(1, 1)), i128::MAX);
    assert_eq!(i128::MAX.animate(&i128::MIN, at(1, 1)), i128::MIN);
    assert_eq!((-10i128).animate(&10, at(1, 4)), -5);
    assert_eq!(0u128.animate(&u128::MAX, at(1, 1)), u128::MAX);
    assert_eq!(u128::MAX.animate(&0, at(0, 1)), u128::MAX);
    assert_eq!(0u128.animate(&10, at(1, 4)), 3);
    assert_eq!(10u128.animate(&0, at(1, 4)), 7);
    let half = 0u128.animate(&u128::MAX, at(1, 2));
    assert_eq!(half, u128::MAX / 2 + 1);
}

#[test]
fn sixteen_field_tuples_interpolate() {
    let from = (0u8, 0u8, 0u8, 0u8, 0u8, 0u8, 0u8, 0u8, 0u8, 0u8, 0u8, 0u8, 0u8, 0u8, 0u8, 0i64);
    let to = (2u8, 4u8, 6u8, 8u8, 10u8, 12u8, 14u8, 16u8, 18u8, 20u8, 22u8, 24u8, 26u8, 28u8, 30u8, -32i64);
    let v = from.animate(&to, at(1, 2));
    assert_eq!((v.0, v.1, v.2, v.3, v.4, v.5, v.6, v.7), (1, 2, 3, 4, 5, 6, 7, 8));
    assert_eq!((v.8, v.9, v.10, v.11, v.12, v.13, v.14, v.15), (9, 10, 11, 12, 13, 14, 15, -16));
    let end = from.animate(&to, at(1, 1));
    assert_eq!((end.0, end.7, end.14, end.15), (2, 16, 30, -32));
}
