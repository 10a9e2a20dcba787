use glowing_waffle::fixed::{floor_div, floor_mod, round_div, wrap_angle, LIMIT, ONE, TAU};

#[test]
fn the_units_are_millionths() {
    assert_eq!(ONE, 1_000_000);
    // two pi = 6.283185307...
    assert_eq!(TAU, 6_283_185);
    assert_eq!(LIMIT, 4_000_000 * ONE * ONE);
}

#[test]
fn floored_quotients_round_towards_minus_infinity() {
    assert_eq!(floor_div(7, 2), 3);
    assert_eq!(floor_div(-7, 2), -4);
    assert_eq!(floor_div(-8, 2), -4);
    assert_eq!(floor_div(0, 5), 0);
    assert_eq!(floor_div(-1, 1_000_000), -1);
    assert_eq!(floor_div(i128::MIN, 1), i128::MIN);
    assert_eq!(floor_div(i128::MAX, i128::MAX), 1);
    assert_eq!(floor_div(i128::MIN, i128::MAX), -2);
}

#[test]
fn remainders_are_never_negative() {
    assert_eq!(floor_mod(7, 2), 1);
    assert_eq!(floor_mod(-7, 2), 1);
    assert_eq!(floor_mod(-8, 2), 0);
    assert_eq!(floor_mod(-1, 1_000_000), 999_999);
    assert_eq!(floor_mod(i128::MIN, 1), 0);
    assert_eq!(floor_mod(i128::MIN, 3), 1);
}

#[test]
fn rounded_quotients_go_to_the_nearest_and_ties_up() {
    assert_eq!(round_div(7, 2), 4);
    assert_eq!(round_div(-7, 2), -3);
    assert_eq!(round_div(5, 10), 1);
    assert_eq!(round_div(4, 10), 0);
    assert_eq!(round_div(-5, 10), 0);
    assert_eq!(round_div(-6, 10), -1);
    assert_eq!(round_div(1_499_999, 1_000_000), 1);
    assert_eq!(round_div(1_500_000, 1_000_000), 2);
    assert_eq!(round_div(-1_500_000, 1_000_000), -1);
    assert_eq!(round_div(-1_500_001, 1_000_000), -2);
}

#[test]
fn angles_are_reduced_into_one_turn() {
    assert_eq!(wrap_angle(0), 0);
    assert_eq!(wrap_angle(TAU as i128), 0);
    assert_eq!(wrap_angle(TAU as i128 - 1), TAU - 1);
    assert_eq!(wrap_angle(-1), TAU - 1);
    assert_eq!(wrap_angle(-(TAU as i128)), 0);
    assert_eq!(wrap_angle(3 * TAU as i128 + 17), 17);
    assert_eq!(wrap_angle(-3 * TAU as i128 + 17), 17);
    let r = wrap_angle(i128::MIN);
    assert!(0 <= r && r < TAU);
    let r = wrap_angle(i128::MAX);
    assert!(0 <= r && r < TAU);
}
