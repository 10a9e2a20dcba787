use glowing_waffle::animation::{Animation, AnimationType, CLOCK_LIMIT};
use glowing_waffle::fixed::{Turn, LIMIT, ONE, TAU};
use glowing_waffle::waffle::{Size, Waffle};

fn still() -> (Turn, Turn, Turn) {
    (Turn::identity(), Turn::identity(), Turn::identity())
}

fn turn_of(angle: i128) -> Turn {
    let radians = angle as f64 / 1_000_000.0;
    Turn::new(
        (radians.sin() * 1_000_000.0).round() as i64,
        (radians.cos() * 1_000_000.0).round() as i64,
    )
}

fn turns_of(angles: (i64, i64, i64)) -> (Turn, Turn, Turn) {
    (turn_of(angles.0 as i128), turn_of(angles.1 as i128), turn_of(angles.2 as i128))
}

#[test]
fn an_animation_starts_with_the_rotate_profile() {
    let animation = Animation::new(5 * ONE);
    assert_eq!(animation.animation_type(), AnimationType::Rotate);
    assert_eq!(animation.elapsed_time(), 0);
    assert_eq!(animation.increment(still()), (10_000, 20_000, 3_000));
}

#[test]
fn profiles_cycle_in_a_fixed_order() {
    let mut animation = Animation::new(0);
    let mut seen = Vec::new();
    for _ in 0..5 {
        seen.push(animation.animation_type());
        animation.next_animation(0);
    }
    assert_eq!(
        seen,
        vec![
            AnimationType::Rotate,
            AnimationType::Pulse,
            AnimationType::Wave,
            AnimationType::Bounce,
            AnimationType::Rotate
        ]
    );
}

#[test]
fn changing_profile_resets_the_clock() {
    let mut animation = Animation::new(ONE);
    let mut waffle = Waffle::new(Size::Small);
    animation.update(&mut waffle, 4 * ONE, &turn_of);
    assert_eq!(animation.elapsed_time(), 3 * ONE);
    animation.next_animation(10 * ONE);
    assert_eq!(animation.elapsed_time(), 0);
    assert_eq!(animation.animation_type(), AnimationType::Pulse);
    assert_eq!(animation.phases(12 * ONE), (2 * ONE, 2 * ONE, 2 * ONE));
    animation.set_animation_type(AnimationType::Bounce, 20 * ONE);
    assert_eq!(animation.elapsed_time(), 0);
    assert_eq!(animation.phases(21 * ONE), (2 * ONE, 2 * ONE, 2 * ONE));
}

#[test]
fn the_clock_never_runs_backwards_nor_past_its_limit() {
    let animation = Animation::new(10 * ONE);
    let mut a = Animation::new(10 * ONE);
    a.set_animation_type(AnimationType::Pulse, 10 * ONE);
    assert_eq!(a.phases(9 * ONE), (0, 0, 0));
    assert_eq!(a.phases(i64::MIN), (0, 0, 0));
    assert_eq!(a.phases(i64::MAX), (CLOCK_LIMIT, CLOCK_LIMIT, CLOCK_LIMIT));
    let mut b = Animation::new(i64::MIN);
    b.set_animation_type(AnimationType::Bounce, i64::MIN);
    assert_eq!(b.phases(i64::MAX), (2 * CLOCK_LIMIT, 2 * CLOCK_LIMIT, 2 * CLOCK_LIMIT));
    assert_eq!(animation.phases(i64::MAX), (0, 0, 0));
}

#[test]
fn each_profile_reads_its_own_phase_angles() {
    let mut animation = Animation::new(0);
    assert_eq!(animation.phases(3 * ONE), (0, 0, 0));
    animation.set_animation_type(AnimationType::Pulse, ONE);
    assert_eq!(animation.phases(3 * ONE), (2 * ONE, 2 * ONE, 2 * ONE));
    animation.set_animation_type(AnimationType::Wave, ONE);
    // 0.5 t, 0.7 t, 0.3 t
    assert_eq!(animation.phases(3 * ONE), (ONE, 1_400_000, 600_000));
    assert_eq!(animation.phases(ONE + 3), (1, 2, 0));
    animation.set_animation_type(AnimationType::Bounce, ONE);
    assert_eq!(animation.phases(3 * ONE), (4 * ONE, 4 * ONE, 4 * ONE));
}

#[test]
fn rotate_gives_the_configured_speed() {
    let mut animation = Animation::new(0);
    animation.set_rotation_speed(-7, 0, 123_456_789);
    let waves = (Turn::new(ONE, 0), Turn::new(-ONE, 0), Turn::new(0, -ONE));
    assert_eq!(animation.increment(waves), (-7, 0, 123_456_789));
}

#[test]
fn pulse_scales_the_speed_between_nine_and_eleven_tenths() {
    let mut animation = Animation::new(0);
    animation.set_animation_type(AnimationType::Pulse, 0);
    let with_sine = |s: i64| (Turn::new(s, 0), Turn::identity(), Turn::identity());
    // 0.9 + 0.2 * (0.5 * 0.5 + 0.5) = 1.05
    assert_eq!(animation.increment(with_sine(500_000)), (10_500, 21_000, 3_150));
    assert_eq!(animation.increment(with_sine(ONE)), (11_000, 22_000, 3_300));
    assert_eq!(animation.increment(with_sine(-ONE)), (9_000, 18_000, 2_700));
    assert_eq!(animation.increment(with_sine(0)), (10_000, 20_000, 3_000));
    animation.set_rotation_speed(-10_000, 1, 15);
    // -10500; 1.05 -> 1; 15.75 -> 16
    assert_eq!(animation.increment(with_sine(500_000)), (-10_500, 1, 16));
}

#[test]
fn wave_replaces_the_speed() {
    let mut animation = Animation::new(0);
    animation.set_animation_type(AnimationType::Wave, 0);
    animation.set_rotation_speed(1, 2, 3);
    let waves = (Turn::new(500_000, 7), Turn::new(-500_000, 9), Turn::new(11, 250_000));
    // 0.04 * 0.5, 0.03 * -0.5, 0.02 * 0.25
    assert_eq!(animation.increment(waves), (20_000, -15_000, 5_000));
    let waves = (Turn::new(ONE, 0), Turn::new(ONE, 0), Turn::new(0, -ONE));
    assert_eq!(animation.increment(waves), (40_000, 30_000, -20_000));
    let waves = (Turn::new(12, 0), Turn::new(-17, 0), Turn::new(0, 25));
    // 0.48 -> 0, -0.51 -> -1, 0.5 -> 1
    assert_eq!(animation.increment(waves), (0, -1, 1));
}

#[test]
fn bounce_scales_the_speed_by_a_small_factor() {
    let mut animation = Animation::new(0);
    animation.set_animation_type(AnimationType::Bounce, 0);
    let with_sine = |s: i64| (Turn::new(s, 0), Turn::identity(), Turn::identity());
    // 0.05 * (0.3 + 0.7 * 0.5) = 0.0325
    assert_eq!(animation.increment(with_sine(-500_000)), (325, 650, 98));
    assert_eq!(animation.increment(with_sine(500_000)), (325, 650, 98));
    // 0.05 * 0.3 = 0.015
    assert_eq!(animation.increment(with_sine(0)), (150, 300, 45));
    // 0.05
    assert_eq!(animation.increment(with_sine(ONE)), (500, 1_000, 150));
    assert_eq!(animation.increment(with_sine(-ONE)), (500, 1_000, 150));
}

#[test]
fn speeds_are_held_to_the_limit() {
    let mut animation = Animation::new(0);
    animation.set_rotation_speed(i64::MAX, i64::MIN, LIMIT + 1);
    assert_eq!(animation.increment(still()), (LIMIT, -LIMIT, LIMIT));
    animation.set_animation_type(AnimationType::Pulse, 0);
    let full = (Turn::new(ONE, 0), Turn::identity(), Turn::identity());
    assert_eq!(
        animation.increment(full),
        (4_400_000_000_000_000_000, -4_400_000_000_000_000_000, 4_400_000_000_000_000_000)
    );
}

#[test]
fn update_rotates_the_waffle_by_the_increment() {
    let mut animation = Animation::new(0);
    let mut waffle = Waffle::new(Size::Small);
    for frame in 1..=10 {
        let now = frame * 33_333;
        animation.update(&mut waffle, now, &turn_of);
        assert_eq!(animation.elapsed_time(), now);
        assert_eq!(waffle.rotation(), (10_000 * frame, 20_000 * frame, 3_000 * frame));
    }
    animation.next_animation(ONE);
    let before = waffle.rotation();
    let now = ONE + 1_570_796;
    let waves = turns_of(animation.phases(now));
    assert_eq!(waves.0.sin(), ONE);
    assert_eq!(animation.increment(waves), (11_000, 22_000, 3_300));
    animation.update(&mut waffle, now, &turn_of);
    assert_eq!(
        waffle.rotation(),
        (before.0 + 11_000, before.1 + 22_000, before.2 + 3_300)
    );
    assert_eq!(animation.elapsed_time(), 1_570_796);
    for cell in waffle.cells() {
        assert_eq!(cell.depth, cell.point.z);
    }
}

#[test]
fn update_keeps_angles_within_one_turn() {
    let mut animation = Animation::new(0);
    animation.set_rotation_speed(TAU - 1, 2 * TAU, -1);
    let mut waffle = Waffle::new(Size::Small);
    animation.update(&mut waffle, 0, &turn_of);
    assert_eq!(waffle.rotation(), (TAU - 1, 0, TAU - 1));
    animation.update(&mut waffle, 0, &turn_of);
    assert_eq!(waffle.rotation(), (TAU - 2, 0, TAU - 2));
}

#[test]
fn update_asks_the_sines_at_the_phase_angles() {
    let mut animation = Animation::new(0);
    animation.set_animation_type(AnimationType::Wave, ONE);
    let mut waffle = Waffle::new(Size::Small);
    let asked = std::cell::RefCell::new(Vec::new());
    let recording = |angle: i128| {
        asked.borrow_mut().push(angle);
        turn_of(angle)
    };
    animation.update(&mut waffle, 3 * ONE, &recording);
    // 0.04 sin(1), 0.03 sin(1.4) = 0.0295635 rounded up, 0.02 cos(0.6)
    assert_eq!(waffle.rotation(), (33_659, 29_564, 16_507));
    assert_eq!(
        *asked.borrow(),
        vec![1_000_000, 1_400_000, 600_000, 33_659, 29_564, 16_507]
    );
    assert_eq!(animation.elapsed_time(), 2 * ONE);
}

#[test]
fn update_asks_only_what_the_profile_reads() {
    let mut waffle = Waffle::new(Size::Small);
    let asked = std::cell::RefCell::new(Vec::new());
    let recording = |angle: i128| {
        asked.borrow_mut().push(angle);
        turn_of(angle)
    };
    let mut animation = Animation::new(0);
    animation.update(&mut waffle, 3 * ONE, &recording);
    // Rotate reads no sine: only the three new angles of the waffle are asked
    assert_eq!(*asked.borrow(), vec![10_000, 20_000, 3_000]);
    asked.borrow_mut().clear();
    animation.set_animation_type(AnimationType::Bounce, 3 * ONE);
    animation.update(&mut waffle, 4 * ONE, &recording);
    // Bounce reads the sine of 2 t, once
    assert_eq!(asked.borrow().len(), 4);
    assert_eq!(asked.borrow()[0], 2_000_000);
    // 0.05 * (0.3 + 0.7 * |sin 2|) = 0.046825...
    assert_eq!(waffle.rotation(), (10_000 + 468, 20_000 + 937, 3_000 + 140));
}
