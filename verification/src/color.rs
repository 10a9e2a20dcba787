//! The colour policies: from the depth of a drawn point, the animation time
//! and a few trigonometric values to a colour of three bytes.

use vstd::prelude::*;
use crate::fixed::{floor_div, round_div, wrap_angle, Turn};
use crate::fixed::{clamp, nearest, wrap};
use crate::waffle::{Coords, Point3D};

verus! {

/// A colour: red, green and blue.
#[derive(Debug, Clone, Copy, PartialEq, Eq, Structural)]
pub struct Rgb {
    pub r: u8,
    pub g: u8,
    pub b: u8,
}

impl View for Rgb {
    type V = (int, int, int);

    open spec fn view(&self) -> (int, int, int) {
        (self.r as int, self.g as int, self.b as int)
    }
}

/// A value held to what a byte can carry.
pub open spec fn byte(v: int) -> int {
    clamp(v, 0, 255)
}

/// The grey level of the Normal policy: `((depth + 2) / 4) * 200 + 55`,
/// floored and held to a byte.
pub open spec fn normal_brightness(depth: int) -> int {
    byte((200 * (depth + 2_000_000) + 55 * 4_000_000) / 4_000_000)
}

/// The colour of the Normal policy: the grey level on all three channels.
pub open spec fn normal_color(depth: int) -> (int, int, int) {
    (normal_brightness(depth), normal_brightness(depth), normal_brightness(depth))
}

/// The brightness of the Rainbow policy: `((depth + 2) / 4) * 155 + 100`,
/// floored and held to a byte.
pub open spec fn rainbow_brightness(depth: int) -> int {
    byte((155 * (depth + 2_000_000) + 100 * 4_000_000) / 4_000_000)
}

/// The share `part / whole` of a level, to the nearest whole number.
pub open spec fn ramp(level: int, part: int, whole: int) -> int {
    nearest(level * part, whole)
}

/// The colour wheel. The hue, an angle in `[0, TAU)`, is taken as a
/// fraction of the turn, and the turn is cut at 0.167, 0.334, 0.5, 0.667
/// and 0.834 into six sectors. In each sector one channel is at the level,
/// one is off, and one ramps between the two in proportion to the way
/// through the sector.
pub open spec fn color_wheel(level: int, hue: int) -> (int, int, int) {
    let turn: int = 6_283_185;
    let h: int = 1000 * hue;
    if h < 167 * turn {
        (level, ramp(level, h, 167 * turn), 0)
    } else if h < 334 * turn {
        (ramp(level, 334 * turn - h, 167 * turn), level, 0)
    } else if h < 500 * turn {
        (0, level, ramp(level, h - 334 * turn, 166 * turn))
    } else if h < 667 * turn {
        (0, ramp(level, 667 * turn - h, 167 * turn), level)
    } else if h < 834 * turn {
        (ramp(level, h - 667 * turn, 167 * turn), 0, level)
    } else {
        (level, 0, ramp(level, 1000 * turn - h, 166 * turn))
    }
}

/// The colour of the Rainbow policy: the colour wheel at the hue
/// `(bearing + time) mod TAU`, at the brightness of the depth.
pub open spec fn rainbow_color(bearing: int, time: int, depth: int) -> (int, int, int) {
    color_wheel(rainbow_brightness(depth), wrap(bearing + time))
}

/// The glow of the Fire policy, in millionths:
/// `(ripple * 0.5 + 0.5)^2 * (flicker * 0.3 + 0.7)`, floored. `ripple` is
/// the sine of the radial distance and `flicker` the sine of three times
/// the animation time.
pub open spec fn glow(ripple: int, flicker: int) -> int {
    (ripple + 1_000_000) * (ripple + 1_000_000) * (3 * flicker + 7_000_000)
        / 40_000_000_000_000
}

/// The colour of the Fire policy: red `255 glow`, green `140 glow^2`, blue
/// `40 glow^3`, each floored and held to a byte.
pub open spec fn fire_color(ripple: int, flicker: int) -> (int, int, int) {
    let g: int = glow(ripple, flicker);
    (
        byte(255 * g / 1_000_000),
        byte(140 * (g * g) / 1_000_000_000_000),
        byte(40 * (g * g * g) / 1_000_000_000_000_000_000),
    )
}

/// `r` is the whole part of the square root of `n`.
pub open spec fn is_root(r: int, n: int) -> bool {
    0 <= r && r * r <= n < (r + 1) * (r + 1)
}

/// The whole part of the square root of `n`.
pub open spec fn whole_root(n: int) -> int {
    choose|r: int| is_root(r, n)
}

/// The distance of a point from the z axis, in millionths: the whole part
/// of the square root of `x^2 + y^2`.
pub open spec fn radial(p: Coords) -> int {
    whole_root(p.x * p.x + p.y * p.y)
}

/// A number has one whole root at most.
pub proof fn root_is_unique(r: int, s: int, n: int)
    requires
        is_root(r, n),
        is_root(s, n),
    ensures
        r == s,
{
    if r < s {
        assert((r + 1) * (r + 1) <= s * s) by (nonlinear_arith)
            requires
                0 <= r,
                r + 1 <= s,
        ;
    }
    if s < r {
        assert((s + 1) * (s + 1) <= r * r) by (nonlinear_arith)
            requires
                0 <= s,
                s + 1 <= r,
        ;
    }
}

/// With sines between minus one and one the glow of the Fire policy lies
/// between nothing and one, so red is at most 255, green at most 140 and
/// blue at most 40, and red is no less than green, nor green than blue.
pub proof fn fire_channels_bounded(ripple: int, flicker: int)
    requires
        -1_000_000 <= ripple <= 1_000_000,
        -1_000_000 <= flicker <= 1_000_000,
    ensures
        0 <= glow(ripple, flicker) <= 1_000_000,
        0 <= fire_color(ripple, flicker).2 <= 40,
        fire_color(ripple, flicker).2 <= fire_color(ripple, flicker).1 <= 140,
        fire_color(ripple, flicker).1 <= fire_color(ripple, flicker).0 <= 255,
{
    let swell: int = ripple + 1_000_000;
    let beat: int = 3 * flicker + 7_000_000;
    assert(0 <= swell * swell <= 4_000_000_000_000) by (nonlinear_arith)
        requires
            0 <= swell <= 2_000_000,
    ;
    assert(0 <= swell * swell * beat <= 40_000_000_000_000_000_000) by (nonlinear_arith)
        requires
            0 <= swell * swell <= 4_000_000_000_000,
            4_000_000 <= beat <= 10_000_000,
    ;
    let g: int = glow(ripple, flicker);
    assert(0 <= g <= 1_000_000);
    assert(0 <= g * g <= 1_000_000 * g) by (nonlinear_arith)
        requires
            0 <= g <= 1_000_000,
    ;
    assert(0 <= g * g * g <= 1_000_000 * (g * g)) by (nonlinear_arith)
        requires
            0 <= g <= 1_000_000,
            0 <= g * g,
    ;
    // 140 g^2 / 10^12 <= 255 g / 10^6 and 40 g^3 / 10^18 <= 140 g^2 / 10^12
    let red: int = 255 * g / 1_000_000;
    let green: int = 140 * (g * g) / 1_000_000_000_000;
    let blue: int = 40 * (g * g * g) / 1_000_000_000_000_000_000;
    assert(140 * (g * g) <= 1_000_000 * (255 * g));
    vstd::arithmetic::div_mod::lemma_div_is_ordered(
        140 * (g * g),
        1_000_000 * (255 * g),
        1_000_000_000_000,
    );
    assert((1_000_000 * (255 * g)) / 1_000_000_000_000 == (255 * g) / 1_000_000) by {
        vstd::arithmetic::div_mod::lemma_div_denominator(1_000_000 * (255 * g), 1_000_000, 1_000_000);
        vstd::arithmetic::div_mod::lemma_div_multiples_vanish(255 * g, 1_000_000);
    }
    assert(40 * (g * g * g) <= 1_000_000 * (140 * (g * g)));
    vstd::arithmetic::div_mod::lemma_div_is_ordered(
        40 * (g * g * g),
        1_000_000 * (140 * (g * g)),
        1_000_000_000_000_000_000,
    );
    assert((1_000_000 * (140 * (g * g))) / 1_000_000_000_000_000_000 == (140 * (g * g))
        / 1_000_000_000_000) by {
        vstd::arithmetic::div_mod::lemma_div_denominator(
            1_000_000 * (140 * (g * g)),
            1_000_000,
            1_000_000_000_000,
        );
        vstd::arithmetic::div_mod::lemma_div_multiples_vanish(140 * (g * g), 1_000_000);
    }
    assert(0 <= blue <= green <= red);
}

/// Under all three policies, whatever the depth, the time and the
/// trigonometric values, every channel lies between 0 and 255.
pub proof fn channels_are_bytes(depth: int, time: int, bearing: int, ripple: int, flicker: int)
    ensures
        0 <= normal_color(depth).0 <= 255,
        0 <= normal_color(depth).1 <= 255,
        0 <= normal_color(depth).2 <= 255,
        0 <= rainbow_color(bearing, time, depth).0 <= 255,
        0 <= rainbow_color(bearing, time, depth).1 <= 255,
        0 <= rainbow_color(bearing, time, depth).2 <= 255,
        0 <= fire_color(ripple, flicker).0 <= 255,
        0 <= fire_color(ripple, flicker).1 <= 255,
        0 <= fire_color(ripple, flicker).2 <= 255,
{
    color_wheel_within(rainbow_brightness(depth), wrap(bearing + time));
}

/// A share of a level lies between nothing and the level.
pub proof fn ramp_within(level: int, part: int, whole: int)
    requires
        0 <= level,
        0 <= part <= whole,
        0 < whole,
    ensures
        0 <= ramp(level, part, whole) <= level,
{
    let numer: int = 2 * (level * part) + whole;
    assert(0 <= level * part <= level * whole) by (nonlinear_arith)
        requires
            0 <= level,
            0 <= part <= whole,
    ;
    assert(numer < (2 * whole) * (level + 1)) by (nonlinear_arith)
        requires
            numer == 2 * (level * part) + whole,
            level * part <= level * whole,
            0 < whole,
    ;
    vstd::arithmetic::div_mod::lemma_multiply_divide_lt(numer, 2 * whole, level + 1);
    crate::fixed::quotient_between(numer, 2 * whole);
}

/// The colour wheel keeps every channel between nothing and the level.
pub proof fn color_wheel_within(level: int, hue: int)
    requires
        0 <= level,
        0 <= hue < 6_283_185,
    ensures
        0 <= color_wheel(level, hue).0 <= level,
        0 <= color_wheel(level, hue).1 <= level,
        0 <= color_wheel(level, hue).2 <= level,
{
    let turn: int = 6_283_185;
    let h: int = 1000 * hue;
    if h < 167 * turn {
        ramp_within(level, h, 167 * turn);
    } else if h < 334 * turn {
        ramp_within(level, 334 * turn - h, 167 * turn);
    } else if h < 500 * turn {
        ramp_within(level, h - 334 * turn, 166 * turn);
    } else if h < 667 * turn {
        ramp_within(level, 667 * turn - h, 167 * turn);
    } else if h < 834 * turn {
        ramp_within(level, h - 667 * turn, 167 * turn);
    } else {
        ramp_within(level, 1000 * turn - h, 166 * turn);
    }
}

/// A value floored into millionths of `scale` and held to a byte.
fn to_byte(numer: i128, denom: i128) -> (b: u8)
    requires
        denom > 0,
    ensures
        b == byte(numer as int / denom as int),
{
    let q: i128 = floor_div(numer, denom);
    if q < 0 {
        0
    } else if q > 255 {
        255
    } else {
        q as u8
    }
}

/// The colour of the Normal policy at a depth: a grey that grows with the
/// depth.
pub fn normal(depth: i64) -> (rgb: Rgb)
    ensures
        rgb@ == normal_color(depth as int),
{
    // Simple grayscale based on depth
    let brightness: u8 = to_byte(200 * (depth as i128 + 2_000_000) + 55 * 4_000_000, 4_000_000);
    Rgb { r: brightness, g: brightness, b: brightness }
}

/// The share `part / whole` of a level.
fn ramp_of(level: u8, part: i128, whole: i128) -> (share: u8)
    requires
        0 <= part <= whole,
        0 < whole <= 2_000_000_000,
    ensures
        share == ramp(level as int, part as int, whole as int),
        share <= level,
{
    proof {
        ramp_within(level as int, part as int, whole as int);
        crate::fixed::product_between(level as int, part as int, 255, 2_000_000_000);
    }
    let share: i128 = round_div((level as i128) * part, whole);
    share as u8
}

/// The colour of the Rainbow policy: a colour wheel that turns with the
/// time, at a brightness that grows with the depth. `bearing` is the angle
/// `atan2(x, y)` of the point.
pub fn rainbow(bearing: i64, time: i64, depth: i64) -> (rgb: Rgb)
    ensures
        rgb@ == rainbow_color(bearing as int, time as int, depth as int),
{
    // Rainbow pattern that shifts with time
    let hue: i64 = wrap_angle(bearing as i128 + time as i128);
    let level: u8 = to_byte(155 * (depth as i128 + 2_000_000) + 100 * 4_000_000, 4_000_000);

    // Map hue to RGB
    let turn: i128 = 6_283_185;
    let h: i128 = 1000 * (hue as i128);
    if h < 167 * turn {
        Rgb { r: level, g: ramp_of(level, h, 167 * turn), b: 0 }
    } else if h < 334 * turn {
        Rgb { r: ramp_of(level, 334 * turn - h, 167 * turn), g: level, b: 0 }
    } else if h < 500 * turn {
        Rgb { r: 0, g: level, b: ramp_of(level, h - 334 * turn, 166 * turn) }
    } else if h < 667 * turn {
        Rgb { r: 0, g: ramp_of(level, 667 * turn - h, 167 * turn), b: level }
    } else if h < 834 * turn {
        Rgb { r: ramp_of(level, h - 667 * turn, 167 * turn), g: 0, b: level }
    } else {
        Rgb { r: level, g: 0, b: ramp_of(level, 1000 * turn - h, 166 * turn) }
    }
}

/// The colour of the Fire policy. `ripple` holds the sine of the point's
/// radial distance, `flicker` the sine of three times the animation time.
pub fn fire(ripple: Turn, flicker: Turn) -> (rgb: Rgb)
    ensures
        rgb@ == fire_color(ripple.sine(), flicker.sine()),
        rgb.b <= rgb.g <= rgb.r,
        rgb.g <= 140,
        rgb.b <= 40,
{
    proof {
        use_type_invariant(&ripple);
        use_type_invariant(&flicker);
        fire_channels_bounded(ripple.sine(), flicker.sine());
    }
    // Fire effect
    let swell: i128 = ripple.sin() as i128 + 1_000_000;
    let beat: i128 = 3 * (flicker.sin() as i128) + 7_000_000;
    assert(0 <= swell * swell <= 4_000_000_000_000) by (nonlinear_arith)
        requires
            0 <= swell <= 2_000_000,
    ;
    assert(0 <= swell * swell * beat <= 40_000_000_000_000_000_000) by (nonlinear_arith)
        requires
            0 <= swell * swell <= 4_000_000_000_000,
            4_000_000 <= beat <= 10_000_000,
    ;
    let glow: i128 = floor_div(swell * swell * beat, 40_000_000_000_000);
    assert(0 <= glow <= 1_000_000);
    assert(0 <= glow * glow <= 1_000_000_000_000) by (nonlinear_arith)
        requires
            0 <= glow <= 1_000_000,
    ;
    assert(0 <= glow * glow * glow <= 1_000_000_000_000_000_000) by (nonlinear_arith)
        requires
            0 <= glow * glow <= 1_000_000_000_000,
            0 <= glow <= 1_000_000,
    ;

    let r: u8 = to_byte(255 * glow, 1_000_000);
    let g: u8 = to_byte(140 * (glow * glow), 1_000_000_000_000);
    let b: u8 = to_byte(40 * (glow * glow * glow), 1_000_000_000_000_000_000);

    Rgb { r, g, b }
}

/// The distance of a point from the z axis, in millionths: the whole part
/// of the square root of `x^2 + y^2`.
pub fn radial_distance(point: &Point3D) -> (d: u64)
    ensures
        d == radial(point@),
        is_root(d as int, point.x * point.x + point.y * point.y),
{
    let wide_x: i128 = point.x as i128;
    let wide_y: i128 = point.y as i128;
    assert(0 <= wide_x * wide_x <= 0x4000_0000_0000_0000_0000_0000_0000_0000) by (nonlinear_arith)
        requires
            -0x8000_0000_0000_0000 <= wide_x <= 0x8000_0000_0000_0000,
    ;
    assert(0 <= wide_y * wide_y <= 0x4000_0000_0000_0000_0000_0000_0000_0000) by (nonlinear_arith)
        requires
            -0x8000_0000_0000_0000 <= wide_y <= 0x8000_0000_0000_0000,
    ;
    let n: u128 = (wide_x * wide_x) as u128 + (wide_y * wide_y) as u128;
    let mut low: u128 = 0;
    let mut high: u128 = 0x1_0000_0000_0000_0000;
    assert(n < high * high) by (nonlinear_arith)
        requires
            n <= 0x8000_0000_0000_0000_0000_0000_0000_0000,
            high == 0x1_0000_0000_0000_0000,
    ;
    while high - low > 1
        invariant
            low < high <= 0x1_0000_0000_0000_0000,
            low * low <= n < high * high,
        decreases high - low,
    {
        let mid: u128 = low + (high - low) / 2;
        assert(mid * mid <= 0xffff_ffff_ffff_ffff * 0xffff_ffff_ffff_ffff) by (nonlinear_arith)
            requires
                0 <= mid <= 0xffff_ffff_ffff_ffff,
        ;
        if mid * mid <= n {
            low = mid;
        } else {
            high = mid;
        }
    }
    proof {
        let n: int = point.x * point.x + point.y * point.y;
        assert(is_root(low as int, n));
        root_is_unique(low as int, whole_root(n), n);
    }
    low as u64
}

/// The angle at which the Fire policy reads its flicker: three times the
/// animation time.
pub fn flicker_phase(time: i64) -> (phase: i128)
    ensures
        phase == 3 * time,
{
    3 * (time as i128)
}

} // verus!
