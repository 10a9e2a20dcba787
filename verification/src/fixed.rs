//! Fixed-point arithmetic.
//!
//! Lengths, angles in radians, times in seconds and the values of sines and
//! cosines are all held as whole numbers of millionths. Every decimal
//! constant of the renderer is exact in this unit; only the full turn is
//! rounded.

use vstd::prelude::*;

verus! {

/// One unit (one length unit, one radian, one second), in millionths.
pub const ONE: i64 = 1_000_000;

/// A full turn of two pi radians, rounded to the nearest millionth.
pub const TAU: i64 = 6_283_185;

/// Largest magnitude of a coordinate or of a rotation speed that the
/// arithmetic accepts: four million million units.
pub const LIMIT: i64 = 4_000_000_000_000_000_000;

/// The quotient `n / d` rounded to the nearest whole number, ties upward.
/// Meant for a positive `d`.
pub open spec fn nearest(n: int, d: int) -> int {
    (2 * n + d) / (2 * d)
}

/// A product of two fixed-point values brought back to millionths.
pub open spec fn rescale(p: int) -> int {
    (2 * p + 1_000_000) / 2_000_000
}

/// An angle reduced into one turn: the result lies in `[0, TAU)`.
pub open spec fn wrap(a: int) -> int {
    a % 6_283_185
}

/// `v` held between `lo` and `hi`.
pub open spec fn clamp(v: int, lo: int, hi: int) -> int {
    if v < lo {
        lo
    } else if v > hi {
        hi
    } else {
        v
    }
}

/// A floored quotient by a positive divisor lies between zero and the
/// dividend.
pub proof fn quotient_between(n: int, d: int)
    by (nonlinear_arith)
    requires
        d > 0,
    ensures
        n >= 0 ==> 0 <= n / d <= n,
        n < 0 ==> n <= n / d < 0,
{
}

/// A product of two bounded factors is bounded by the product of the bounds.
pub proof fn product_between(a: int, b: int, ma: int, mb: int)
    by (nonlinear_arith)
    requires
        -ma <= a <= ma,
        -mb <= b <= mb,
    ensures
        -(ma * mb) <= a * b <= ma * mb,
{
}

/// Whole turns make no difference to a reduced angle.
pub proof fn wrap_ignores_whole_turns(a: int, turns: int)
    ensures
        wrap(a + turns * TAU) == wrap(a),
{
    assert(a + turns * TAU == 6_283_185 * turns + a) by (nonlinear_arith);
    vstd::arithmetic::div_mod::lemma_mod_multiples_vanish(turns, a, 6_283_185);
}

/// Reducing an angle before an increment is added changes nothing: the
/// angle held after any number of increments is the reduced sum of them
/// all.
pub proof fn wrap_of_sum(a: int, d: int)
    ensures
        wrap(wrap(a) + d) == wrap(a + d),
        0 <= wrap(a) < TAU,
{
    vstd::arithmetic::div_mod::lemma_add_mod_noop(a, d, 6_283_185);
    vstd::arithmetic::div_mod::lemma_add_mod_noop(a % 6_283_185, d, 6_283_185);
    vstd::arithmetic::div_mod::lemma_mod_twice(a, 6_283_185);
}

/// The sum of a sequence of increments.
pub open spec fn total(steps: Seq<int>) -> int
    decreases steps.len(),
{
    if steps.len() == 0 {
        0
    } else {
        total(steps.drop_last()) + steps.last()
    }
}

/// The angle held after a sequence of increments, each sum reduced into
/// one turn as it is made.
pub open spec fn angle_after(start: int, steps: Seq<int>) -> int
    decreases steps.len(),
{
    if steps.len() == 0 {
        start
    } else {
        wrap(angle_after(start, steps.drop_last()) + steps.last())
    }
}

/// The angle held after any sequence of increments is the reduced sum of
/// the start and of all the increments.
pub proof fn angle_after_is_reduced_sum(start: int, steps: Seq<int>)
    requires
        0 <= start < TAU,
    ensures
        angle_after(start, steps) == wrap(start + total(steps)),
    decreases steps.len(),
{
    if steps.len() > 0 {
        angle_after_is_reduced_sum(start, steps.drop_last());
        wrap_of_sum(start + total(steps.drop_last()), steps.last());
    }
}

/// Increments that add up to whole turns bring the angle back to where it
/// started.
pub proof fn whole_turns_bring_the_angle_back(start: int, steps: Seq<int>, turns: int)
    requires
        0 <= start < TAU,
        total(steps) == turns * TAU,
    ensures
        angle_after(start, steps) == start,
{
    angle_after_is_reduced_sum(start, steps);
    wrap_ignores_whole_turns(start, turns);
}

/// An angle that is already within one turn is its own reduction.
pub proof fn wrap_of_reduced(a: int)
    requires
        0 <= a < TAU,
    ensures
        wrap(a) == a,
{
}

/// The floored quotient of `n` by a positive `d`.
pub fn floor_div(n: i128, d: i128) -> (q: i128)
    requires
        d > 0,
    ensures
        q == n as int / d as int,
{
    proof {
        quotient_between(n as int, d as int);
    }
    match n.checked_div_euclid(d) {
        Some(q) => q,
        None => 0,
    }
}

/// The remainder of `n` by a positive `d`, never negative.
pub fn floor_mod(n: i128, d: i128) -> (r: i128)
    requires
        d > 0,
    ensures
        r == n as int % d as int,
        0 <= r < d,
{
    match n.checked_rem_euclid(d) {
        Some(r) => r,
        None => 0,
    }
}

/// The quotient of `n` by a positive `d`, rounded to the nearest whole
/// number with ties upward.
pub fn round_div(n: i128, d: i128) -> (q: i128)
    requires
        d > 0,
        2 * d <= i128::MAX,
        i128::MIN <= 2 * n,
        2 * n + d <= i128::MAX,
    ensures
        q == nearest(n as int, d as int),
{
    floor_div(2 * n + d, 2 * d)
}

/// Reduces an angle into one turn.
pub fn wrap_angle(a: i128) -> (r: i64)
    ensures
        r == wrap(a as int),
        0 <= r < TAU,
{
    let r: i128 = floor_mod(a, TAU as i128);
    r as i64
}

/// The sine and the cosine of one angle, in millionths.
///
/// The library evaluates no trigonometric function itself. Where it needs
/// the sine and cosine of an angle it asks a function that whoever drives
/// it supplies, from an angle in millionths of a radian to a `Turn`. Both
/// values of a `Turn` always lie between minus one and one.
#[derive(Clone, Copy, Debug)]
pub struct Turn {
    sin: i64,
    cos: i64,
}

impl Turn {
    /// The sine, in millionths.
    pub closed spec fn sine(self) -> int {
        self.sin as int
    }

    /// The cosine, in millionths.
    pub closed spec fn cosine(self) -> int {
        self.cos as int
    }

    /// Both values lie between minus one and one. This holds of every
    /// `Turn` that a program holds.
    #[verifier::type_invariant]
    pub open spec fn is_unit(self) -> bool {
        -ONE <= self.sine() <= ONE && -ONE <= self.cosine() <= ONE
    }

    /// The turn by no angle at all: sine zero, cosine one.
    pub open spec fn is_identity(self) -> bool {
        self.sine() == 0 && self.cosine() == ONE
    }

    /// A turn from a sine and a cosine in millionths. A value beyond one in
    /// magnitude is held to one.
    pub fn new(sin: i64, cos: i64) -> (t: Turn)
        ensures
            t.sine() == clamp(sin as int, -ONE as int, ONE as int),
            t.cosine() == clamp(cos as int, -ONE as int, ONE as int),
            t.is_unit(),
    {
        let s: i64 = if sin < -ONE {
            -ONE
        } else if sin > ONE {
            ONE
        } else {
            sin
        };
        let c: i64 = if cos < -ONE {
            -ONE
        } else if cos > ONE {
            ONE
        } else {
            cos
        };
        Turn { sin: s, cos: c }
    }

    /// The turn by the zero angle.
    pub fn identity() -> (t: Turn)
        ensures
            t.is_identity(),
            t.is_unit(),
    {
        Turn { sin: 0, cos: ONE }
    }

    /// The sine, in millionths.
    pub fn sin(&self) -> (s: i64)
        ensures
            s == self.sine(),
            self.is_unit(),
    {
        proof {
            use_type_invariant(self);
        }
        self.sin
    }

    /// The cosine, in millionths.
    pub fn cos(&self) -> (c: i64)
        ensures
            c == self.cosine(),
            self.is_unit(),
    {
        proof {
            use_type_invariant(self);
        }
        self.cos
    }
}

/// The three turns are what `trig` gave as the sine and cosine of the
/// three angles.
pub open spec fn evaluated<F: Fn(i128) -> Turn>(
    trig: &F,
    angles: (int, int, int),
    turns: (Turn, Turn, Turn),
) -> bool {
    &&& call_ensures(trig, (angles.0 as i128,), turns.0)
    &&& call_ensures(trig, (angles.1 as i128,), turns.1)
    &&& call_ensures(trig, (angles.2 as i128,), turns.2)
}

} // verus!
