//! The motion profiles: what rotation the lattice receives on each frame,
//! as a function of the time since the profile was chosen.

use vstd::prelude::*;
use crate::fixed::{round_div, Turn, LIMIT};
use crate::fixed::{clamp, evaluated, nearest, wrap};
use crate::waffle::{in_render_order, Waffle};

verus! {

/// Animation types for the waffle.
#[derive(Debug, Clone, Copy, PartialEq, Eq, Structural)]
pub enum AnimationType {
    Rotate,
    Pulse,
    Wave,
    Bounce,
}

/// The longest time, in millionths of a second, that the clock of a
/// profile counts; beyond it the clock stands still.
pub const CLOCK_LIMIT: i64 = 1_000_000_000_000_000_000;

/// The profile that follows a profile: Rotate, Pulse, Wave, Bounce, and
/// Rotate again.
pub open spec fn following(kind: AnimationType) -> AnimationType {
    match kind {
        AnimationType::Rotate => AnimationType::Pulse,
        AnimationType::Pulse => AnimationType::Wave,
        AnimationType::Wave => AnimationType::Bounce,
        AnimationType::Bounce => AnimationType::Rotate,
    }
}

/// The time on the clock of a profile chosen at `start`, read at `now`.
pub open spec fn elapsed_between(start: int, now: int) -> int {
    clamp(now - start, 0, CLOCK_LIMIT as int)
}

/// The three angles at which a profile reads sines and cosines at time
/// `t`: none for Rotate, `t` for Pulse, `0.5 t`, `0.7 t` and `0.3 t` for
/// Wave, `2 t` for Bounce.
pub open spec fn phase_angles(kind: AnimationType, t: int) -> (int, int, int) {
    match kind {
        AnimationType::Rotate => (0, 0, 0),
        AnimationType::Pulse => (t, t, t),
        AnimationType::Wave => (t / 2, 7 * t / 10, 3 * t / 10),
        AnimationType::Bounce => (2 * t, 2 * t, 2 * t),
    }
}

/// A rotation speed scaled by `factor / whole`, each axis to the nearest
/// millionth.
pub open spec fn scaled(speed: (int, int, int), factor: int, whole: int) -> (int, int, int) {
    (
        nearest(speed.0 * factor, whole),
        nearest(speed.1 * factor, whole),
        nearest(speed.2 * factor, whole),
    )
}

/// The magnitude of a sine.
pub open spec fn swing(sine: int) -> int {
    if sine < 0 {
        -sine
    } else {
        sine
    }
}

/// The scale of the Pulse profile, in ten-millionths:
/// `0.9 + 0.2 (sine 0.5 + 0.5)`.
pub open spec fn pulse_factor(sine: int) -> int {
    9_000_000 + (sine + 1_000_000)
}

/// The scale of the Bounce profile, in two-hundred-millionths:
/// `0.05 (0.3 + 0.7 |sine|)`.
pub open spec fn bounce_factor(sine: int) -> int {
    3_000_000 + 7 * swing(sine)
}

/// With a sine between minus one and one, Pulse scales the speed by
/// between 0.9 and 1.1, and Bounce by between 0.015 and 0.05.
pub proof fn scale_factors_in_range(sine: int)
    requires
        -1_000_000 <= sine <= 1_000_000,
    ensures
        9_000_000 <= pulse_factor(sine) <= 11_000_000,
        3_000_000 <= bounce_factor(sine) <= 10_000_000,
{
}

/// A greater factor scales a speed further from zero: a speed that is not
/// negative to no less, a speed that is not positive to no more.
pub proof fn scaling_is_monotone(speed: int, low: int, high: int, whole: int)
    requires
        low <= high,
        0 < whole,
    ensures
        speed >= 0 ==> nearest(speed * low, whole) <= nearest(speed * high, whole),
        speed <= 0 ==> nearest(speed * high, whole) <= nearest(speed * low, whole),
{
    if speed >= 0 {
        assert(speed * low <= speed * high) by (nonlinear_arith)
            requires
                speed >= 0,
                low <= high,
        ;
        vstd::arithmetic::div_mod::lemma_div_is_ordered(
            2 * (speed * low) + whole,
            2 * (speed * high) + whole,
            2 * whole,
        );
    }
    if speed <= 0 {
        assert(speed * high <= speed * low) by (nonlinear_arith)
            requires
                speed <= 0,
                low <= high,
        ;
        vstd::arithmetic::div_mod::lemma_div_is_ordered(
            2 * (speed * high) + whole,
            2 * (speed * low) + whole,
            2 * whole,
        );
    }
}

/// The rotation increment of one frame. `waves` holds the sines and
/// cosines at the three phase angles of the profile.
///
/// - Rotate: the configured speed.
/// - Pulse: the speed scaled by `0.9 + 0.2 (sin(t) 0.5 + 0.5)`.
/// - Wave: `(0.04 sin(0.5 t), 0.03 sin(0.7 t), 0.02 cos(0.3 t))`.
/// - Bounce: the speed scaled by `0.05 (0.3 + 0.7 |sin(2 t)|)`.
pub open spec fn increment_of(
    kind: AnimationType,
    speed: (int, int, int),
    waves: (Turn, Turn, Turn),
) -> (int, int, int) {
    match kind {
        AnimationType::Rotate => speed,
        AnimationType::Pulse => scaled(speed, pulse_factor(waves.0.sine()), 10_000_000),
        AnimationType::Wave => (
            nearest(4 * waves.0.sine(), 100),
            nearest(3 * waves.1.sine(), 100),
            nearest(2 * waves.2.cosine(), 100),
        ),
        AnimationType::Bounce => scaled(speed, bounce_factor(waves.0.sine()), 200_000_000),
    }
}

/// `waves` holds what a profile read at time `t`: sines and cosines
/// between minus one and one, and for every profile but Rotate those that
/// `trig` gave at its three phase angles.
pub open spec fn read_from<F: Fn(i128) -> Turn>(
    trig: &F,
    kind: AnimationType,
    t: int,
    waves: (Turn, Turn, Turn),
) -> bool {
    &&& waves.0.is_unit()
    &&& waves.1.is_unit()
    &&& waves.2.is_unit()
    &&& kind == AnimationType::Rotate || evaluated(trig, phase_angles(kind, t), waves)
}

/// Cumulative angles after a step: each sum reduced into one turn.
pub open spec fn stepped(rotation: (int, int, int), step: (int, int, int)) -> (int, int, int) {
    (wrap(rotation.0 + step.0), wrap(rotation.1 + step.1), wrap(rotation.2 + step.2))
}

/// What an animation is: its profile, the time at which the profile was
/// chosen, the time on its clock, and the configured rotation speed about
/// each axis, per frame. Times are in millionths of a second, speeds in
/// millionths of a radian.
pub struct AnimationView {
    pub animation_type: AnimationType,
    pub start_time: int,
    pub elapsed: int,
    pub rotation_speed: (int, int, int),
}

/// Manages animations for the waffle.
pub struct Animation {
    animation_type: AnimationType,
    start_time: i64,
    elapsed: i64,
    rotation_speed: (i64, i64, i64),
}

impl View for Animation {
    type V = AnimationView;

    closed spec fn view(&self) -> AnimationView {
        AnimationView {
            animation_type: self.animation_type,
            start_time: self.start_time as int,
            elapsed: self.elapsed as int,
            rotation_speed: (
                self.rotation_speed.0 as int,
                self.rotation_speed.1 as int,
                self.rotation_speed.2 as int,
            ),
        }
    }
}

/// A value held to the largest magnitude that the arithmetic accepts.
fn hold(v: i64) -> (r: i64)
    ensures
        r == clamp(v as int, -LIMIT as int, LIMIT as int),
{
    if v < -LIMIT {
        -LIMIT
    } else if v > LIMIT {
        LIMIT
    } else {
        v
    }
}

/// One axis of a speed scaled by `factor / whole`.
fn scale_axis(speed: i64, factor: i128, whole: i128) -> (r: i64)
    requires
        -LIMIT <= speed <= LIMIT,
        0 <= factor <= 11_000_000,
        whole == 10_000_000 || whole == 200_000_000,
    ensures
        r == nearest(speed * factor, whole as int),
{
    proof {
        crate::fixed::product_between(
            speed as int,
            factor as int,
            4_000_000_000_000_000_000,
            11_000_000,
        );
    }
    let scaled: i128 = round_div((speed as i128) * factor, whole);
    scaled as i64
}

impl Animation {
    #[verifier::type_invariant]
    closed spec fn in_bounds(&self) -> bool {
        &&& 0 <= self.elapsed <= CLOCK_LIMIT
        &&& -LIMIT <= self.rotation_speed.0 <= LIMIT
        &&& -LIMIT <= self.rotation_speed.1 <= LIMIT
        &&& -LIMIT <= self.rotation_speed.2 <= LIMIT
    }

    /// An animation that starts at `now` with the Rotate profile and the
    /// speed `(0.01, 0.02, 0.003)`.
    pub fn new(now: i64) -> (animation: Animation)
        ensures
            animation@ == (AnimationView {
                animation_type: AnimationType::Rotate,
                start_time: now as int,
                elapsed: 0,
                rotation_speed: (10_000, 20_000, 3_000),
            }),
    {
        Animation {
            animation_type: AnimationType::Rotate,
            start_time: now,
            elapsed: 0,
            rotation_speed: (10_000, 20_000, 3_000),
        }
    }

    /// Set the animation type. The clock of the profile starts again at
    /// `now`.
    pub fn set_animation_type(&mut self, animation_type: AnimationType, now: i64)
        ensures
            final(self)@ == (AnimationView {
                animation_type,
                start_time: now as int,
                elapsed: 0,
                ..old(self)@
            }),
    {
        proof {
            use_type_invariant(&*self);
        }
        self.animation_type = animation_type;
        self.start_time = now;
        self.elapsed = 0;
    }

    /// Set the rotation speed about each axis, per frame. A speed beyond
    /// `LIMIT` in magnitude is held to `LIMIT`.
    pub fn set_rotation_speed(&mut self, x: i64, y: i64, z: i64)
        ensures
            final(self)@ == (AnimationView {
                rotation_speed: (
                    clamp(x as int, -LIMIT as int, LIMIT as int),
                    clamp(y as int, -LIMIT as int, LIMIT as int),
                    clamp(z as int, -LIMIT as int, LIMIT as int),
                ),
                ..old(self)@
            }),
    {
        proof {
            use_type_invariant(&*self);
        }
        self.rotation_speed = (hold(x), hold(y), hold(z));
    }

    /// Get the current elapsed time, in millionths of a second.
    pub fn elapsed_time(&self) -> (elapsed: i64)
        ensures
            elapsed == self@.elapsed,
            0 <= elapsed <= CLOCK_LIMIT,
    {
        proof {
            use_type_invariant(self);
        }
        self.elapsed
    }

    /// The profile in force.
    pub fn animation_type(&self) -> (kind: AnimationType)
        ensures
            kind == self@.animation_type,
    {
        self.animation_type
    }

    /// The time that the clock of the profile shows at `now`.
    fn clock_at(&self, now: i64) -> (t: i64)
        ensures
            t == elapsed_between(self@.start_time, now as int),
            0 <= t <= CLOCK_LIMIT,
    {
        let since: i128 = now as i128 - self.start_time as i128;
        if since < 0 {
            0
        } else if since > CLOCK_LIMIT as i128 {
            CLOCK_LIMIT
        } else {
            since as i64
        }
    }

    /// The three angles, in millionths of a radian, at which the profile
    /// reads sines and cosines at the time `now`.
    pub fn phases(&self, now: i64) -> (angles: (i64, i64, i64))
        ensures
            angles.0 == phase_angles(
                self@.animation_type,
                elapsed_between(self@.start_time, now as int),
            ).0,
            angles.1 == phase_angles(
                self@.animation_type,
                elapsed_between(self@.start_time, now as int),
            ).1,
            angles.2 == phase_angles(
                self@.animation_type,
                elapsed_between(self@.start_time, now as int),
            ).2,
    {
        let t: i64 = self.clock_at(now);
        match self.animation_type {
            AnimationType::Rotate => (0, 0, 0),
            AnimationType::Pulse => (t, t, t),
            AnimationType::Wave => (t / 2, 7 * t / 10, 3 * t / 10),
            AnimationType::Bounce => (2 * t, 2 * t, 2 * t),
        }
    }

    /// The rotation increment of one frame, given the sines and cosines
    /// at the three phase angles.
    pub fn increment(&self, waves: (Turn, Turn, Turn)) -> (step: (i64, i64, i64))
        ensures
            step.0 == increment_of(self@.animation_type, self@.rotation_speed, waves).0,
            step.1 == increment_of(self@.animation_type, self@.rotation_speed, waves).1,
            step.2 == increment_of(self@.animation_type, self@.rotation_speed, waves).2,
    {
        proof {
            use_type_invariant(self);
        }
        let (dx, dy, dz): (i64, i64, i64) = self.rotation_speed;
        match self.animation_type {
            AnimationType::Rotate => {
                // Simple rotation animation
                (dx, dy, dz)
            },
            AnimationType::Pulse => {
                // Rotate with variable speed based on pulse
                let pulse: i128 = 9_000_000 + (waves.0.sin() as i128 + 1_000_000);
                (
                    scale_axis(dx, pulse, 10_000_000),
                    scale_axis(dy, pulse, 10_000_000),
                    scale_axis(dz, pulse, 10_000_000),
                )
            },
            AnimationType::Wave => {
                // Wave-like animation
                let wave_x: i128 = round_div(4 * (waves.0.sin() as i128), 100);
                let wave_y: i128 = round_div(3 * (waves.1.sin() as i128), 100);
                let wave_z: i128 = round_div(2 * (waves.2.cos() as i128), 100);
                (wave_x as i64, wave_y as i64, wave_z as i64)
            },
            AnimationType::Bounce => {
                // Bouncing animation
                let sine: i128 = waves.0.sin() as i128;
                let swing: i128 = if sine < 0 {
                    -sine
                } else {
                    sine
                };
                let bounce: i128 = 3_000_000 + 7 * swing;
                (
                    scale_axis(dx, bounce, 200_000_000),
                    scale_axis(dy, bounce, 200_000_000),
                    scale_axis(dz, bounce, 200_000_000),
                )
            },
        }
    }

    /// Update the waffle based on the current animation: the clock is read
    /// at `now`, the sines and cosines at the phase angles of the profile
    /// are asked of `trig`, and the waffle is rotated by the increment that
    /// the profile makes of them. The Rotate profile reads none and asks
    /// for none.
    pub fn update<F: Fn(i128) -> Turn>(&mut self, waffle: &mut Waffle, now: i64, trig: &F)
        requires
            old(waffle).wf(),
            forall|angle: i128| #[trigger] call_requires(trig, (angle,)),
        ensures
            final(self)@ == (AnimationView {
                elapsed: elapsed_between(old(self)@.start_time, now as int),
                ..old(self)@
            }),
            final(waffle).wf(),
            final(waffle)@.size == old(waffle)@.size,
            final(waffle)@.reference == old(waffle)@.reference,
            final(waffle)@.cells.len() == old(waffle)@.cells.len(),
            exists|waves: (Turn, Turn, Turn)|
                {
                    &&& #[trigger] read_from(
                        trig,
                        old(self)@.animation_type,
                        elapsed_between(old(self)@.start_time, now as int),
                        waves,
                    )
                    &&& final(waffle)@.rotation == stepped(
                        old(waffle)@.rotation,
                        increment_of(old(self)@.animation_type, old(self)@.rotation_speed, waves),
                    )
                },
            evaluated(trig, final(waffle)@.rotation, final(waffle)@.turns),
            in_render_order(final(waffle)@.cells),
    {
        proof {
            use_type_invariant(&*self);
        }
        // Update elapsed time
        let (px, py, pz): (i64, i64, i64) = self.phases(now);
        self.elapsed = self.clock_at(now);
        let waves: (Turn, Turn, Turn) = match self.animation_type {
            AnimationType::Rotate => (Turn::identity(), Turn::identity(), Turn::identity()),
            AnimationType::Pulse | AnimationType::Bounce => {
                let wave: Turn = trig(px as i128);
                (wave, wave, wave)
            },
            AnimationType::Wave => (trig(px as i128), trig(py as i128), trig(pz as i128)),
        };
        let (dx, dy, dz): (i64, i64, i64) = self.increment(waves);
        waffle.rotate(dx, dy, dz, trig);
        proof {
            use_type_invariant(&waves.0);
            use_type_invariant(&waves.1);
            use_type_invariant(&waves.2);
            assert(read_from(
                trig,
                old(self)@.animation_type,
                elapsed_between(old(self)@.start_time, now as int),
                waves,
            ));
        }
    }

    /// Cycle to the next animation type. The clock of the new profile
    /// starts at `now`.
    pub fn next_animation(&mut self, now: i64)
        ensures
            final(self)@ == (AnimationView {
                animation_type: following(old(self)@.animation_type),
                start_time: now as int,
                elapsed: 0,
                ..old(self)@
            }),
    {
        proof {
            use_type_invariant(&*self);
        }
        self.animation_type = match self.animation_type {
            AnimationType::Rotate => AnimationType::Pulse,
            AnimationType::Pulse => AnimationType::Wave,
            AnimationType::Wave => AnimationType::Bounce,
            AnimationType::Bounce => AnimationType::Rotate,
        };

        // Reset start time for the new animation
        self.start_time = now;
        self.elapsed = 0;
    }
}

} // verus!
