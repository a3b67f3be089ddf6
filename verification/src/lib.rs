//! Control-space mathematics and short-horizon motion prediction for an
//! Ackermann-style three-wheel chassis: two powered front wheels and one
//! steered rear wheel.
//!
//! The library converts among three descriptions of the chassis' motion
//! (the rear-wheel command [`Physical`], the drive-wheel observation
//! [`Wheels`] and the rigid-body twist [`Velocity`]), rate-limits
//! commands, predicts the commands a fixed-rate control loop will issue,
//! and integrates twists into planar pose increments.
//!
//! All quantities are carried by the fixed-point scalar [`fx::Fx`], so
//! that every arithmetic step has an exact, machine-checked description.

pub mod fx;
pub mod model;
pub mod motor;
pub mod odometry;
pub mod optimizer;
pub mod predict;
pub mod predictor;
pub mod text;
pub mod trajectory;
pub mod trig;

pub use fx::Fx;
pub use model::ChassisModel;
pub use motor::Motor;
pub use odometry::Odometry;
pub use optimizer::Optimizer;
pub use predict::Pm1Predictor;
pub use predictor::Predictor;
pub use trajectory::TrajectoryPredictor;

use vstd::prelude::*;

verus! {

/// The rear-wheel steering state of a [`Physical`] command: either a
/// definite angle, or released ("let the rear wheel float").
#[derive(Clone, Copy, PartialEq, Eq, Structural, Debug)]
pub enum Rudder {
    /// No steering command: the rear wheel may drift.
    Released,
    /// A steering angle in radians, positive to the left.
    Angle(Fx),
}

impl Rudder {
    /// Whether this is a definite steering angle of value `v`.
    pub open spec fn is_angle(self, v: int) -> bool {
        match self {
            Rudder::Released => false,
            Rudder::Angle(a) => a@ == v,
        }
    }
}

/// Ackermann-style command: the ground speed of the currently fastest
/// wheel, and the rear-wheel steering angle.
#[derive(Clone, Copy, PartialEq, Eq, Structural, Debug)]
pub struct Physical {
    /// Largest linear wheel speed over ground, in m/s; may be negative
    /// (reverse).
    pub speed: Fx,
    /// Rear-wheel steering angle in radians, in `[-pi/2, pi/2]`,
    /// or released.
    pub rudder: Rudder,
}

/// Differential observation: angular velocities of the two front drive
/// wheels, in rad/s, positive forward.
#[derive(Clone, Copy, PartialEq, Eq, Structural, Debug)]
pub struct Wheels {
    /// Left drive wheel, rad/s.
    pub left: Fx,
    /// Right drive wheel, rad/s.
    pub right: Fx,
}

/// Body-frame instantaneous motion: linear speed of the rotation centre
/// and angular speed, the hub representation between the other two.
#[derive(Clone, Copy, PartialEq, Eq, Structural, Debug)]
pub struct Velocity {
    /// Linear speed, m/s.
    pub v: Fx,
    /// Angular speed, rad/s, positive counterclockwise.
    pub w: Fx,
}

impl Physical {
    /// Whether the command is released.
    pub open spec fn is_released_spec(self) -> bool {
        self.rudder is Released
    }

    /// Whether the command asks for no longitudinal motion.
    pub open spec fn is_static_spec(self) -> bool {
        self.speed@ == 0
    }

    /// Completely still, rear wheel floating: the sentinel "no command".
    pub fn released() -> (r: Physical)
        ensures
            r.speed@ == 0,
            r.rudder == Rudder::Released,
    {
        Physical { speed: Fx::zero(), rudder: Rudder::Released }
    }

    /// Stopped and steering straight: for state that cannot carry the
    /// released sentinel.
    pub fn zero() -> (r: Physical)
        ensures
            r.speed@ == 0,
            r.rudder.is_angle(0),
    {
        Physical { speed: Fx::zero(), rudder: Rudder::Angle(Fx::zero()) }
    }

    /// Whether no longitudinal motion is commanded.
    pub fn is_static(&self) -> (r: bool)
        ensures
            r == self.is_static_spec(),
    {
        self.speed.is_zero()
    }

    /// Whether the rear wheel is uncontrolled.
    pub fn is_released(&self) -> (r: bool)
        ensures
            r == self.is_released_spec(),
    {
        match self.rudder {
            Rudder::Released => true,
            Rudder::Angle(_) => false,
        }
    }

    /// Scale the speed, keeping the steering angle.
    pub fn scale(self, k: Fx) -> (r: Physical)
        ensures
            r.speed@ == fx::rnd_sat(self.speed@ * k@, fx::SCALE as int),
            r.rudder == self.rudder,
    {
        Physical { speed: self.speed.mul(k), rudder: self.rudder }
    }
}

impl Wheels {
    /// Scale both wheel speeds.
    pub fn scale(self, k: Fx) -> (r: Wheels)
        ensures
            r.left@ == fx::rnd_sat(self.left@ * k@, fx::SCALE as int),
            r.right@ == fx::rnd_sat(self.right@ * k@, fx::SCALE as int),
    {
        Wheels { left: self.left.mul(k), right: self.right.mul(k) }
    }
}

impl Velocity {
    /// The zero twist: no motion.
    pub fn zero() -> (r: Velocity)
        ensures
            r.v@ == 0,
            r.w@ == 0,
    {
        Velocity { v: Fx::zero(), w: Fx::zero() }
    }
}

} // verus!
