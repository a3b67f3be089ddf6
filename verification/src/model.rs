//! Chassis geometry: conversions among the three control-space
//! representations, and the critical steering angle that decides which
//! wheel bounds the vehicle's speed.
//!
//! Each executable conversion carries an exact contract: its result is
//! the once-rounded value of the ideal rational formula.  The ideal
//! formulas themselves are stated as spec functions over exact
//! rationals ([`Rat`]), and the inverse and linearity laws of the
//! wheel/twist pair are proved about them.

use vstd::prelude::*;
use crate::fx::{self, Fx};
use crate::odometry::{odo_of_velocity_spec, odo_view, Odometry};
use crate::trig::{self, FRAC_PI_2_RAW};
use crate::{Physical, Rudder, Velocity, Wheels};

verus! {

/// An exact rational in raw units: `n / d`.  Used only in
/// specifications, to state what a conversion would be without
/// rounding.
pub struct Rat {
    /// Numerator.
    pub n: int,
    /// Denominator.
    pub d: int,
}

/// Equality of rationals by cross-multiplication.
pub open spec fn rat_eq(a: Rat, b: Rat) -> bool {
    a.n * b.d == b.n * a.d
}

/// An integer as a rational.
pub open spec fn rat_int(x: int) -> Rat {
    Rat { n: x, d: 1 }
}

/// A rational scaled by an integer factor.
pub open spec fn rat_scale(k: int, q: Rat) -> Rat {
    Rat { n: k * q.n, d: q.d }
}

/// Ideal linear speed (raw units) observed from two wheel speeds:
/// `(right + left) * wheel / 2`.
pub open spec fn twist_of_wheels_v(l: Rat, r: Rat, wheel: int) -> Rat {
    Rat { n: (r.n * l.d + l.n * r.d) * wheel, d: 2 * fx::SCALE as int * (l.d * r.d) }
}

/// Ideal angular speed (raw units) observed from two wheel speeds:
/// `(right - left) * wheel / width`.
pub open spec fn twist_of_wheels_w(l: Rat, r: Rat, wheel: int, width: int) -> Rat {
    Rat { n: (r.n * l.d - l.n * r.d) * wheel, d: width * (l.d * r.d) }
}

/// Ideal left wheel speed (raw units) realising a twist:
/// `(v - width/2 * w) / wheel`.
pub open spec fn wheels_of_twist_l(v: Rat, w: Rat, wheel: int, width: int) -> Rat {
    Rat {
        n: 2 * fx::SCALE as int * v.n * w.d - width * w.n * v.d,
        d: 2 * wheel * (v.d * w.d),
    }
}

/// Ideal right wheel speed (raw units) realising a twist:
/// `(v + width/2 * w) / wheel`.
pub open spec fn wheels_of_twist_r(v: Rat, w: Rat, wheel: int, width: int) -> Rat {
    Rat {
        n: 2 * fx::SCALE as int * v.n * w.d + width * w.n * v.d,
        d: 2 * wheel * (v.d * w.d),
    }
}

/// The critical steering angle derived from the chassis dimensions:
/// `atan2(length^2 / width - width / 2, length)`, each arithmetic step
/// rounded once.
pub open spec fn critical_spec(width: int, length: int) -> int {
    let l2 = fx::rnd_sat(length * length, fx::SCALE as int);
    let l2w = fx::rnd_sat(l2 * fx::SCALE as int, width);
    let hw = fx::rnd_sat(width * fx::SCALE as int, 2 * fx::SCALE as int);
    trig::atan2_spec(fx::sat(l2w - hw), length)
}

/// Chassis structure: track width, wheelbase and drive-wheel radius in
/// metres, with the cached critical steering angle.
#[derive(Clone, Copy, PartialEq, Eq, Structural, Debug)]
pub struct ChassisModel {
    /// Distance between the two drive wheels, m.
    pub width: Fx,
    /// Distance between the drive axle and the rear wheel, m.
    pub length: Fx,
    /// Drive-wheel radius, m.
    pub wheel: Fx,
    /// The cached critical steering angle, derived by [`ChassisModel::new`]:
    /// the magnitude beyond which the rear wheel, not a front wheel, is
    /// the fastest.
    pub critical_rudder: Fx,
}

impl ChassisModel {
    /// The cached critical steering angle, in raw radian units.
    pub open spec fn critical(self) -> int {
        self.critical_rudder@
    }

    /// Dimensions a physical chassis can have: positive, with the
    /// wheel radius small enough that its doubling stays
    /// representable.
    pub open spec fn wf(self) -> bool {
        0 < self.width@ && 0 < self.length@ && 0 < self.wheel@ <= fx::MAX_RAW as int / 2
    }

    /// Build a model from track width, wheelbase and wheel radius,
    /// deriving the critical steering angle.
    pub fn new(width: Fx, length: Fx, wheel: Fx) -> (r: ChassisModel)
        requires
            0 < width@,
            0 < length@,
            0 < wheel@ <= fx::MAX_RAW as int / 2,
        ensures
            r.width == width,
            r.length == length,
            r.wheel == wheel,
            r.critical() == critical_spec(width@, length@),
            r.wf(),
    {
        let l2 = length.mul(length);
        let l2w = l2.div(width);
        let hw = width.div(Fx::from_int(2));
        let critical_rudder = trig::atan2_fx(l2w.sub(hw), length);
        ChassisModel { width, length, wheel, critical_rudder }
    }

    /// Whether a command's steering angle lies in the mechanical range
    /// `[-pi/2, pi/2]` (a released command always does).
    pub open spec fn rudder_in_domain(p: Physical) -> bool {
        match p.rudder {
            Rudder::Released => true,
            Rudder::Angle(a) => fx::abs_i(a@) <= FRAC_PI_2_RAW as int,
        }
    }

    /// The twist a command produces, following the case split of the
    /// kinematic model; every arithmetic step rounded once, and every
    /// degenerate division (a trig kernel or a turn radius rounding to
    /// zero) falling back to the straight-line case.
    pub open spec fn physical_to_velocity_spec(self, speed: int, rudder: Rudder) -> (int, int) {
        match rudder {
            Rudder::Released => (0, 0),
            Rudder::Angle(a) => {
                if a@ == 0 {
                    (speed, 0)
                } else {
                    let t = trig::tan_spec(a@);
                    if t == 0 {
                        (speed, 0)
                    } else {
                        let r_c = fx::rnd_sat(-self.length@ * fx::SCALE as int, t);
                        let den = if fx::abs_i(a@) > self.critical() {
                            let s = fx::sat(trig::sin_fix(a@));
                            if s == 0 {
                                0
                            } else {
                                fx::rnd_sat(-self.length@ * fx::SCALE as int, s)
                            }
                        } else if a@ > 0 {
                            fx::sat(
                                r_c - fx::rnd_sat(
                                    self.width@ * fx::SCALE as int,
                                    2 * fx::SCALE as int,
                                ),
                            )
                        } else {
                            fx::sat(
                                r_c + fx::rnd_sat(
                                    self.width@ * fx::SCALE as int,
                                    2 * fx::SCALE as int,
                                ),
                            )
                        };
                        if den == 0 {
                            (speed, 0)
                        } else {
                            let w = fx::rnd_sat(speed * fx::SCALE as int, den);
                            (fx::rnd_sat(w * r_c, fx::SCALE as int), w)
                        }
                    }
                }
            },
        }
    }

    /// Convert a rear-wheel command to a twist.
    pub fn physical_to_velocity(&self, physical: Physical) -> (r: Velocity)
        requires
            self.wf(),
            Self::rudder_in_domain(physical),
        ensures
            (r.v@, r.w@) == self.physical_to_velocity_spec(physical.speed@, physical.rudder),
    {
        match physical.rudder {
            Rudder::Released => Velocity::zero(),
            Rudder::Angle(a) => {
                if a.is_zero() {
                    Velocity { v: physical.speed, w: Fx::zero() }
                } else {
                    let t = trig::tan_fx(a);
                    if t.is_zero() {
                        Velocity { v: physical.speed, w: Fx::zero() }
                    } else {
                        let r_c = self.length.neg().div(t);
                        let den: Fx = if self.critical_abs_lt(a) {
                            let s = trig::sin_fx(a);
                            if s.is_zero() {
                                Fx::zero()
                            } else {
                                self.length.neg().div(s)
                            }
                        } else if Fx::zero().lt(a) {
                            r_c.sub(self.width.div(Fx::from_int(2)))
                        } else {
                            r_c.add(self.width.div(Fx::from_int(2)))
                        };
                        if den.is_zero() {
                            Velocity { v: physical.speed, w: Fx::zero() }
                        } else {
                            let w = physical.speed.div(den);
                            Velocity { v: w.mul(r_c), w }
                        }
                    }
                }
            },
        }
    }

    /// Whether `|a|` exceeds the cached critical angle.
    fn critical_abs_lt(&self, a: Fx) -> (r: bool)
        ensures
            r == (fx::abs_i(a@) > self.critical()),
    {
        self.critical_rudder.lt(a.abs())
    }

    /// The command a twist corresponds to: released for no motion, the
    /// straight command for pure translation, and otherwise the
    /// steering angle recovered through the quadrant-corrected
    /// arc-tangent and clamped into the mechanical range, with the
    /// speed of whichever wheel the angle makes fastest.  The speed and
    /// the optional steering angle are returned.
    pub open spec fn velocity_to_physical_spec(self, v: int, w: int) -> (int, Option<int>) {
        if w == 0 {
            if v == 0 {
                (0, Option::None)
            } else {
                (v, Option::Some(0))
            }
        } else {
            let r_c = fx::rnd_sat(v * fx::SCALE as int, w);
            let y = if r_c >= 0 {
                -self.length@
            } else {
                self.length@
            };
            let rudder = fx::clamp_i(
                trig::atan2_spec(y, fx::abs_i(r_c)),
                FRAC_PI_2_RAW as int,
            );
            let hw = fx::rnd_sat(self.width@ * fx::SCALE as int, 2 * fx::SCALE as int);
            let r_eff = if fx::abs_i(rudder) > self.critical() {
                let s = fx::sat(trig::sin_fix(rudder));
                if s == 0 {
                    0
                } else {
                    fx::rnd_sat(-self.length@ * fx::SCALE as int, s)
                }
            } else if rudder > 0 {
                fx::sat(r_c - hw)
            } else {
                fx::sat(r_c + hw)
            };
            (fx::rnd_sat(w * r_eff, fx::SCALE as int), Option::Some(rudder))
        }
    }

    /// Convert a twist back to a rear-wheel command; the recovered
    /// steering angle is always inside the mechanical range.
    pub fn velocity_to_physical(&self, velocity: Velocity) -> (r: Physical)
        requires
            self.wf(),
        ensures
            ({
                let (s, rd) = self.velocity_to_physical_spec(velocity.v@, velocity.w@);
                r.speed@ == s && match rd {
                    Option::None => r.rudder is Released,
                    Option::Some(a) => r.rudder.is_angle(a),
                }
            }),
            Self::rudder_in_domain(r),
    {
        if velocity.w.is_zero() {
            if velocity.v.is_zero() {
                Physical::released()
            } else {
                Physical { speed: velocity.v, rudder: Rudder::Angle(Fx::zero()) }
            }
        } else {
            let r_c = velocity.v.div(velocity.w);
            let y = if r_c.lt(Fx::zero()) {
                self.length
            } else {
                self.length.neg()
            };
            let rudder = trig::atan2_fx(y, r_c.abs()).clamp_mag(Fx::from_raw(FRAC_PI_2_RAW));
            let hw = self.width.div(Fx::from_int(2));
            let r_eff: Fx = if self.critical_abs_lt(rudder) {
                let s = trig::sin_fx(rudder);
                if s.is_zero() {
                    Fx::zero()
                } else {
                    self.length.neg().div(s)
                }
            } else if Fx::zero().lt(rudder) {
                r_c.sub(hw)
            } else {
                r_c.add(hw)
            };
            Physical { speed: velocity.w.mul(r_eff), rudder: Rudder::Angle(rudder) }
        }
    }

    /// Convert a wheels observation to a twist: the once-rounded value
    /// of the ideal formulas [`twist_of_wheels_v`] and
    /// [`twist_of_wheels_w`].
    pub fn wheels_to_velocity(&self, wheels: Wheels) -> (r: Velocity)
        requires
            self.wf(),
        ensures
            ({
                let qv = twist_of_wheels_v(rat_int(wheels.left@), rat_int(wheels.right@), self.wheel@);
                let qw = twist_of_wheels_w(
                    rat_int(wheels.left@),
                    rat_int(wheels.right@),
                    self.wheel@,
                    self.width@,
                );
                r.v@ == fx::rnd_sat(qv.n, qv.d) && r.w@ == fx::rnd_sat(qw.n, qw.d)
            }),
    {
        let v = fx::dot2_div(
            wheels.right,
            self.wheel,
            wheels.left,
            self.wheel,
            Fx::from_int(2),
        );
        let w = fx::dot2_div(
            wheels.right,
            self.wheel,
            wheels.left.neg(),
            self.wheel,
            self.width,
        );
        proof {
            assert(twist_of_wheels_v(rat_int(wheels.left@), rat_int(wheels.right@), self.wheel@)
                == (Rat {
                n: wheels.right@ * self.wheel@ + wheels.left@ * self.wheel@,
                d: 2 * fx::SCALE as int,
            })) by (nonlinear_arith);
            assert(twist_of_wheels_w(
                rat_int(wheels.left@),
                rat_int(wheels.right@),
                self.wheel@,
                self.width@,
            ) == (Rat {
                n: wheels.right@ * self.wheel@ + (-wheels.left@) * self.wheel@,
                d: self.width@,
            })) by (nonlinear_arith);
        }
        Velocity { v, w }
    }

    /// Convert a twist to the wheels observation realising it: the
    /// once-rounded value of the ideal formulas [`wheels_of_twist_l`]
    /// and [`wheels_of_twist_r`].
    pub fn velocity_to_wheels(&self, velocity: Velocity) -> (r: Wheels)
        requires
            self.wf(),
        ensures
            ({
                let ql = wheels_of_twist_l(
                    rat_int(velocity.v@),
                    rat_int(velocity.w@),
                    self.wheel@,
                    self.width@,
                );
                let qr = wheels_of_twist_r(
                    rat_int(velocity.v@),
                    rat_int(velocity.w@),
                    self.wheel@,
                    self.width@,
                );
                r.left@ == fx::rnd_sat(ql.n, ql.d) && r.right@ == fx::rnd_sat(qr.n, qr.d)
            }),
    {
        let wheel2 = self.wheel.add(self.wheel);
        let left = fx::dot2_div(
            Fx::from_int(2),
            velocity.v,
            self.width.neg(),
            velocity.w,
            wheel2,
        );
        let right = fx::dot2_div(
            Fx::from_int(2),
            velocity.v,
            self.width,
            velocity.w,
            wheel2,
        );
        proof {
            assert(wheels_of_twist_l(
                rat_int(velocity.v@),
                rat_int(velocity.w@),
                self.wheel@,
                self.width@,
            ) == (Rat {
                n: (2 * fx::SCALE as int) * velocity.v@ + (-self.width@) * velocity.w@,
                d: 2 * self.wheel@,
            })) by (nonlinear_arith);
            assert(wheels_of_twist_r(
                rat_int(velocity.v@),
                rat_int(velocity.w@),
                self.wheel@,
                self.width@,
            ) == (Rat {
                n: (2 * fx::SCALE as int) * velocity.v@ + self.width@ * velocity.w@,
                d: 2 * self.wheel@,
            })) by (nonlinear_arith);
            assert(wheel2@ == 2 * self.wheel@);
        }
        Wheels { left, right }
    }

    /// Convert a command to the wheels observation realising it, by
    /// way of the twist.
    pub fn physical_to_wheels(&self, physical: Physical) -> (r: Wheels)
        requires
            self.wf(),
            Self::rudder_in_domain(physical),
        ensures
            ({
                let (v, w) = self.physical_to_velocity_spec(physical.speed@, physical.rudder);
                let ql = wheels_of_twist_l(rat_int(v), rat_int(w), self.wheel@, self.width@);
                let qr = wheels_of_twist_r(rat_int(v), rat_int(w), self.wheel@, self.width@);
                r.left@ == fx::rnd_sat(ql.n, ql.d) && r.right@ == fx::rnd_sat(qr.n, qr.d)
            }),
    {
        self.velocity_to_wheels(self.physical_to_velocity(physical))
    }

    /// Convert a wheels observation to the command it looks like, by
    /// way of the twist.
    pub fn wheels_to_physical(&self, wheels: Wheels) -> (r: Physical)
        requires
            self.wf(),
        ensures
            ({
                let qv = twist_of_wheels_v(rat_int(wheels.left@), rat_int(wheels.right@), self.wheel@);
                let qw = twist_of_wheels_w(
                    rat_int(wheels.left@),
                    rat_int(wheels.right@),
                    self.wheel@,
                    self.width@,
                );
                let (s, rd) = self.velocity_to_physical_spec(
                    fx::rnd_sat(qv.n, qv.d),
                    fx::rnd_sat(qw.n, qw.d),
                );
                r.speed@ == s && match rd {
                    Option::None => r.rudder is Released,
                    Option::Some(a) => r.rudder.is_angle(a),
                }
            }),
            Self::rudder_in_domain(r),
    {
        self.velocity_to_physical(self.wheels_to_velocity(wheels))
    }

    /// Integrate a twist into a pose increment (see
    /// [`Odometry::from_velocity`]).
    pub fn velocity_to_odometry(&self, velocity: Velocity) -> (r: Odometry)
        ensures
            odo_view(r) == odo_of_velocity_spec(velocity.v@, velocity.w@),
    {
        Odometry::from_velocity(velocity)
    }

    /// Read a twist off the wheels and integrate it into a pose
    /// increment.
    pub fn wheels_to_odometry(&self, wheels: Wheels) -> (r: Odometry)
        requires
            self.wf(),
        ensures
            ({
                let qv = twist_of_wheels_v(rat_int(wheels.left@), rat_int(wheels.right@), self.wheel@);
                let qw = twist_of_wheels_w(
                    rat_int(wheels.left@),
                    rat_int(wheels.right@),
                    self.wheel@,
                    self.width@,
                );
                odo_view(r) == odo_of_velocity_spec(
                    fx::rnd_sat(qv.n, qv.d),
                    fx::rnd_sat(qw.n, qw.d),
                )
            }),
    {
        Odometry::from_velocity(self.wheels_to_velocity(wheels))
    }

    /// Resolve a command into a twist and integrate it into a pose
    /// increment.
    pub fn physical_to_odometry(&self, physical: Physical) -> (r: Odometry)
        requires
            self.wf(),
            Self::rudder_in_domain(physical),
        ensures
            ({
                let (v, w) = self.physical_to_velocity_spec(physical.speed@, physical.rudder);
                odo_view(r) == odo_of_velocity_spec(v, w)
            }),
    {
        Odometry::from_velocity(self.physical_to_velocity(physical))
    }
}

impl Default for ChassisModel {
    /// The reference platform's dimensions: 0.465 m track, 0.355 m
    /// wheelbase, 0.105 m wheel radius.
    fn default() -> (r: ChassisModel)
        ensures
            r.width@ == fx::rnd(465 * fx::SCALE as int, 1000),
            r.length@ == fx::rnd(355 * fx::SCALE as int, 1000),
            r.wheel@ == fx::rnd(105 * fx::SCALE as int, 1000),
            r.critical() == critical_spec(r.width@, r.length@),
            r.wf(),
    {
        let width = Fx::from_ratio(465, 1000);
        let length = Fx::from_ratio(355, 1000);
        let wheel = Fx::from_ratio(105, 1000);
        proof {
            assert((2 * (465 * fx::SCALE as int) + 1000) / (2000 as int) == 1997159793);
            assert((2 * (355 * fx::SCALE as int) + 1000) / (2000 as int) == 1524713390);
            assert((2 * (105 * fx::SCALE as int) + 1000) / (2000 as int) == 450971566);
        }
        ChassisModel::new(width, length, wheel)
    }
}

/// Wheel/twist round trip, forward: reading a twist off two wheel
/// speeds and converting it back yields exactly the wheel speeds, in
/// the ideal (unrounded) arithmetic the conversions' contracts are
/// stated over.
pub proof fn lemma_wheel_twist_round_trip(l: int, r: int, wheel: int, width: int)
    requires
        wheel != 0,
        width != 0,
    ensures
        rat_eq(
            wheels_of_twist_l(
                twist_of_wheels_v(rat_int(l), rat_int(r), wheel),
                twist_of_wheels_w(rat_int(l), rat_int(r), wheel, width),
                wheel,
                width,
            ),
            rat_int(l),
        ),
        rat_eq(
            wheels_of_twist_r(
                twist_of_wheels_v(rat_int(l), rat_int(r), wheel),
                twist_of_wheels_w(rat_int(l), rat_int(r), wheel, width),
                wheel,
                width,
            ),
            rat_int(r),
        ),
{
    assert(rat_eq(
        wheels_of_twist_l(
            twist_of_wheels_v(rat_int(l), rat_int(r), wheel),
            twist_of_wheels_w(rat_int(l), rat_int(r), wheel, width),
            wheel,
            width,
        ),
        rat_int(l),
    )) by (nonlinear_arith);
    assert(rat_eq(
        wheels_of_twist_r(
            twist_of_wheels_v(rat_int(l), rat_int(r), wheel),
            twist_of_wheels_w(rat_int(l), rat_int(r), wheel, width),
            wheel,
            width,
        ),
        rat_int(r),
    )) by (nonlinear_arith);
}

/// Wheel/twist round trip, backward: realising a twist on the wheels
/// and reading it back yields exactly the twist, in the ideal
/// arithmetic.
pub proof fn lemma_twist_wheel_round_trip(v: int, w: int, wheel: int, width: int)
    requires
        wheel != 0,
        width != 0,
    ensures
        rat_eq(
            twist_of_wheels_v(
                wheels_of_twist_l(rat_int(v), rat_int(w), wheel, width),
                wheels_of_twist_r(rat_int(v), rat_int(w), wheel, width),
                wheel,
            ),
            rat_int(v),
        ),
        rat_eq(
            twist_of_wheels_w(
                wheels_of_twist_l(rat_int(v), rat_int(w), wheel, width),
                wheels_of_twist_r(rat_int(v), rat_int(w), wheel, width),
                wheel,
                width,
            ),
            rat_int(w),
        ),
{
    assert(rat_eq(
        twist_of_wheels_v(
            wheels_of_twist_l(rat_int(v), rat_int(w), wheel, width),
            wheels_of_twist_r(rat_int(v), rat_int(w), wheel, width),
            wheel,
        ),
        rat_int(v),
    )) by (nonlinear_arith);
    assert(rat_eq(
        twist_of_wheels_w(
            wheels_of_twist_l(rat_int(v), rat_int(w), wheel, width),
            wheels_of_twist_r(rat_int(v), rat_int(w), wheel, width),
            wheel,
            width,
        ),
        rat_int(w),
    )) by (nonlinear_arith);
}

/// The wheel-to-twist reading is linear: scaling both wheel speeds by
/// `k` scales the ideal twist by `k`.
pub proof fn lemma_wheels_to_twist_linear(l: int, r: int, k: int, wheel: int, width: int)
    requires
        wheel != 0,
        width != 0,
    ensures
        rat_eq(
            twist_of_wheels_v(rat_int(k * l), rat_int(k * r), wheel),
            rat_scale(k, twist_of_wheels_v(rat_int(l), rat_int(r), wheel)),
        ),
        rat_eq(
            twist_of_wheels_w(rat_int(k * l), rat_int(k * r), wheel, width),
            rat_scale(k, twist_of_wheels_w(rat_int(l), rat_int(r), wheel, width)),
        ),
{
    assert(rat_eq(
        twist_of_wheels_v(rat_int(k * l), rat_int(k * r), wheel),
        rat_scale(k, twist_of_wheels_v(rat_int(l), rat_int(r), wheel)),
    )) by (nonlinear_arith);
    assert(rat_eq(
        twist_of_wheels_w(rat_int(k * l), rat_int(k * r), wheel, width),
        rat_scale(k, twist_of_wheels_w(rat_int(l), rat_int(r), wheel, width)),
    )) by (nonlinear_arith);
}

} // verus!
