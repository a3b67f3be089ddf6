//! Status predictor: steps the current command toward the target one
//! control tick at a time, respecting the speed optimizer and the
//! rear-wheel slew rate, and stops once the target is released and the
//! chassis is still.

use vstd::prelude::*;
use crate::fx::{self, Fx};
use crate::optimizer::{self, Optimizer};
use crate::{Physical, Rudder};

verus! {

/// How one tick moves the rear-wheel angle: a released current angle
/// stays released, a released target leaves the angle alone, and two
/// definite angles step-limit toward the target.
pub open spec fn rudder_step_rel(cur: Rudder, step: int, target: Rudder, out: Rudder) -> bool {
    match cur {
        Rudder::Released => out == cur,
        Rudder::Angle(c) => match target {
            Rudder::Released => out == cur,
            Rudder::Angle(t) => out.is_angle(optimizer::step_limited_spec(c@, step, t@)),
        },
    }
}

/// How one prediction tick relates the old state to the new state and
/// the produced command: nothing once the target is released and the
/// chassis still; an unchanged command once the target is reached; and
/// otherwise one step-limited move toward the target.
pub open spec fn step_rel(
    rudder_step: int,
    att: int,
    speed_step: int,
    cur: Physical,
    target: Physical,
    post_cur: Physical,
    r: Option<Physical>,
) -> bool {
    if target.is_released_spec() && cur.is_static_spec() {
        r is None && post_cur == cur
    } else if cur == target {
        r == Some(post_cur) && post_cur == cur
    } else {
        &&& r == Some(post_cur)
        &&& post_cur.speed@ == optimizer::optimize_speed_spec(
            att,
            speed_step,
            target,
            cur.speed@,
            cur.rudder,
        )
        &&& rudder_step_rel(cur.rudder, rudder_step, target.rudder, post_cur.rudder)
    }
}

/// Steps the current command toward the target, one tick at a time.
///
/// The caller may overwrite `target` between steps; `current` is meant
/// to be advanced only by [`Pm1Predictor::predict`].
#[derive(Clone, Copy, Debug)]
pub struct Pm1Predictor {
    /// Largest rear-wheel angle change per tick, rad.
    pub rudder_step: Fx,
    /// The speed filter applied each tick.
    pub optimizer: Optimizer,
    /// The command the chassis is currently following.
    pub current: Physical,
    /// The command the chassis should converge to.
    pub target: Physical,
}

impl Pm1Predictor {
    /// Build a predictor from the chassis' optimizer and the control
    /// period in seconds; the rear wheel may slew one radian per
    /// second, so the per-tick angle step equals the period.  It
    /// starts stopped and steering straight, with a released target.
    pub fn new(optimizer: Optimizer, period: Fx) -> (r: Pm1Predictor)
        requires
            period@ >= 0,
        ensures
            r.rudder_step == period,
            r.optimizer == optimizer,
            r.current.speed@ == 0 && r.current.rudder.is_angle(0),
            r.target.speed@ == 0 && r.target.rudder is Released,
    {
        Pm1Predictor {
            rudder_step: period,
            optimizer,
            current: Physical::zero(),
            target: Physical::released(),
        }
    }

    /// One prediction step: nothing once the target is released and
    /// the chassis still; otherwise the current command moves toward
    /// the target (speed through the optimizer, angle through the slew
    /// limit) and is returned.
    pub fn predict(&mut self) -> (r: Option<Physical>)
        requires
            old(self).rudder_step@ >= 0,
        ensures
            final(self).rudder_step == old(self).rudder_step,
            final(self).optimizer == old(self).optimizer,
            final(self).target == old(self).target,
            step_rel(
                old(self).rudder_step@,
                old(self).optimizer.att(),
                old(self).optimizer.step(),
                old(self).current,
                old(self).target,
                final(self).current,
                r,
            ),
    {
        if self.target.is_released() && self.current.is_static() {
            None
        } else {
            if !(self.current == self.target) {
                let speed = self.optimizer.optimize_speed(self.target, self.current);
                let rudder = match self.current.rudder {
                    Rudder::Released => self.current.rudder,
                    Rudder::Angle(c) => match self.target.rudder {
                        Rudder::Released => self.current.rudder,
                        Rudder::Angle(t) => Rudder::Angle(
                            optimizer::step_limited(c, self.rudder_step, t),
                        ),
                    },
                };
                self.current = Physical { speed, rudder };
            }
            Some(self.current)
        }
    }
}

/// Termination of the prediction sequence on a released target: the
/// optimizer then pulls the speed toward zero by a full step per tick
/// (see [`optimizer::optimize_speed_spec`]), so after
/// `ceil(|speed| / step)` ticks the speed is exactly zero — and
/// [`Pm1Predictor::predict`] returns nothing as soon as the target is
/// released and the speed is zero.
pub proof fn lemma_predictor_termination(speed: int, step: int, n: nat)
    requires
        step >= 1,
        Fx::in_range(speed),
        Fx::in_range(step),
        n * step >= fx::abs_i(speed),
    ensures
        optimizer::iterate_step_limited(speed, step, 0, n) == 0,
{
    optimizer::lemma_step_limited_converges(speed, step, 0, n);
}

/// On a released target the optimizer reduces to the plain step limit
/// toward the released speed: each tick is exactly one iteration of
/// [`optimizer::iterate_step_limited`].
pub proof fn lemma_released_target_step(
    att: int,
    step: int,
    target: Physical,
    cur_speed: int,
    cur_rudder: Rudder,
)
    requires
        target.is_released_spec(),
    ensures
        optimizer::optimize_speed_spec(att, step, target, cur_speed, cur_rudder)
            == optimizer::step_limited_spec(cur_speed, step, target.speed@),
{
}

} // verus!
