//! The bare next-command predictor: the same stepping rule as
//! [`crate::predict::Pm1Predictor`], with every field in the open for
//! callers that manage the state themselves.

use vstd::prelude::*;
use crate::fx::Fx;
use crate::optimizer::{self, Optimizer};
use crate::predict::step_rel;
use crate::{Physical, Rudder};

verus! {

/// Gives the next command toward the target, bounded by the optimizer
/// and the rear-wheel step; all state is the caller's to set.
#[derive(Clone, Copy, Debug)]
pub struct Predictor {
    /// Largest rear-wheel angle change per tick, rad.
    pub rudder_step: Fx,
    /// The speed filter applied each tick.
    pub optimizer: Optimizer,
    /// The command the chassis is currently following.
    pub current: Physical,
    /// The command the chassis should converge to.
    pub target: Physical,
}

impl Predictor {
    /// The next command: nothing once the target is released and the
    /// chassis still, otherwise the step-limited move toward the
    /// target.
    pub fn next(&mut self) -> (r: Option<Physical>)
        requires
            old(self).rudder_step@ >= 0,
        ensures
            final(self).rudder_step == old(self).rudder_step,
            final(self).optimizer == old(self).optimizer,
            final(self).target == old(self).target,
            step_rel(
                old(self).rudder_step@,
                old(self).optimizer.att(),
                old(self).optimizer.step(),
                old(self).current,
                old(self).target,
                final(self).current,
                r,
            ),
    {
        if self.target.is_released() && self.current.is_static() {
            None
        } else {
            if !(self.current == self.target) {
                let speed = self.optimizer.optimize_speed(self.target, self.current);
                let rudder = match self.current.rudder {
                    Rudder::Released => self.current.rudder,
                    Rudder::Angle(c) => match self.target.rudder {
                        Rudder::Released => self.current.rudder,
                        Rudder::Angle(t) => Rudder::Angle(
                            optimizer::step_limited(c, self.rudder_step, t),
                        ),
                    },
                };
                self.current = Physical { speed, rudder };
            }
            Some(self.current)
        }
    }
}

} // verus!
