//! Trajectory predictor: composes the status predictor with the
//! chassis model and the odometry integrator, emitting one
//! `(duration, pose increment)` pair per control tick until the
//! predicted command sequence ends.

use vstd::prelude::*;
use crate::fx::{self, Fx};
use crate::model::ChassisModel;
use crate::odometry::{odo_of_velocity_spec, odo_view, Odometry};
use crate::optimizer;
use crate::predict::Pm1Predictor;
use crate::Rudder;

verus! {

/// Forecasts the pose increments a chassis accumulates while following
/// the status predictor's command sequence at a fixed tick period.
#[derive(Clone, Copy, Debug)]
pub struct TrajectoryPredictor {
    /// The control period, s.
    pub period: Fx,
    /// The chassis the commands act on.
    pub model: ChassisModel,
    /// The command sequence source.
    pub predictor: Pm1Predictor,
}

impl TrajectoryPredictor {
    /// One forecast step: let the status predictor advance one tick;
    /// if it produced a command, scale its speed by the period (so the
    /// twist is an integrated distance and angle) and integrate it
    /// into a pose increment, emitted with the tick duration.
    pub fn next(&mut self) -> (r: Option<(Fx, Odometry)>)
        requires
            old(self).model.wf(),
            old(self).predictor.rudder_step@ >= 0,
            ChassisModel::rudder_in_domain(old(self).predictor.current),
            ChassisModel::rudder_in_domain(old(self).predictor.target),
        ensures
            final(self).period == old(self).period,
            final(self).model == old(self).model,
            final(self).predictor.target == old(self).predictor.target,
            final(self).predictor.rudder_step == old(self).predictor.rudder_step,
            final(self).predictor.optimizer == old(self).predictor.optimizer,
            ChassisModel::rudder_in_domain(final(self).predictor.current),
            old(self).predictor.target.is_released_spec()
                && old(self).predictor.current.is_static_spec() ==> {
                &&& r is None
                &&& final(self).predictor.current == old(self).predictor.current
            },
            !(old(self).predictor.target.is_released_spec()
                && old(self).predictor.current.is_static_spec()) ==> ({
                let cur = final(self).predictor.current;
                let (v, w) = old(self).model.physical_to_velocity_spec(
                    fx::rnd_sat(cur.speed@ * old(self).period@, fx::SCALE as int),
                    cur.rudder,
                );
                &&& r is Some
                &&& r->Some_0.0 == old(self).period
                &&& odo_view(r->Some_0.1) == odo_of_velocity_spec(v, w)
            }),
    {
        let ghost pre = *self;
        match self.predictor.predict() {
            None => None,
            Some(p) => {
                proof {
                    match pre.predictor.current.rudder {
                        Rudder::Released => {},
                        Rudder::Angle(c) => {
                            match pre.predictor.target.rudder {
                                Rudder::Released => {},
                                Rudder::Angle(t) => {
                                    optimizer::lemma_step_limited_in_interval(
                                        c@,
                                        pre.predictor.rudder_step@,
                                        t@,
                                    );
                                },
                            }
                        },
                    }
                }
                let scaled = p.scale(self.period);
                let vel = self.model.physical_to_velocity(scaled);
                Some((self.period, Odometry::from_velocity(vel)))
            },
        }
    }
}

} // verus!
