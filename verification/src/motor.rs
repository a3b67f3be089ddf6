//! Encoder scaler: conversion between integer encoder pulses and axle
//! radians, parameterised by the radians each pulse stands for.

use vstd::prelude::*;
use crate::fx::{self, Fx};
use crate::trig::TAU_RAW;

verus! {

/// Clamp an integer into the `i32` range, as the conversion to a pulse
/// count does.
pub open spec fn sat_i32(x: int) -> int {
    if x > i32::MAX as int {
        i32::MAX as int
    } else if x < i32::MIN as int {
        i32::MIN as int
    } else {
        x
    }
}

/// A motor's encoder model: the radians the axle turns per encoder
/// pulse.
#[derive(Clone, Copy, PartialEq, Eq, Structural, Debug)]
pub struct Motor(pub Fx);

impl Motor {
    /// The drive-wheel model: a quadrature 400-line encoder behind a
    /// 20:1 reducer, so `4 * 400 * 20 = 32000` pulses per revolution
    /// and `2 * pi / 32000` radians per pulse.
    pub fn wheel() -> (r: Motor)
        ensures
            r.0@ == fx::rnd(TAU_RAW as int, 32000),
            r.0@ == 843315,
    {
        proof {
            assert((2 * (TAU_RAW as int) + 32000) / (64000 as int) == 843315);
        }
        Motor(Fx::from_raw(843315))
    }

    /// The rear-wheel servo model: a 14-bit absolute encoder, so
    /// `16384` pulses per revolution and `2 * pi / 16384` radians per
    /// pulse.
    pub fn rudder() -> (r: Motor)
        ensures
            r.0@ == fx::rnd(TAU_RAW as int, 16384),
            r.0@ == 1647099,
    {
        proof {
            assert((2 * (TAU_RAW as int) + 16384) / (32768 as int) == 1647099);
        }
        Motor(Fx::from_raw(1647099))
    }

    /// Radians turned after the given pulse count: `pulses * k`,
    /// saturating.
    pub fn pluses_to_rad(&self, pulses: i32) -> (r: Fx)
        ensures
            r@ == fx::sat(pulses as int * self.0@),
    {
        fx::int_mul(pulses, self.0)
    }

    /// The pulse count nearest to the given angle: `round(rad / k)`,
    /// clamped into the pulse counter's 32-bit range.
    pub fn rad_to_pulses(&self, rad: Fx) -> (r: i32)
        requires
            self.0@ != 0,
        ensures
            r as int == sat_i32(fx::rnd(rad@, self.0@)),
    {
        let q: i64 = fx::ratio_round(rad, self.0);
        if q > i32::MAX as i64 {
            i32::MAX
        } else if q < i32::MIN as i64 {
            i32::MIN
        } else {
            q as i32
        }
    }
}

/// Converting a pulse count to radians and back recovers the count
/// exactly, whenever the intermediate angle is representable: the
/// scaler multiplies by `k` exactly and the rounded division by `k`
/// undoes it.
pub proof fn lemma_pulse_round_trip(p: int, k: int)
    requires
        k > 0,
        fx::abs_i(p * k) <= fx::MAX_RAW as int,
        i32::MIN as int <= p <= i32::MAX as int,
    ensures
        sat_i32(fx::rnd(fx::sat(p * k), k)) == p,
{
    assert(fx::sat(p * k) == p * k);
    fx::lemma_rnd_exact(p, k);
}

} // verus!
