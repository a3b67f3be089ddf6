//! Speed optimizer: attenuates a requested longitudinal speed by how
//! far the rear wheel still has to travel and how sharp the requested
//! turn is, then limits the per-tick change to the configured step.

use vstd::prelude::*;
use crate::fx::{self, Fx};
use crate::trig::{FRAC_PI_2_RAW, FRAC_PI_3_RAW, FRAC_PI_6_RAW};
use crate::{Physical, Rudder};

verus! {

/// Move `current` toward `target`, changing it by at most `step`.
pub open spec fn step_limited_spec(current: int, step: int, target: int) -> int {
    if target < current {
        let lo = fx::sat(current - step);
        if lo > target {
            lo
        } else {
            target
        }
    } else if target > current {
        let hi = fx::sat(current + step);
        if hi < target {
            hi
        } else {
            target
        }
    } else {
        current
    }
}

/// Step toward `target` from `current` by at most `step >= 0`.
pub fn step_limited(current: Fx, step: Fx, target: Fx) -> (r: Fx)
    requires
        step@ >= 0,
    ensures
        r@ == step_limited_spec(current@, step@, target@),
        fx::abs_i(r@ - current@) <= step@,
{
    proof {
        use_type_invariant(current);
        use_type_invariant(target);
    }
    if target.lt(current) {
        let lo = current.sub(step);
        if target.lt(lo) {
            lo
        } else {
            target
        }
    } else if current.lt(target) {
        let hi = current.add(step);
        if hi.lt(target) {
            hi
        } else {
            target
        }
    } else {
        current
    }
}

/// How much of the requested speed survives the rear-wheel mismatch:
/// `max(0, 1 - |target rudder - current rudder| / width)`, where the
/// tolerance `width` grows linearly with the current speed
/// (`pi/6` at rest, `pi/2` at 1 m/s).  A released current rudder, or a
/// vanishing width, leaves no speed.
pub open spec fn rate_factor_spec(cur_speed: int, cur_rudder: Rudder, target_rudder: int) -> int {
    match cur_rudder {
        Rudder::Released => 0,
        Rudder::Angle(cr) => {
            let width = fx::sat(
                fx::rnd_sat(cur_speed * FRAC_PI_3_RAW as int, fx::SCALE as int)
                    + FRAC_PI_6_RAW as int,
            );
            let diff = fx::abs_i(fx::sat(target_rudder - cr@));
            if width == 0 {
                0
            } else {
                let f = fx::sat(fx::SCALE as int - fx::rnd_sat(diff * fx::SCALE as int, width));
                if f > 0 {
                    f
                } else {
                    0
                }
            }
        },
    }
}

/// How much of the requested speed survives the steering magnitude:
/// the linear interpolation `(1 - |rudder| / (pi/2)) * (1 - att) + att`
/// between full speed when straight and `att` at the mechanical limit.
pub open spec fn attenuation_spec(att: int, target_rudder: int) -> int {
    let ratio = fx::rnd_sat(fx::abs_i(target_rudder) * fx::SCALE as int, FRAC_PI_2_RAW as int);
    let keep = fx::sat(fx::SCALE as int - ratio);
    fx::sat(fx::rnd_sat(keep * fx::sat(fx::SCALE as int - att), fx::SCALE as int) + att)
}

/// The speed the optimizer hands out: the target speed scaled by the
/// two factors above (skipped entirely for a released target), then
/// step-limited around the current speed.
pub open spec fn optimize_speed_spec(
    att: int,
    step: int,
    target: Physical,
    cur_speed: int,
    cur_rudder: Rudder,
) -> int {
    let s = match target.rudder {
        Rudder::Released => target.speed@,
        Rudder::Angle(tr) => {
            let f1 = rate_factor_spec(cur_speed, cur_rudder, tr@);
            let f2 = attenuation_spec(att, tr@);
            let f12 = fx::rnd_sat(f1 * f2, fx::SCALE as int);
            fx::rnd_sat(target.speed@ * f12, fx::SCALE as int)
        },
    };
    step_limited_spec(cur_speed, step, s)
}

/// Per-tick speed filter: an attenuation for sharp or unsettled
/// steering, and the largest speed change allowed per control period.
#[derive(Clone, Copy, Debug)]
pub struct Optimizer {
    pub(crate) angular_attenuation: Fx,
    pub(crate) speed_step: Fx,
}

impl Optimizer {
    /// The step is never negative.
    #[verifier::type_invariant]
    pub(crate) open spec fn type_inv(self) -> bool {
        self.speed_step@ >= 0
    }

    /// The configured attenuation factor.
    pub closed spec fn att(self) -> int {
        self.angular_attenuation@
    }

    /// The largest speed change per tick, in m/s.
    pub closed spec fn step(self) -> int {
        self.speed_step@
    }

    /// Build an optimizer from the attenuation factor in `[0, 1]`, the
    /// acceleration in m/s^2 and the control period in seconds: the
    /// per-tick step is `acceleration * period`.
    pub fn new(angular_attenuation: Fx, acceleration: Fx, period: Fx) -> (r: Optimizer)
        requires
            0 <= angular_attenuation@ <= fx::SCALE as int,
            acceleration@ >= 0,
            period@ >= 0,
        ensures
            r.att() == angular_attenuation@,
            r.step() == fx::rnd_sat(acceleration@ * period@, fx::SCALE as int),
    {
        proof {
            use_type_invariant(acceleration);
            use_type_invariant(period);
            fx::lemma_abs_mul_bound(acceleration@, period@, fx::MAX_RAW as int, fx::MAX_RAW as int);
            fx::lemma_rnd_sign(acceleration@ * period@, fx::SCALE as int);
            assert(acceleration@ * period@ >= 0) by (nonlinear_arith)
                requires
                    acceleration@ >= 0,
                    period@ >= 0,
            ;
        }
        Optimizer { angular_attenuation, speed_step: acceleration.mul(period) }
    }

    /// The speed to issue on the next tick, per
    /// [`optimize_speed_spec`]; it never departs from the current
    /// speed by more than the per-tick step.
    pub fn optimize_speed(&self, target: Physical, current: Physical) -> (r: Fx)
        ensures
            r@ == optimize_speed_spec(
                self.att(),
                self.step(),
                target,
                current.speed@,
                current.rudder,
            ),
            fx::abs_i(r@ - current.speed@) <= self.step(),
    {
        proof {
            use_type_invariant(self);
        }
        let s: Fx = match target.rudder {
            Rudder::Released => target.speed,
            Rudder::Angle(tr) => {
                let f1: Fx = match current.rudder {
                    Rudder::Released => Fx::zero(),
                    Rudder::Angle(cr) => {
                        let width = current.speed.mul(Fx::from_raw(FRAC_PI_3_RAW)).add(
                            Fx::from_raw(FRAC_PI_6_RAW),
                        );
                        let diff = tr.sub(cr).abs();
                        if width.is_zero() {
                            Fx::zero()
                        } else {
                            let f = Fx::one().sub(diff.div(width));
                            if Fx::zero().lt(f) {
                                f
                            } else {
                                Fx::zero()
                            }
                        }
                    },
                };
                let ratio = tr.abs().div(Fx::from_raw(FRAC_PI_2_RAW));
                let keep = Fx::one().sub(ratio);
                let f2 = keep.mul(Fx::one().sub(self.angular_attenuation)).add(
                    self.angular_attenuation,
                );
                let f12 = f1.mul(f2);
                target.speed.mul(f12)
            },
        };
        step_limited(current.speed, self.speed_step, s)
    }
}

/// The step limiter closes in on its target by exactly `step` per
/// call, until the remaining distance is below one step and the target
/// is reached.
pub proof fn lemma_step_limited_contracts(c: int, s: int, t: int)
    requires
        s >= 0,
        Fx::in_range(c),
        Fx::in_range(t),
        Fx::in_range(s),
    ensures
        fx::abs_i(step_limited_spec(c, s, t) - t) == if fx::abs_i(c - t) - s >= 0 {
            fx::abs_i(c - t) - s
        } else {
            0
        },
{
}

/// The step limiter never leaves the closed interval spanned by the
/// current value and the target.
pub proof fn lemma_step_limited_in_interval(c: int, s: int, t: int)
    requires
        s >= 0,
        Fx::in_range(c),
        Fx::in_range(t),
    ensures
        c <= t ==> c <= step_limited_spec(c, s, t) <= t,
        t <= c ==> t <= step_limited_spec(c, s, t) <= c,
{
}

/// Repeated step-limiting toward a fixed target, fed its own output.
pub open spec fn iterate_step_limited(c: int, s: int, t: int, n: nat) -> int
    decreases n,
{
    if n == 0 {
        c
    } else {
        step_limited_spec(iterate_step_limited(c, s, t, (n - 1) as nat), s, t)
    }
}

/// After `n` applications the remaining distance to the target is
/// exactly `max(0, |c - t| - n * step)`: the limiter is a monotone
/// contraction that reaches its target in `ceil(|c - t| / step)`
/// steps.
pub proof fn lemma_step_limited_converges(c: int, s: int, t: int, n: nat)
    requires
        s >= 0,
        Fx::in_range(c),
        Fx::in_range(t),
        Fx::in_range(s),
    ensures
        fx::abs_i(iterate_step_limited(c, s, t, n) - t) == if fx::abs_i(c - t) - n * s >= 0 {
            fx::abs_i(c - t) - n * s
        } else {
            0
        },
        Fx::in_range(iterate_step_limited(c, s, t, n)),
    decreases n,
{
    if n > 0 {
        lemma_step_limited_converges(c, s, t, (n - 1) as nat);
        let prev = iterate_step_limited(c, s, t, (n - 1) as nat);
        lemma_step_limited_contracts(prev, s, t);
        assert(n * s == (n - 1) * s + s) by (nonlinear_arith);
    } else {
        assert(n * s == 0) by (nonlinear_arith)
            requires
                n == 0,
        ;
    }
}

/// With the steering already settled on the target angle (and the
/// mismatch tolerance not vanishing), the optimizer is exactly the
/// step limiter pulling the speed toward the fixed point
/// `target.speed * attenuation`: each tick closes in by one full step.
pub proof fn lemma_optimize_aligned_contracts(
    att: int,
    step: int,
    target: Physical,
    cur_speed: int,
    cur_rudder: Rudder,
    tr: int,
)
    requires
        target.rudder.is_angle(tr),
        cur_rudder.is_angle(tr),
        fx::sat(
            fx::rnd_sat(cur_speed * FRAC_PI_3_RAW as int, fx::SCALE as int)
                + FRAC_PI_6_RAW as int,
        ) != 0,
        Fx::in_range(att),
    ensures
        optimize_speed_spec(att, step, target, cur_speed, cur_rudder) == step_limited_spec(
            cur_speed,
            step,
            fx::rnd_sat(target.speed@ * attenuation_spec(att, tr), fx::SCALE as int),
        ),
{
    let cr = cur_rudder->Angle_0;
    assert(fx::sat(tr - cr@) == 0);
    let width = fx::sat(
        fx::rnd_sat(cur_speed * FRAC_PI_3_RAW as int, fx::SCALE as int)
            + FRAC_PI_6_RAW as int,
    );
    fx::lemma_rnd_zero(width);
    assert(rate_factor_spec(cur_speed, cur_rudder, tr) == fx::SCALE as int);
    let f2 = attenuation_spec(att, tr);
    assert(fx::rnd(f2 * fx::SCALE as int, fx::SCALE as int) == f2) by {
        fx::lemma_rnd_exact(f2, fx::SCALE as int);
    }
    assert(fx::rnd_sat(fx::SCALE as int * f2, fx::SCALE as int) == f2) by {
        assert(fx::SCALE as int * f2 == f2 * fx::SCALE as int) by (nonlinear_arith);
        assert(Fx::in_range(f2));
    }
}

/// The attenuation factor lies in `[0, 1]` whenever the configured
/// attenuation does and the target angle is within the mechanical
/// range.
pub proof fn lemma_attenuation_bounds(att: int, tr: int)
    requires
        0 <= att <= fx::SCALE as int,
        fx::abs_i(tr) <= FRAC_PI_2_RAW as int,
    ensures
        0 <= attenuation_spec(att, tr) <= fx::SCALE as int,
{
    let ratio = fx::rnd_sat(fx::abs_i(tr) * fx::SCALE as int, FRAC_PI_2_RAW as int);
    assert(fx::abs_i(tr) * fx::SCALE as int >= 0 && fx::abs_i(tr) * fx::SCALE as int
        <= fx::SCALE as int * FRAC_PI_2_RAW as int) by (nonlinear_arith)
        requires
            0 <= fx::abs_i(tr) <= FRAC_PI_2_RAW as int,
    ;
    fx::lemma_rnd_sign(fx::abs_i(tr) * fx::SCALE as int, FRAC_PI_2_RAW as int);
    fx::lemma_rnd_monotone_nonneg(
        fx::abs_i(tr) * fx::SCALE as int,
        fx::SCALE as int * FRAC_PI_2_RAW as int,
        FRAC_PI_2_RAW as int,
    );
    fx::lemma_rnd_exact(fx::SCALE as int, FRAC_PI_2_RAW as int);
    assert(0 <= ratio <= fx::SCALE as int);
    let keep = fx::sat(fx::SCALE as int - ratio);
    assert(0 <= keep <= fx::SCALE as int);
    let scaled = fx::rnd_sat(keep * fx::sat(fx::SCALE as int - att), fx::SCALE as int);
    assert(keep * fx::sat(fx::SCALE as int - att) >= 0 && keep * fx::sat(
        fx::SCALE as int - att,
    ) <= (fx::SCALE as int - att) * fx::SCALE as int) by (nonlinear_arith)
        requires
            0 <= keep <= fx::SCALE as int,
            0 <= fx::sat(fx::SCALE as int - att) <= fx::SCALE as int - att,
    ;
    fx::lemma_rnd_sign(keep * fx::sat(fx::SCALE as int - att), fx::SCALE as int);
    fx::lemma_rnd_monotone_nonneg(
        keep * fx::sat(fx::SCALE as int - att),
        (fx::SCALE as int - att) * fx::SCALE as int,
        fx::SCALE as int,
    );
    fx::lemma_rnd_exact(fx::SCALE as int - att, fx::SCALE as int);
    assert(0 <= scaled <= fx::SCALE as int - att);
}

/// Repeated application of the optimizer with the output fed back as
/// the current speed, the steering held on the target angle.
pub open spec fn iterate_optimize(
    att: int,
    step: int,
    target: Physical,
    cur_rudder: Rudder,
    cs: int,
    n: nat,
) -> int
    decreases n,
{
    if n == 0 {
        cs
    } else {
        optimize_speed_spec(
            att,
            step,
            target,
            iterate_optimize(att, step, target, cur_rudder, cs, (n - 1) as nat),
            cur_rudder,
        )
    }
}

/// Monotone contraction of the optimizer, in full, for the aligned
/// forward case: with the steering settled on the target angle and
/// speeds on the forward side, feeding the optimizer its own output
/// is exactly the iterated step limiter pulling toward the fixed
/// point `s* = target.speed * attenuation`, whose distance after `n`
/// ticks is exactly `max(0, |cs - s*| - n * step)` - so the speed
/// reaches `s*` in `ceil(|cs - s*| / step)` ticks and stays.
pub proof fn lemma_optimize_aligned_converges(
    att: int,
    step: int,
    target: Physical,
    cur_rudder: Rudder,
    tr: int,
    cs: int,
    n: nat,
)
    requires
        target.rudder.is_angle(tr),
        cur_rudder.is_angle(tr),
        fx::abs_i(tr) <= FRAC_PI_2_RAW as int,
        0 <= att <= fx::SCALE as int,
        0 <= target.speed@,
        Fx::in_range(target.speed@),
        0 <= cs,
        Fx::in_range(cs),
        0 <= step,
        Fx::in_range(step),
    ensures
        ({
            let s_star = fx::rnd_sat(
                target.speed@ * attenuation_spec(att, tr),
                fx::SCALE as int,
            );
            &&& iterate_optimize(att, step, target, cur_rudder, cs, n) == iterate_step_limited(
                cs,
                step,
                s_star,
                n,
            )
            &&& fx::abs_i(iterate_optimize(att, step, target, cur_rudder, cs, n) - s_star) == (
            if fx::abs_i(cs - s_star) - n * step >= 0 {
                fx::abs_i(cs - s_star) - n * step
            } else {
                0
            })
        }),
    decreases n,
{
    let f2 = attenuation_spec(att, tr);
    lemma_attenuation_bounds(att, tr);
    let s_star = fx::rnd_sat(target.speed@ * f2, fx::SCALE as int);
    assert(target.speed@ * f2 >= 0) by (nonlinear_arith)
        requires
            target.speed@ >= 0,
            f2 >= 0,
    ;
    fx::lemma_rnd_sign(target.speed@ * f2, fx::SCALE as int);
    assert(0 <= s_star && Fx::in_range(s_star));
    if n > 0 {
        lemma_optimize_aligned_converges(att, step, target, cur_rudder, tr, cs, (n - 1) as nat);
        let prev = iterate_optimize(att, step, target, cur_rudder, cs, (n - 1) as nat);
        lemma_step_limited_converges(cs, step, s_star, (n - 1) as nat);
        lemma_step_limited_in_interval_iterated(cs, step, s_star, (n - 1) as nat);
        assert(0 <= prev);
        assert(prev * FRAC_PI_3_RAW as int >= 0) by (nonlinear_arith)
            requires
                prev >= 0,
        ;
        fx::lemma_rnd_sign(prev * FRAC_PI_3_RAW as int, fx::SCALE as int);
        lemma_optimize_aligned_contracts(att, step, target, prev, cur_rudder, tr);
        lemma_step_limited_converges(cs, step, s_star, n);
        assert(n * step == (n - 1) * step + step) by (nonlinear_arith);
    } else {
        assert(n * step == 0) by (nonlinear_arith)
            requires
                n == 0,
        ;
    }
}

/// Iterated step-limiting between two non-negative endpoints keeps the
/// value non-negative.
pub proof fn lemma_step_limited_in_interval_iterated(c: int, s: int, t: int, n: nat)
    requires
        s >= 0,
        0 <= c,
        Fx::in_range(c),
        0 <= t,
        Fx::in_range(t),
    ensures
        0 <= iterate_step_limited(c, s, t, n),
        Fx::in_range(iterate_step_limited(c, s, t, n)),
    decreases n,
{
    if n > 0 {
        lemma_step_limited_in_interval_iterated(c, s, t, (n - 1) as nat);
        lemma_step_limited_in_interval(iterate_step_limited(c, s, t, (n - 1) as nat), s, t);
    }
}

} // verus!
