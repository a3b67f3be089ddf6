//! Optimizer, predictors and encoder scalers.

use pm1_control_model::fx::Fx;
use pm1_control_model::{
    ChassisModel, Motor, Optimizer, Physical, Pm1Predictor, Predictor, Rudder,
    TrajectoryPredictor,
};

/// An optimizer with attenuation 0.5, acceleration 1.2 m/s^2 and a
/// 40 ms control period: the per-tick speed step is 0.048 m/s.
fn test_optimizer() -> Optimizer {
    Optimizer::new(Fx::from_ratio(1, 2), Fx::from_ratio(6, 5), Fx::from_ratio(1, 25))
}

#[test]
fn release_ramp_down() {
    // From 0.4 m/s with a released target the speed descends by one
    // 0.048 step per tick: 0.352, 0.304, ..., 0.016, 0, nine ticks in
    // all, then the predictor stops.
    let mut pre = Pm1Predictor::new(test_optimizer(), Fx::from_ratio(1, 25));
    pre.current = Physical { speed: Fx::from_ratio(4, 10), rudder: Rudder::Angle(Fx::zero()) };
    pre.target = Physical::released();

    let expected = [
        352000i64, 304000, 256000, 208000, 160000, 112000, 64000, 16000, 0,
    ];
    let mut produced = Vec::new();
    while let Some(s) = pre.predict() {
        produced.push(s.speed.to_millionths());
        assert!(produced.len() <= 20, "predictor failed to stop");
    }
    assert_eq!(produced, expected);
}

#[test]
fn optimize_speed_first_tick() {
    // The first tick of the ramp above: 0.4 step-limited toward 0.
    let opt = test_optimizer();
    let current = Physical { speed: Fx::from_ratio(4, 10), rudder: Rudder::Angle(Fx::zero()) };
    let next = opt.optimize_speed(Physical::released(), current);
    assert_eq!(next.to_millionths(), 352000);
}

#[test]
fn optimize_speed_bounded_by_step() {
    // The result never departs from the current speed by more than the
    // per-tick step, whatever the commands.
    let opt = test_optimizer();
    let cases = [
        (Physical::released(), Physical::zero()),
        (
            Physical { speed: Fx::from_int(1), rudder: Rudder::Angle(Fx::from_ratio(3, 2)) },
            Physical { speed: Fx::from_ratio(-1, 2), rudder: Rudder::Angle(Fx::from_ratio(-1, 2)) },
        ),
        (
            Physical { speed: Fx::from_ratio(-1, 1), rudder: Rudder::Angle(Fx::zero()) },
            Physical { speed: Fx::from_ratio(9, 10), rudder: Rudder::Released },
        ),
        (
            Physical { speed: Fx::from_ratio(1, 2), rudder: Rudder::Angle(Fx::from_ratio(1, 10)) },
            Physical { speed: Fx::from_ratio(1, 2), rudder: Rudder::Angle(Fx::from_ratio(1, 10)) },
        ),
    ];
    for (target, current) in cases {
        let next = opt.optimize_speed(target, current);
        assert!((next.raw() - current.speed.raw()).abs() <= opt_step_raw());
    }
}

/// The 0.048 m/s step in raw units, as the optimizer derives it.
fn opt_step_raw() -> i64 {
    Fx::from_ratio(6, 5).mul(Fx::from_ratio(1, 25)).raw()
}

#[test]
fn aligned_target_contraction() {
    // With the steering settled on the target angle, feeding the
    // output back converges to the attenuated target speed and stays
    // there, moving a full step each tick.
    let opt = test_optimizer();
    let rudder = Rudder::Angle(Fx::from_ratio(1, 5));
    let target = Physical { speed: Fx::from_ratio(1, 2), rudder };
    let mut current = Physical { speed: Fx::zero(), rudder };
    for _ in 0..40 {
        let next = opt.optimize_speed(target, current);
        current = Physical { speed: next, rudder };
    }
    let fixed = current.speed;
    // Stationary point reached: one more application changes nothing.
    let again = opt.optimize_speed(target, current);
    assert_eq!(again, fixed);
    // It lies strictly between standstill and the requested speed.
    assert!(fixed.to_millionths() > 0);
    assert!(fixed.to_millionths() < 500000);
}

#[test]
fn predictor_streams_same_states() {
    // The open-state predictor steps exactly as the session predictor
    // does from equal fields.
    let mut a = Pm1Predictor::new(test_optimizer(), Fx::from_ratio(1, 25));
    a.current = Physical { speed: Fx::from_ratio(2, 10), rudder: Rudder::Angle(Fx::zero()) };
    a.target = Physical { speed: Fx::from_ratio(6, 10), rudder: Rudder::Angle(Fx::from_ratio(1, 4)) };
    let mut b = Predictor {
        rudder_step: a.rudder_step,
        optimizer: a.optimizer,
        current: a.current,
        target: a.target,
    };
    for _ in 0..30 {
        assert_eq!(a.predict(), b.next());
        assert_eq!(a.current, b.current);
    }
    // Both have settled on the target's attenuated speed and angle.
    match b.current.rudder {
        Rudder::Angle(r) => assert_eq!(r.to_millionths(), 250000),
        Rudder::Released => panic!("rudder lost"),
    }
}

#[test]
fn trajectory_ribbon() {
    // A short forecast: stepping toward a straight 0.24 m/s command at
    // 40 ms ticks accumulates forward translation and no rotation.
    let model = ChassisModel::new(
        Fx::from_ratio(4, 10),
        Fx::from_ratio(3, 10),
        Fx::from_ratio(1, 10),
    );
    let mut pre = Pm1Predictor::new(test_optimizer(), Fx::from_ratio(1, 25));
    pre.target = Physical { speed: Fx::from_ratio(24, 100), rudder: Rudder::Angle(Fx::zero()) };
    let mut tp = TrajectoryPredictor { period: Fx::from_ratio(1, 25), model, predictor: pre };
    let mut total = pm1_control_model::Odometry::zero();
    for _ in 0..10 {
        match tp.next() {
            Some((dt, inc)) => {
                assert_eq!(dt.to_millionths(), 40000);
                total.accumulate(&inc);
            },
            None => panic!("target not released: the forecast goes on"),
        }
    }
    // Five ramp-up ticks (0.048..0.24), then steady 0.24 m/s; each
    // tick contributes speed * 0.04 m of forward travel, 0.0768 m in
    // all.
    assert!((total.pose.x.to_millionths() - 76800).abs() <= 20, "{}", total.pose.x.to_millionths());
    assert_eq!(total.pose.y.raw(), 0);
    assert_eq!(total.a.raw(), 0);
}

#[test]
fn encoder_round_trip() {
    let wheel = Motor::wheel();
    let rudder = Motor::rudder();
    assert_eq!(wheel.rad_to_pulses(wheel.pluses_to_rad(12345)), 12345);
    assert_eq!(rudder.rad_to_pulses(rudder.pluses_to_rad(12345)), 12345);
    assert_eq!(wheel.rad_to_pulses(wheel.pluses_to_rad(-987654)), -987654);
    assert_eq!(rudder.rad_to_pulses(rudder.pluses_to_rad(1 << 20)), 1 << 20);
}

#[test]
fn encoder_scales() {
    // 32000 drive pulses and 16384 rudder pulses are one revolution
    // each: 2 * pi radians, up to the rounding of the per-pulse
    // constant.
    assert_eq!(Motor::wheel().pluses_to_rad(32000).to_millionths(), 6283186);
    assert_eq!(Motor::rudder().pluses_to_rad(16384).to_millionths(), 6283184);
}
