//! Conversions among the three control-space representations.

use pm1_control_model::fx::Fx;
use pm1_control_model::{ChassisModel, Physical, Rudder, Velocity, Wheels};

/// The test chassis: 0.4 m track, 0.3 m wheelbase, 0.1 m wheel radius.
fn test_model() -> ChassisModel {
    ChassisModel::new(
        Fx::from_ratio(4, 10),
        Fx::from_ratio(3, 10),
        Fx::from_ratio(1, 10),
    )
}

/// pi/4 in raw units.
const FRAC_PI_4_RAW: i64 = 3373259426;

/// Equality within 1e-5 (ten millionths), the tolerance the
/// round-trip laws are stated with.
fn close(a: Fx, b: Fx) -> bool {
    (a.to_millionths() - b.to_millionths()).abs() <= 10
}

/// Rudders equal up to tolerance, treating released as matching only
/// released.
fn rudder_close(a: Rudder, b: Rudder) -> bool {
    match (a, b) {
        (Rudder::Released, Rudder::Released) => true,
        (Rudder::Angle(x), Rudder::Angle(y)) => close(x, y),
        _ => false,
    }
}

#[test]
fn test_physic_to_chassis() {
    let model: ChassisModel = test_model();
    let physicals = [
        Physical::released(),
        Physical {
            speed: Fx::from_ratio(1, 2),
            rudder: Rudder::Angle(Fx::from_raw(FRAC_PI_4_RAW)),
        },
        Physical {
            speed: Fx::from_ratio(1, 2),
            rudder: Rudder::Angle(Fx::from_raw(-FRAC_PI_4_RAW)),
        },
        Physical {
            speed: Fx::from_ratio(-1, 2),
            rudder: Rudder::Angle(Fx::from_raw(FRAC_PI_4_RAW)),
        },
        Physical {
            speed: Fx::from_ratio(-1, 2),
            rudder: Rudder::Angle(Fx::from_raw(-FRAC_PI_4_RAW)),
        },
    ];

    for physical in physicals {
        {
            let velocity = model.physical_to_velocity(physical);
            let restore = model.velocity_to_physical(velocity);
            assert!(
                close(physical.speed, restore.speed),
                "{:?} != {:?}",
                physical.speed,
                restore.speed
            );
            assert!(
                rudder_close(physical.rudder, restore.rudder),
                "{:?} != {:?}",
                physical.rudder,
                restore.rudder
            );
        }
        {
            let wheels = model.physical_to_wheels(physical);
            let restore = model.wheels_to_physical(wheels);
            assert!(
                close(physical.speed, restore.speed),
                "{:?} != {:?}",
                physical.speed,
                restore.speed
            );
            assert!(
                rudder_close(physical.rudder, restore.rudder),
                "{:?} != {:?}",
                physical.rudder,
                restore.rudder
            );
        }
    }
}

#[test]
fn sharp_turn_twist() {
    // At pi/4 the rudder is past the critical angle, so the rear wheel
    // bounds the speed: R_c = -0.3, R_r ~ -0.4243, w ~ -1.1785,
    // v ~ 0.3536.
    let model = test_model();
    let twist = model.physical_to_velocity(Physical {
        speed: Fx::from_ratio(1, 2),
        rudder: Rudder::Angle(Fx::from_raw(FRAC_PI_4_RAW)),
    });
    assert!((twist.v.to_millionths() - 353553).abs() <= 10, "{}", twist.v.to_millionths());
    assert!((twist.w.to_millionths() + 1178511).abs() <= 10, "{}", twist.w.to_millionths());
}

#[test]
fn released_maps_to_zero_twist() {
    let model = test_model();
    let twist = model.physical_to_velocity(Physical::released());
    assert_eq!(twist.v.raw(), 0);
    assert_eq!(twist.w.raw(), 0);
    let restored = model.velocity_to_physical(Velocity::zero());
    assert!(restored.is_released());
    assert!(restored.is_static());
}

#[test]
fn straight_wheels_twist() {
    // Both wheels at 1 rad/s: pure translation at 0.1 m/s.
    let model = test_model();
    let twist = model.wheels_to_velocity(Wheels { left: Fx::from_int(1), right: Fx::from_int(1) });
    assert_eq!(twist.v.to_millionths(), 100000);
    assert_eq!(twist.w.raw(), 0);
}

#[test]
fn pure_rotation_wheels_twist() {
    // Opposite wheels: no translation, 0.5 rad/s of rotation.
    let model = test_model();
    let twist = model.wheels_to_velocity(Wheels {
        left: Fx::from_int(-1),
        right: Fx::from_int(1),
    });
    assert_eq!(twist.v.raw(), 0);
    assert_eq!(twist.w.to_millionths(), 500000);
}

#[test]
fn wheel_twist_round_trip() {
    // Wheels -> twist -> wheels and twist -> wheels -> twist are the
    // identity up to a few raw rounding units.
    let model = test_model();
    let wheels = Wheels { left: Fx::from_ratio(7, 10), right: Fx::from_ratio(13, 10) };
    let twist = model.wheels_to_velocity(wheels);
    let back = model.velocity_to_wheels(twist);
    assert!((back.left.raw() - wheels.left.raw()).abs() <= 16);
    assert!((back.right.raw() - wheels.right.raw()).abs() <= 16);

    let twist0 = Velocity { v: Fx::from_ratio(1, 4), w: Fx::from_ratio(-3, 8) };
    let wheels0 = model.velocity_to_wheels(twist0);
    let twist1 = model.wheels_to_velocity(wheels0);
    assert!((twist1.v.raw() - twist0.v.raw()).abs() <= 16);
    assert!((twist1.w.raw() - twist0.w.raw()).abs() <= 16);
}

#[test]
fn wheel_twist_linearity() {
    // Scaling both wheel speeds scales the twist.
    let model = test_model();
    let wheels = Wheels { left: Fx::from_ratio(3, 10), right: Fx::from_ratio(9, 10) };
    let twist = model.wheels_to_velocity(wheels);
    let doubled = model.wheels_to_velocity(wheels.scale(Fx::from_int(2)));
    assert!((doubled.v.raw() - 2 * twist.v.raw()).abs() <= 4);
    assert!((doubled.w.raw() - 2 * twist.w.raw()).abs() <= 4);
}

#[test]
fn critical_angle_boundary() {
    // Just at the critical angle the front-wheel branch is used; one
    // step above it the rear-wheel branch takes over.  The two
    // branches do not meet there: the angular speed jumps by about
    // five percent (from ~-0.13158 to ~-0.13841 for this chassis).
    let model = test_model();
    let speed = Fx::from_ratio(1, 2);
    let at = model.physical_to_velocity(Physical {
        speed,
        rudder: Rudder::Angle(model.critical_rudder),
    });
    let above = model.physical_to_velocity(Physical {
        speed,
        rudder: Rudder::Angle(Fx::from_raw(model.critical_rudder.raw() + 2000)),
    });
    assert!((at.w.to_millionths() + 131579).abs() <= 20, "{}", at.w.to_millionths());
    assert!((above.w.to_millionths() + 138409).abs() <= 20, "{}", above.w.to_millionths());
}

#[test]
fn full_lock_pivot() {
    // At a pi/2 rudder the chassis turn radius vanishes: the command
    // is a pure pivot, w = speed / (-length / sin(pi/2)) = -5/3 rad/s.
    let model = test_model();
    let twist = model.physical_to_velocity(Physical {
        speed: Fx::from_ratio(1, 2),
        rudder: Rudder::Angle(Fx::from_raw(2 * FRAC_PI_4_RAW)),
    });
    assert!(twist.v.to_millionths().abs() <= 10, "{}", twist.v.to_millionths());
    assert!((twist.w.to_millionths() + 1666667).abs() <= 10, "{}", twist.w.to_millionths());
}

#[test]
fn default_platform_dimensions() {
    let model = ChassisModel::default();
    assert_eq!(model.width.to_millionths(), 465000);
    assert_eq!(model.length.to_millionths(), 355000);
    assert_eq!(model.wheel.to_millionths(), 105000);
    // critical = atan2(0.355^2/0.465 - 0.2325, 0.355) ~ 0.10809 rad
    assert!((model.critical_rudder.to_millionths() - 108088).abs() <= 20);
}
