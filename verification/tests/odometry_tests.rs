//! Integration of twists into pose increments and their composition.

use pm1_control_model::fx::Fx;
use pm1_control_model::{Odometry, Velocity};

#[test]
fn odometry_test() {
    let od = Odometry::zero();
    assert_eq!(od.to_text(), "Odometry: { s: 0, a: 0, x: 0, y: 0, theta: 0 }");

    let v1 = Velocity { v: Fx::from_ratio(4, 10), w: Fx::from_ratio(3, 10) };
    let v2 = Velocity { v: Fx::from_ratio(6, 10), w: Fx::from_ratio(1, 10) };
    let mut od1 = Odometry::from(v1);
    let od2 = Odometry::from(v2);

    let od11 = od1.compose(od2);
    od1.accumulate(&od2);

    assert_eq!(od11.to_text(), od1.to_text());
}

#[test]
fn zero_is_identity() {
    let v = Velocity { v: Fx::from_ratio(4, 10), w: Fx::from_ratio(3, 10) };
    let od = Odometry::from_velocity(v);
    assert_eq!(od.compose(Odometry::zero()), od);
    assert_eq!(Odometry::zero().compose(od), od);
}

#[test]
fn composition_nearly_associative() {
    // The ideal composition is associative; the executable one rounds
    // each component once, so the two groupings agree to a few raw
    // units.
    let a = Odometry::from_velocity(Velocity { v: Fx::from_ratio(4, 10), w: Fx::from_ratio(3, 10) });
    let b = Odometry::from_velocity(Velocity { v: Fx::from_ratio(6, 10), w: Fx::from_ratio(1, 10) });
    let c = Odometry::from_velocity(Velocity {
        v: Fx::from_ratio(-2, 10),
        w: Fx::from_ratio(5, 10),
    });
    let lhs = a.compose(b).compose(c);
    let rhs = a.compose(b.compose(c));
    assert!((lhs.pose.x.raw() - rhs.pose.x.raw()).abs() <= 8);
    assert!((lhs.pose.y.raw() - rhs.pose.y.raw()).abs() <= 8);
    assert!((lhs.pose.re.raw() - rhs.pose.re.raw()).abs() <= 8);
    assert!((lhs.pose.im.raw() - rhs.pose.im.raw()).abs() <= 8);
    assert_eq!(lhs.s, rhs.s);
    assert_eq!(lhs.a, rhs.a);
}

#[test]
fn distance_and_angle_grow() {
    let mut od = Odometry::zero();
    let inc = Odometry::from_velocity(Velocity {
        v: Fx::from_ratio(-3, 10),
        w: Fx::from_ratio(2, 10),
    });
    // Distance and turned angle are magnitudes and only accumulate.
    assert_eq!(inc.s.to_millionths(), 300000);
    assert_eq!(inc.a.to_millionths(), 200000);
    for _ in 0..5 {
        let before = (od.s.raw(), od.a.raw());
        od.accumulate(&inc);
        assert!(od.s.raw() >= before.0);
        assert!(od.a.raw() >= before.1);
    }
    assert_eq!(od.s.to_millionths(), 1500000);
}

#[test]
fn small_angle_is_straight() {
    // Below the epsilon angle the increment is exactly the straight
    // segment (v, 0) with the identity rotation.
    let v = Fx::from_ratio(1, 4);
    let od = Odometry::from_velocity(Velocity { v, w: Fx::from_raw(100) });
    assert_eq!(od.pose.x, v);
    assert_eq!(od.pose.y.raw(), 0);
    assert_eq!(od.pose.re, Fx::one());
    assert_eq!(od.pose.im.raw(), 0);
    assert_eq!(od.a.raw(), 100);
}

#[test]
fn quarter_turn_arc() {
    // An integrated twist of one quarter turn with v = pi/2 * 0.5:
    // radius 0.5, so the increment is (0.5, 0.5) with a 90-degree
    // rotation.
    let quarter = Fx::from_raw(6746518852);
    let od = Odometry::from_velocity(Velocity { v: quarter.mul(Fx::from_ratio(1, 2)), w: quarter });
    assert!((od.pose.x.to_millionths() - 500000).abs() <= 10);
    assert!((od.pose.y.to_millionths() - 500000).abs() <= 10);
    assert!(od.pose.re.to_millionths().abs() <= 10);
    assert!((od.pose.im.to_millionths() - 1000000).abs() <= 10);
    assert!((od.angle().to_millionths() - 1570796).abs() <= 10);
}

#[test]
fn text_rendering() {
    let mut s = String::new();
    pm1_control_model::text::push_fx(&mut s, Fx::from_ratio(-3, 2));
    assert_eq!(s, "-1.5");

    let mut s = String::new();
    pm1_control_model::text::push_fx(&mut s, Fx::from_int(2));
    assert_eq!(s, "2");

    let mut s = String::new();
    pm1_control_model::text::push_fx(&mut s, Fx::from_ratio(1, 4));
    assert_eq!(s, "0.25");

    let mut s = String::new();
    pm1_control_model::text::push_fx(&mut s, Fx::from_ratio(1, 1000000));
    assert_eq!(s, "0.000001");

    let mut s = String::new();
    pm1_control_model::text::push_fx(&mut s, Fx::from_ratio(12345678, 1000));
    assert_eq!(s, "12345.678");
}
