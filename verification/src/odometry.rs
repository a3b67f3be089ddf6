//! Odometry: the closed-form integration of a constant twist over one
//! tick into a planar pose increment, and the composition of
//! increments into a running pose estimate.
//!
//! A pose is a planar rigid transform: a translation and a rotation
//! held as a unit complex number `(re, im)`, so that composition is
//! pure arithmetic.  The exact composition law is associative and has
//! the zero record as identity; both are proved below about the spec
//! model the executable contracts are stated over.

use vstd::prelude::*;
use crate::fx::{self, Fx};
use crate::text;
use crate::trig::{self, ANGLE_BOUND, TAU_RAW};
use crate::Velocity;
use vstd::string::StringExecFns;

verus! {

/// The smallest angle treated as a turn, in raw units (`2^-23` rad,
/// the single-precision epsilon): below it the twist is integrated as
/// a straight segment.
pub const EPSILON_RAW: i64 = 512;

/// A planar rigid transform: translation in metres and rotation as a
/// unit complex number.
#[derive(Clone, Copy, PartialEq, Eq, Structural, Debug)]
pub struct Pose {
    /// Translation along the body x axis, m.
    pub x: Fx,
    /// Translation along the body y axis, m.
    pub y: Fx,
    /// Cosine of the rotation angle.
    pub re: Fx,
    /// Sine of the rotation angle.
    pub im: Fx,
}

/// Cumulative travelled distance `s`, cumulative turned angle `a`
/// (both non-negative) and the pose reached.
#[derive(Clone, Copy, PartialEq, Eq, Structural, Debug)]
pub struct Odometry {
    /// Total distance travelled, m; never negative.
    pub s: Fx,
    /// Total magnitude of rotation, rad; never negative.
    pub a: Fx,
    /// The accumulated planar transform.
    pub pose: Pose,
}

/// The values of a pose, for specifications.
pub struct PoseM {
    /// Translation x, raw units.
    pub x: int,
    /// Translation y, raw units.
    pub y: int,
    /// Rotation cosine, raw units.
    pub re: int,
    /// Rotation sine, raw units.
    pub im: int,
}

/// The values of an odometry record, for specifications.
pub struct OdoM {
    /// Distance, raw units.
    pub s: int,
    /// Turned angle, raw units.
    pub a: int,
    /// The pose values.
    pub pose: PoseM,
}

/// The pose's values.
pub open spec fn pose_view(p: Pose) -> PoseM {
    PoseM { x: p.x@, y: p.y@, re: p.re@, im: p.im@ }
}

/// The record's values.
pub open spec fn odo_view(o: Odometry) -> OdoM {
    OdoM { s: o.s@, a: o.a@, pose: pose_view(o.pose) }
}

/// The identity transform: no translation, rotation `1 + 0i`.
pub open spec fn pose_identity() -> PoseM {
    PoseM { x: 0, y: 0, re: fx::SCALE as int, im: 0 }
}

/// An angle reduced into the sine kernel's working range by whole
/// turns of the fixed-point `2 * pi`.
pub open spec fn reduce_angle_spec(w: int) -> int {
    fx::clamp_i(
        fx::sat(w - fx::sat(fx::rnd(w, TAU_RAW as int) * TAU_RAW as int)),
        ANGLE_BOUND as int,
    )
}

/// The pose increment of an integrated twist (`v` a distance, `w` an
/// angle): a straight segment below the epsilon angle, else the
/// circular arc `((v/w) sin w, (v/w) (1 - cos w))` with rotation `w`,
/// every step rounded once and the trig kernels applied to the reduced
/// angle.
pub open spec fn odo_of_velocity_spec(v: int, w: int) -> OdoM {
    let s = fx::abs_i(v);
    let a = fx::abs_i(w);
    if a < EPSILON_RAW as int {
        OdoM { s, a, pose: PoseM { x: v, y: 0, re: fx::SCALE as int, im: 0 } }
    } else {
        let th = reduce_angle_spec(w);
        let sn = fx::sat(trig::sin_fix(th));
        let cs = fx::sat(trig::cos_fix(th));
        let factor = fx::rnd_sat(v * fx::SCALE as int, w);
        OdoM {
            s,
            a,
            pose: PoseM {
                x: fx::rnd_sat(factor * sn, fx::SCALE as int),
                y: fx::rnd_sat(factor * fx::sat(fx::SCALE as int - cs), fx::SCALE as int),
                re: cs,
                im: sn,
            },
        }
    }
}

/// What the executable composition computes: the rigid-transform
/// product, each component rounded once, and the two scalar fields
/// added.
pub open spec fn pose_comp_raw(a: PoseM, b: PoseM) -> PoseM {
    PoseM {
        x: fx::sat(a.x + fx::rnd_sat(a.re * b.x + (-a.im) * b.y, fx::SCALE as int)),
        y: fx::sat(a.y + fx::rnd_sat(a.im * b.x + a.re * b.y, fx::SCALE as int)),
        re: fx::rnd_sat(a.re * b.re + (-a.im) * b.im, fx::SCALE as int),
        im: fx::rnd_sat(a.im * b.re + a.re * b.im, fx::SCALE as int),
    }
}

/// Composition of two odometry records: sums of the scalar fields,
/// product of the poses.
pub open spec fn odo_comp_raw(a: OdoM, b: OdoM) -> OdoM {
    OdoM {
        s: fx::sat(a.s + b.s),
        a: fx::sat(a.a + b.a),
        pose: pose_comp_raw(a.pose, b.pose),
    }
}

/// Reduce an angle into the trig kernels' working range.
fn reduce_angle(w: Fx) -> (r: Fx)
    ensures
        r@ == reduce_angle_spec(w@),
        fx::abs_i(r@) <= ANGLE_BOUND as int,
{
    proof {
        use_type_invariant(w);
    }
    let tau = Fx::from_raw(TAU_RAW);
    let k: i64 = fx::ratio_round(w, tau);
    proof {
        fx::lemma_rnd_magnitude(w@, TAU_RAW as int);
        vstd::arithmetic::div_mod::lemma_div_is_ordered(
            fx::abs_i(w@),
            fx::MAX_RAW as int,
            TAU_RAW as int,
        );
        assert((fx::MAX_RAW as int) / (TAU_RAW as int) < 0x8000_0000);
    }
    w.sub(fx::int_mul(k as i32, tau)).clamp_mag(Fx::from_raw(ANGLE_BOUND))
}

impl Odometry {
    /// Scalar fields are never negative.
    pub open spec fn wf(self) -> bool {
        self.s@ >= 0 && self.a@ >= 0
    }

    /// The neutral record: nothing travelled, identity pose.
    pub fn zero() -> (r: Odometry)
        ensures
            odo_view(r) == (OdoM { s: 0, a: 0, pose: pose_identity() }),
            r.wf(),
    {
        Odometry {
            s: Fx::zero(),
            a: Fx::zero(),
            pose: Pose { x: Fx::zero(), y: Fx::zero(), re: Fx::one(), im: Fx::zero() },
        }
    }

    /// Integrate a twist (already scaled by the tick duration, so `v`
    /// is a distance and `w` an angle) into a pose increment.
    pub fn from_velocity(vel: Velocity) -> (r: Odometry)
        ensures
            odo_view(r) == odo_of_velocity_spec(vel.v@, vel.w@),
            r.wf(),
    {
        let s = vel.v.abs();
        let a = vel.w.abs();
        if a.lt(Fx::from_raw(EPSILON_RAW)) {
            Odometry { s, a, pose: Pose { x: vel.v, y: Fx::zero(), re: Fx::one(), im: Fx::zero() } }
        } else {
            let th = reduce_angle(vel.w);
            let sn = trig::sin_fx(th);
            let cs = trig::cos_fx(th);
            let factor = vel.v.div(vel.w);
            Odometry {
                s,
                a,
                pose: Pose {
                    x: factor.mul(sn),
                    y: factor.mul(Fx::one().sub(cs)),
                    re: cs,
                    im: sn,
                },
            }
        }
    }

    /// Fold another record onto this one: scalar fields add, poses
    /// compose; distance and turned angle never decrease.
    pub fn accumulate(&mut self, rhs: &Odometry)
        ensures
            odo_view(*final(self)) == odo_comp_raw(odo_view(*old(self)), odo_view(*rhs)),
            rhs.wf() ==> final(self).s@ >= old(self).s@ && final(self).a@ >= old(self).a@,
            old(self).wf() && rhs.wf() ==> final(self).wf(),
    {
        proof {
            use_type_invariant(self.s);
            use_type_invariant(self.a);
            use_type_invariant(rhs.s);
            use_type_invariant(rhs.a);
        }
        let x = self.pose.x.add(
            fx::dot2_div(self.pose.re, rhs.pose.x, self.pose.im.neg(), rhs.pose.y, Fx::one()),
        );
        let y = self.pose.y.add(
            fx::dot2_div(self.pose.im, rhs.pose.x, self.pose.re, rhs.pose.y, Fx::one()),
        );
        let re = fx::dot2_div(self.pose.re, rhs.pose.re, self.pose.im.neg(), rhs.pose.im, Fx::one());
        let im = fx::dot2_div(self.pose.im, rhs.pose.re, self.pose.re, rhs.pose.im, Fx::one());
        self.s = self.s.add(rhs.s);
        self.a = self.a.add(rhs.a);
        self.pose = Pose { x, y, re, im };
    }

    /// The composition of two records, leaving both unchanged.
    pub fn compose(self, rhs: Odometry) -> (r: Odometry)
        ensures
            odo_view(r) == odo_comp_raw(odo_view(self), odo_view(rhs)),
            self.wf() && rhs.wf() ==> r.wf(),
    {
        let mut out = self;
        out.accumulate(&rhs);
        out
    }

    /// The rotation angle of the accumulated pose, recovered through
    /// the quadrant-corrected arc-tangent.
    pub fn angle(&self) -> (r: Fx)
        ensures
            r@ == trig::atan2_spec(self.pose.im@, self.pose.re@),
    {
        trig::atan2_fx(self.pose.im, self.pose.re)
    }

    /// The record's log line, with each field rendered per
    /// [`crate::text::fx_text`].
    pub fn to_text(&self) -> (r: String)
        ensures
            r@ == odometry_text(
                self.s@,
                self.a@,
                self.pose.x@,
                self.pose.y@,
                trig::atan2_spec(self.pose.im@, self.pose.re@),
            ),
    {
        let mut out = String::new();
        out.append("Odometry: { s: ");
        text::push_fx(&mut out, self.s);
        out.append(", a: ");
        text::push_fx(&mut out, self.a);
        out.append(", x: ");
        text::push_fx(&mut out, self.pose.x);
        out.append(", y: ");
        text::push_fx(&mut out, self.pose.y);
        out.append(", theta: ");
        text::push_fx(&mut out, self.angle());
        out.append(" }");
        out
    }
}

/// The odometry log line: the five fields named and rendered in order.
pub open spec fn odometry_text(s: int, a: int, x: int, y: int, theta: int) -> Seq<char> {
    "Odometry: { s: "@ + text::fx_text(s) + ", a: "@ + text::fx_text(a) + ", x: "@ + text::fx_text(
        x,
    ) + ", y: "@ + text::fx_text(y) + ", theta: "@ + text::fx_text(theta) + " }"@
}

impl vstd::std_specs::convert::FromSpecImpl<Velocity> for Odometry {
    open spec fn obeys_from_spec() -> bool {
        true
    }

    closed spec fn from_spec(vel: Velocity) -> Odometry {
        let m = odo_of_velocity_spec(vel.v@, vel.w@);
        Odometry {
            s: Fx { bits: m.s as i64 },
            a: Fx { bits: m.a as i64 },
            pose: Pose {
                x: Fx { bits: m.pose.x as i64 },
                y: Fx { bits: m.pose.y as i64 },
                re: Fx { bits: m.pose.re as i64 },
                im: Fx { bits: m.pose.im as i64 },
            },
        }
    }
}

/// What the conversion's specification value holds for representable
/// twists: exactly the integrated twist of [`odo_of_velocity_spec`].
pub proof fn lemma_from_spec_view(vel: Velocity)
    requires
        Fx::in_range(vel.v@),
        Fx::in_range(vel.w@),
    ensures
        odo_view(<Odometry as vstd::std_specs::convert::FromSpec<Velocity>>::from_spec(vel))
            == odo_of_velocity_spec(vel.v@, vel.w@),
{
    let o = <Odometry as vstd::std_specs::convert::FromSpec<Velocity>>::from_spec(vel);
    Fx::lemma_bits(o.s);
    Fx::lemma_bits(o.a);
    Fx::lemma_bits(o.pose.x);
    Fx::lemma_bits(o.pose.y);
    Fx::lemma_bits(o.pose.re);
    Fx::lemma_bits(o.pose.im);
}

impl From<Velocity> for Odometry {
    /// Integrate an already-scaled twist, as
    /// [`Odometry::from_velocity`] does.
    fn from(vel: Velocity) -> (r: Odometry) {
        let r = Odometry::from_velocity(vel);
        proof {
            use_type_invariant(vel.v);
            use_type_invariant(vel.w);
            Fx::lemma_bits(r.s);
            Fx::lemma_bits(r.a);
            Fx::lemma_bits(r.pose.x);
            Fx::lemma_bits(r.pose.y);
            Fx::lemma_bits(r.pose.re);
            Fx::lemma_bits(r.pose.im);
        }
        r
    }
}

/// The zero record is a two-sided identity of the executable
/// composition, exactly: composing with it rounds nothing.
pub proof fn lemma_zero_identity(o: OdoM)
    requires
        Fx::in_range(o.s),
        Fx::in_range(o.a),
        Fx::in_range(o.pose.x),
        Fx::in_range(o.pose.y),
        Fx::in_range(o.pose.re),
        Fx::in_range(o.pose.im),
    ensures
        odo_comp_raw(o, OdoM { s: 0, a: 0, pose: pose_identity() }) == o,
        odo_comp_raw(OdoM { s: 0, a: 0, pose: pose_identity() }, o) == o,
{
    let id = pose_identity();
    fx::lemma_rnd_zero(fx::SCALE as int);
    assert(pose_comp_raw(o.pose, id) == o.pose) by {
        assert(o.pose.re * id.x + (-o.pose.im) * id.y == 0) by (nonlinear_arith)
            requires
                id.x == 0,
                id.y == 0,
        ;
        assert(o.pose.im * id.x + o.pose.re * id.y == 0) by (nonlinear_arith)
            requires
                id.x == 0,
                id.y == 0,
        ;
        assert(o.pose.re * id.re + (-o.pose.im) * id.im == o.pose.re * fx::SCALE as int)
            by (nonlinear_arith)
            requires
                id.re == fx::SCALE as int,
                id.im == 0,
        ;
        assert(o.pose.im * id.re + o.pose.re * id.im == o.pose.im * fx::SCALE as int)
            by (nonlinear_arith)
            requires
                id.re == fx::SCALE as int,
                id.im == 0,
        ;
        fx::lemma_rnd_exact(o.pose.re, fx::SCALE as int);
        fx::lemma_rnd_exact(o.pose.im, fx::SCALE as int);
    }
    assert(pose_comp_raw(id, o.pose) == o.pose) by {
        assert(id.re * o.pose.x + (-id.im) * o.pose.y == o.pose.x * fx::SCALE as int)
            by (nonlinear_arith)
            requires
                id.re == fx::SCALE as int,
                id.im == 0,
        ;
        assert(id.im * o.pose.x + id.re * o.pose.y == o.pose.y * fx::SCALE as int)
            by (nonlinear_arith)
            requires
                id.re == fx::SCALE as int,
                id.im == 0,
        ;
        assert(id.re * o.pose.re + (-id.im) * o.pose.im == o.pose.re * fx::SCALE as int)
            by (nonlinear_arith)
            requires
                id.re == fx::SCALE as int,
                id.im == 0,
        ;
        assert(id.im * o.pose.re + id.re * o.pose.im == o.pose.im * fx::SCALE as int)
            by (nonlinear_arith)
            requires
                id.re == fx::SCALE as int,
                id.im == 0,
        ;
        fx::lemma_rnd_exact(o.pose.x, fx::SCALE as int);
        fx::lemma_rnd_exact(o.pose.y, fx::SCALE as int);
        fx::lemma_rnd_exact(o.pose.re, fx::SCALE as int);
        fx::lemma_rnd_exact(o.pose.im, fx::SCALE as int);
    }
}

/// The ideal rigid-transform composition, over exact values: what the
/// executable composition computes up to one rounding per component
/// (the `1/SCALE` factor of each product is dropped here, so
/// components stand for exact real values).
pub open spec fn pose_comp_exact(a: PoseM, b: PoseM) -> PoseM {
    PoseM {
        x: a.x + a.re * b.x - a.im * b.y,
        y: a.y + a.im * b.x + a.re * b.y,
        re: a.re * b.re - a.im * b.im,
        im: a.im * b.re + a.re * b.im,
    }
}

/// The ideal composition is associative: pose accumulation does not
/// depend on the grouping of increments, up to the per-component
/// rounding of the executable composition.
proof fn lemma_assoc_x(ax: int, are: int, aim: int, bx: int, by: int, bre: int, bim: int, cx: int, cy: int)
    ensures
        (ax + are * bx - aim * by) + (are * bre - aim * bim) * cx - (aim * bre + are * bim) * cy
            == ax + are * (bx + bre * cx - bim * cy) - aim * (by + bim * cx + bre * cy),
{
    broadcast use vstd::arithmetic::mul::group_mul_properties;
}

proof fn lemma_assoc_y(ay: int, are: int, aim: int, bx: int, by: int, bre: int, bim: int, cx: int, cy: int)
    ensures
        (ay + aim * bx + are * by) + (aim * bre + are * bim) * cx + (are * bre - aim * bim) * cy
            == ay + aim * (bx + bre * cx - bim * cy) + are * (by + bim * cx + bre * cy),
{
    broadcast use vstd::arithmetic::mul::group_mul_properties;
}

proof fn lemma_assoc_re(are: int, aim: int, bre: int, bim: int, cre: int, cim: int)
    ensures
        (are * bre - aim * bim) * cre - (aim * bre + are * bim) * cim == are * (bre * cre - bim
            * cim) - aim * (bim * cre + bre * cim),
{
    broadcast use vstd::arithmetic::mul::group_mul_properties;
}

proof fn lemma_assoc_im(are: int, aim: int, bre: int, bim: int, cre: int, cim: int)
    ensures
        (aim * bre + are * bim) * cre + (are * bre - aim * bim) * cim == aim * (bre * cre - bim
            * cim) + are * (bim * cre + bre * cim),
{
    broadcast use vstd::arithmetic::mul::group_mul_properties;
}

pub proof fn lemma_pose_comp_assoc(a: PoseM, b: PoseM, c: PoseM)
    ensures
        pose_comp_exact(pose_comp_exact(a, b), c) == pose_comp_exact(a, pose_comp_exact(b, c)),
{
    lemma_assoc_x(a.x, a.re, a.im, b.x, b.y, b.re, b.im, c.x, c.y);
    lemma_assoc_y(a.y, a.re, a.im, b.x, b.y, b.re, b.im, c.x, c.y);
    lemma_assoc_re(a.re, a.im, b.re, b.im, c.re, c.im);
    lemma_assoc_im(a.re, a.im, b.re, b.im, c.re, c.im);
}

/// Below the epsilon angle the integrated increment is exactly the
/// straight segment `(v, 0)` with the identity rotation.
pub proof fn lemma_small_angle_straight(v: int, w: int)
    requires
        fx::abs_i(w) < EPSILON_RAW as int,
    ensures
        odo_of_velocity_spec(v, w).pose == (PoseM { x: v, y: 0, re: fx::SCALE as int, im: 0 }),
        odo_of_velocity_spec(v, w).s == fx::abs_i(v),
        odo_of_velocity_spec(v, w).a == fx::abs_i(w),
{
}

} // verus!
