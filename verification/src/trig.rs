//! Trigonometry for the fixed-point scalar.
//!
//! The transcendental kernels come from the `cordic` crate, working on
//! `fixed::types::I32F32`, whose bit representation is exactly the raw
//! representation of [`Fx`].  Each CORDIC call is pure integer
//! arithmetic on the argument's bits, so its result is a function of
//! the argument alone; the results are therefore given names
//! ([`sin_fix`], [`cos_fix`], [`atan_fix`]) that the callers' contracts
//! build on.  Quadrant handling, tangents and range reduction are
//! verified code on top of those three kernels.

use vstd::prelude::*;
use crate::fx::{self, Fx};

verus! {

/// Radians-to-raw constants, each the nearest raw count to the named
/// multiple of pi (`pi * 2^32` and its fractions, rounded).
pub const PI_RAW: i64 = 13493037705;

/// `2 * pi` in raw units, rounded.
pub const TAU_RAW: i64 = 26986075409;

/// `pi / 2` in raw units, rounded.
pub const FRAC_PI_2_RAW: i64 = 6746518852;

/// `pi / 3` in raw units, rounded.
pub const FRAC_PI_3_RAW: i64 = 4497679235;

/// `pi / 6` in raw units, rounded.
pub const FRAC_PI_6_RAW: i64 = 2248839617;

/// Largest raw magnitude handed to the sine/cosine kernel: well inside
/// the range the kernel's reduction loop handles cheaply.
pub const ANGLE_BOUND: i64 = 107944301636;

/// Largest raw magnitude handed to the arc-tangent kernel (a slope of
/// `2^20`); far below the range where the kernel's internal fixed-point
/// arithmetic could overflow.
pub const ATAN_ARG_BOUND: i64 = 4503599627370496;

/// What `cordic::sin` returns on an `I32F32` angle with the given bits.
pub uninterp spec fn sin_fix(angle: int) -> int;

/// What `cordic::cos` returns on an `I32F32` angle with the given bits.
pub uninterp spec fn cos_fix(angle: int) -> int;

/// What `cordic::atan` returns on an `I32F32` slope with the given bits.
pub uninterp spec fn atan_fix(slope: int) -> int;

/// Relies on `cordic::sin` over `fixed::types::I32F32`: a deterministic
/// integer CORDIC rotation whose result depends on the angle bits alone.
#[verifier::external_body]
fn sin_bits(angle: i64) -> (r: i64)
    requires
        fx::abs_i(angle as int) <= ANGLE_BOUND as int,
    ensures
        r as int == sin_fix(angle as int),
{
    cordic::sin(fixed::types::I32F32::from_bits(angle)).to_bits()
}

/// Relies on `cordic::cos` over `fixed::types::I32F32`: a deterministic
/// integer CORDIC rotation whose result depends on the angle bits alone.
#[verifier::external_body]
fn cos_bits(angle: i64) -> (r: i64)
    requires
        fx::abs_i(angle as int) <= ANGLE_BOUND as int,
    ensures
        r as int == cos_fix(angle as int),
{
    cordic::cos(fixed::types::I32F32::from_bits(angle)).to_bits()
}

/// Relies on `cordic::atan` over `fixed::types::I32F32`: a deterministic
/// integer CORDIC vectoring whose result depends on the slope bits alone.
#[verifier::external_body]
fn atan_bits(slope: i64) -> (r: i64)
    requires
        fx::abs_i(slope as int) <= ATAN_ARG_BOUND as int,
    ensures
        r as int == atan_fix(slope as int),
{
    cordic::atan(fixed::types::I32F32::from_bits(slope)).to_bits()
}

/// The sine of an angle whose magnitude is at most `ANGLE_BOUND` raw
/// units (about eight pi): what the CORDIC kernel returns, clamped into
/// the scalar range.
pub fn sin_fx(angle: Fx) -> (r: Fx)
    requires
        fx::abs_i(angle@) <= ANGLE_BOUND as int,
    ensures
        r@ == fx::sat(sin_fix(angle@)),
{
    Fx::from_raw(sin_bits(angle.raw()))
}

/// The cosine of an angle whose magnitude is at most `ANGLE_BOUND` raw
/// units: what the CORDIC kernel returns, clamped into the scalar range.
pub fn cos_fx(angle: Fx) -> (r: Fx)
    requires
        fx::abs_i(angle@) <= ANGLE_BOUND as int,
    ensures
        r@ == fx::sat(cos_fix(angle@)),
{
    Fx::from_raw(cos_bits(angle.raw()))
}

/// The arc-tangent of a slope: the CORDIC kernel applied to the slope
/// clamped into `[-ATAN_ARG_BOUND, ATAN_ARG_BOUND]` raw units (clamping
/// changes the ideal result by less than one part in a million, since
/// `atan` is flat there).
pub open spec fn atan_spec(slope: int) -> int {
    let c = if slope > ATAN_ARG_BOUND as int {
        ATAN_ARG_BOUND as int
    } else if slope < -(ATAN_ARG_BOUND as int) {
        -(ATAN_ARG_BOUND as int)
    } else {
        slope
    };
    fx::sat(atan_fix(c))
}

/// The arc-tangent of a slope, with the argument clamped as
/// [`atan_spec`] says.
pub fn atan_fx(slope: Fx) -> (r: Fx)
    ensures
        r@ == atan_spec(slope@),
{
    proof {
        use_type_invariant(slope);
    }
    let s = slope.raw();
    let c: i64 = if s > ATAN_ARG_BOUND {
        ATAN_ARG_BOUND
    } else if s < -ATAN_ARG_BOUND {
        -ATAN_ARG_BOUND
    } else {
        s
    };
    Fx::from_raw(atan_bits(c))
}

/// The quadrant-corrected arc-tangent of `y / x`, in `(-pi, pi]`:
/// `atan` of the rounded slope for `x > 0`, shifted by pi (with the
/// sign of `y`) for `x < 0`, and a quarter turn on the `x == 0` axis.
pub open spec fn atan2_spec(y: int, x: int) -> int {
    if x == 0 {
        if y > 0 {
            FRAC_PI_2_RAW as int
        } else if y < 0 {
            -(FRAC_PI_2_RAW as int)
        } else {
            0
        }
    } else {
        let slope = fx::rnd_sat(y * fx::SCALE as int, x);
        if x > 0 {
            atan_spec(slope)
        } else if y >= 0 {
            fx::sat(atan_spec(slope) + PI_RAW as int)
        } else {
            fx::sat(atan_spec(slope) - PI_RAW as int)
        }
    }
}

/// Quadrant-corrected arc-tangent of `y / x`.
pub fn atan2_fx(y: Fx, x: Fx) -> (r: Fx)
    ensures
        r@ == atan2_spec(y@, x@),
{
    if x.is_zero() {
        if Fx::zero().lt(y) {
            Fx::from_raw(FRAC_PI_2_RAW)
        } else if y.lt(Fx::zero()) {
            Fx::from_raw(-FRAC_PI_2_RAW)
        } else {
            Fx::zero()
        }
    } else {
        let a = atan_fx(y.div(x));
        if Fx::zero().lt(x) {
            a
        } else if Fx::zero().le(y) {
            a.add(Fx::from_raw(PI_RAW))
        } else {
            a.sub(Fx::from_raw(PI_RAW))
        }
    }
}

/// The tangent of an angle as the rounded ratio of the named sine and
/// cosine, saturated with the sine's sign where the cosine is zero.
pub open spec fn tan_spec(angle: int) -> int {
    let s = fx::sat(sin_fix(angle));
    let c = fx::sat(cos_fix(angle));
    if c == 0 {
        if s >= 0 {
            fx::MAX_RAW as int
        } else {
            -(fx::MAX_RAW as int)
        }
    } else {
        fx::rnd_sat(s * fx::SCALE as int, c)
    }
}

/// Tangent of an angle whose magnitude is at most `ANGLE_BOUND` raw
/// units.
pub fn tan_fx(angle: Fx) -> (r: Fx)
    requires
        fx::abs_i(angle@) <= ANGLE_BOUND as int,
    ensures
        r@ == tan_spec(angle@),
{
    let s = sin_fx(angle);
    let c = cos_fx(angle);
    if c.is_zero() {
        if Fx::zero().le(s) {
            Fx::from_raw(fx::MAX_RAW)
        } else {
            Fx::from_raw(-fx::MAX_RAW)
        }
    } else {
        s.div(c)
    }
}

} // verus!
