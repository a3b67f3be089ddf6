//! A signed fixed-point scalar with 32 fractional bits.
//!
//! Every physical quantity of the library (metres, seconds, radians,
//! metres per second, ...) is carried by [`Fx`]: an `i64` count of
//! `2^-32` units.  Arithmetic rounds to the nearest representable
//! value (ties away from zero) and saturates at `±MAX_RAW` units, so
//! every operation is total and its result is stated exactly.

use vstd::prelude::*;

verus! {

/// Number of raw units per 1.0: `2^32`.
pub const SCALE: i64 = 4294967296;

/// Largest raw magnitude a scalar may carry: `2^62 - 1`.
/// The symmetric range keeps negation exact and leaves `i128`
/// products of two raw values far from overflow.
pub const MAX_RAW: i64 = 4611686018427387903;

/// Largest magnitude `rnd_div` accepts for numerator and denominator:
/// `2^126 - 1`, so that `2*n + d` still fits in 128 bits.
pub const DIV_BOUND: i128 = 85070591730234615865843651857942052863;

/// Magnitude of an integer.
pub open spec fn abs_i(x: int) -> int {
    if x >= 0 {
        x
    } else {
        -x
    }
}

/// Clamp an integer into the representable raw range.
pub open spec fn sat(x: int) -> int {
    if x > MAX_RAW as int {
        MAX_RAW as int
    } else if x < -(MAX_RAW as int) {
        -(MAX_RAW as int)
    } else {
        x
    }
}

/// Clamp `v` into the symmetric interval `[-m, m]`.
pub open spec fn clamp_i(v: int, m: int) -> int {
    if v > m {
        m
    } else if v < -m {
        -m
    } else {
        v
    }
}

/// The nearest integer to `n / d` (`d != 0`), ties rounded away from zero.
pub open spec fn rnd(n: int, d: int) -> int {
    let q = (2 * abs_i(n) + abs_i(d)) / (2 * abs_i(d));
    if (n >= 0) == (d > 0) {
        q
    } else {
        -q
    }
}

/// Round and saturate in one step: what every rounded operation returns.
pub open spec fn rnd_sat(n: int, d: int) -> int {
    sat(rnd(n, d))
}

/// The fixed-point scalar: `bits / 2^32` as a real quantity.
#[derive(Clone, Copy, PartialEq, Eq, Structural, Debug)]
pub struct Fx {
    pub(crate) bits: i64,
}

impl View for Fx {
    type V = int;

    closed spec fn view(&self) -> int {
        self.bits as int
    }
}

impl Fx {
    /// The raw range every scalar is known to lie in.
    pub open spec fn in_range(v: int) -> bool {
        -(MAX_RAW as int) <= v <= MAX_RAW as int
    }

    /// Values stay inside the symmetric saturation range.
    #[verifier::type_invariant]
    pub open spec fn type_inv(self) -> bool {
        Fx::in_range(self@)
    }

    /// The view is the raw field, for crate-internal reasoning about
    /// specification-built scalars.
    pub(crate) proof fn lemma_bits(x: Fx)
        ensures
            x@ == x.bits as int,
    {
    }

    /// Build a scalar from a raw count of `2^-32` units, saturating.
    pub fn from_raw(bits: i64) -> (r: Fx)
        ensures
            r@ == sat(bits as int),
    {
        if bits > MAX_RAW {
            Fx { bits: MAX_RAW }
        } else if bits < -MAX_RAW {
            Fx { bits: -MAX_RAW }
        } else {
            Fx { bits }
        }
    }

    /// The raw count of `2^-32` units.
    pub fn raw(self) -> (r: i64)
        ensures
            r as int == self@,
    {
        self.bits
    }

    /// The zero scalar.
    pub fn zero() -> (r: Fx)
        ensures
            r@ == 0,
    {
        Fx { bits: 0 }
    }

    /// The scalar 1.0.
    pub fn one() -> (r: Fx)
        ensures
            r@ == SCALE as int,
    {
        Fx { bits: SCALE }
    }

    /// The scalar closest to the integer `i`, saturating.
    pub fn from_int(i: i32) -> (r: Fx)
        ensures
            r@ == sat(i as int * SCALE as int),
    {
        let bits: i64 = (i as i64) * SCALE;
        proof {
            assert((i as i64) * SCALE == i as int * SCALE as int) by (nonlinear_arith);
            assert(abs_i(i as int * SCALE as int) <= 2147483648 * SCALE as int)
                by (nonlinear_arith)
                requires
                    abs_i(i as int) <= 2147483648,
            ;
        }
        Self::from_raw(bits)
    }

    /// The scalar nearest to the fraction `n / d`, saturating.
    pub fn from_ratio(n: i64, d: i64) -> (r: Fx)
        requires
            d != 0,
        ensures
            r@ == rnd_sat(n as int * SCALE as int, d as int),
    {
        proof {
            assert(abs_i(n as int * SCALE as int) < DIV_BOUND as int) by (nonlinear_arith)
                requires
                    abs_i(n as int) <= 0x8000_0000_0000_0000,
            ;
        }
        Fx { bits: rnd_div((n as i128) * (SCALE as i128), d as i128) }
    }

    /// Saturating addition: exact whenever the sum is representable.
    pub fn add(self, rhs: Fx) -> (r: Fx)
        ensures
            r@ == sat(self@ + rhs@),
    {
        proof {
            use_type_invariant(self);
            use_type_invariant(rhs);
        }
        let s: i128 = self.bits as i128 + rhs.bits as i128;
        if s > MAX_RAW as i128 {
            Fx { bits: MAX_RAW }
        } else if s < -(MAX_RAW as i128) {
            Fx { bits: -MAX_RAW }
        } else {
            Fx { bits: s as i64 }
        }
    }

    /// Saturating subtraction: exact whenever the difference is representable.
    pub fn sub(self, rhs: Fx) -> (r: Fx)
        ensures
            r@ == sat(self@ - rhs@),
    {
        proof {
            use_type_invariant(self);
            use_type_invariant(rhs);
        }
        let s: i128 = self.bits as i128 - rhs.bits as i128;
        if s > MAX_RAW as i128 {
            Fx { bits: MAX_RAW }
        } else if s < -(MAX_RAW as i128) {
            Fx { bits: -MAX_RAW }
        } else {
            Fx { bits: s as i64 }
        }
    }

    /// Exact negation.
    pub fn neg(self) -> (r: Fx)
        ensures
            r@ == -self@,
    {
        proof {
            use_type_invariant(self);
        }
        Fx { bits: -self.bits }
    }

    /// Exact magnitude.
    pub fn abs(self) -> (r: Fx)
        ensures
            r@ == abs_i(self@),
    {
        proof {
            use_type_invariant(self);
        }
        if self.bits < 0 {
            Fx { bits: -self.bits }
        } else {
            self
        }
    }

    /// Rounded, saturating multiplication.
    pub fn mul(self, rhs: Fx) -> (r: Fx)
        ensures
            r@ == rnd_sat(self@ * rhs@, SCALE as int),
    {
        proof {
            use_type_invariant(self);
            use_type_invariant(rhs);
            lemma_abs_mul_bound(self@, rhs@, MAX_RAW as int, MAX_RAW as int);
        }
        Fx { bits: rnd_div(self.bits as i128 * rhs.bits as i128, SCALE as i128) }
    }

    /// Rounded, saturating division.
    pub fn div(self, rhs: Fx) -> (r: Fx)
        requires
            rhs@ != 0,
        ensures
            r@ == rnd_sat(self@ * SCALE as int, rhs@),
    {
        proof {
            use_type_invariant(self);
            use_type_invariant(rhs);
            lemma_abs_mul_bound(self@, SCALE as int, MAX_RAW as int, SCALE as int);
        }
        Fx { bits: rnd_div(self.bits as i128 * SCALE as i128, rhs.bits as i128) }
    }

    /// Comparison on the underlying values.
    pub fn lt(self, rhs: Fx) -> (r: bool)
        ensures
            r == (self@ < rhs@),
    {
        self.bits < rhs.bits
    }

    /// Comparison on the underlying values.
    pub fn le(self, rhs: Fx) -> (r: bool)
        ensures
            r == (self@ <= rhs@),
    {
        self.bits <= rhs.bits
    }

    /// Whether the scalar is exactly zero.
    pub fn is_zero(self) -> (r: bool)
        ensures
            r == (self@ == 0),
    {
        self.bits == 0
    }

    /// Clamp the value into the symmetric interval `[-m, m]`.
    pub fn clamp_mag(self, m: Fx) -> (r: Fx)
        requires
            m@ >= 0,
        ensures
            r@ == clamp_i(self@, m@),
    {
        if m.lt(self) {
            m
        } else if self.lt(m.neg()) {
            m.neg()
        } else {
            self
        }
    }

    /// The raw count of millionths nearest to the value, for display
    /// and for tolerance checks in tests.
    pub fn to_millionths(self) -> (r: i64)
        ensures
            r as int == rnd(self@ * 1000000, SCALE as int),
    {
        proof {
            use_type_invariant(self);
            lemma_abs_mul_bound(self@, 1000000, MAX_RAW as int, 1000000);
            assert(abs_i(rnd(self@ * 1000000, SCALE as int)) <= MAX_RAW as int) by {
                lemma_rnd_magnitude(self@ * 1000000, SCALE as int);
                assert(abs_i(self@ * 1000000) / SCALE as int + 1 <= MAX_RAW as int);
            }
        }
        rnd_div(self.bits as i128 * 1000000, SCALE as i128)
    }
}

/// Fused dot-product-divide: `(a1 * b1 + a2 * b2) / d` with a single
/// rounding.
pub fn dot2_div(a1: Fx, b1: Fx, a2: Fx, b2: Fx, d: Fx) -> (r: Fx)
    requires
        d@ != 0,
    ensures
        r@ == rnd_sat(a1@ * b1@ + a2@ * b2@, d@),
{
    proof {
        use_type_invariant(a1);
        use_type_invariant(b1);
        use_type_invariant(a2);
        use_type_invariant(b2);
        use_type_invariant(d);
        lemma_abs_mul_bound(a1@, b1@, MAX_RAW as int, MAX_RAW as int);
        lemma_abs_mul_bound(a2@, b2@, MAX_RAW as int, MAX_RAW as int);
    }
    Fx {
        bits: rnd_div(
            a1.bits as i128 * b1.bits as i128 + a2.bits as i128 * b2.bits as i128,
            d.bits as i128,
        ),
    }
}

/// An integer count times a scalar, saturating: `p * k`.
pub fn int_mul(p: i32, k: Fx) -> (r: Fx)
    ensures
        r@ == sat(p as int * k@),
{
    proof {
        use_type_invariant(k);
        lemma_abs_mul_bound(p as int, k@, 0x8000_0000, MAX_RAW as int);
        assert(rnd(p as int * k@, 1) == p as int * k@) by (nonlinear_arith);
    }
    Fx { bits: rnd_div(p as i128 * k.bits as i128, 1) }
}

/// The integer nearest to the dimensionless ratio `a / d`.
pub fn ratio_round(a: Fx, d: Fx) -> (r: i64)
    requires
        d@ != 0,
    ensures
        r as int == rnd(a@, d@),
{
    proof {
        use_type_invariant(a);
        use_type_invariant(d);
        lemma_rnd_le_num(a@, d@);
    }
    rnd_div(a.bits as i128, d.bits as i128)
}

/// `|a * b| <= m1 * m2` when `|a| <= m1` and `|b| <= m2`.
pub proof fn lemma_abs_mul_bound(a: int, b: int, m1: int, m2: int)
    by (nonlinear_arith)
    requires
        abs_i(a) <= m1,
        abs_i(b) <= m2,
    ensures
        abs_i(a * b) <= m1 * m2,
{
}

/// Rounding a quotient never overshoots the magnitude of the exact
/// quotient by more than one unit.
pub proof fn lemma_rnd_magnitude(n: int, d: int)
    by (nonlinear_arith)
    requires
        d != 0,
    ensures
        abs_i(rnd(n, d)) <= abs_i(n) / abs_i(d) + 1,
{
}

/// A zero numerator rounds to zero.
pub proof fn lemma_rnd_zero(d: int)
    by (nonlinear_arith)
    requires
        d != 0,
    ensures
        rnd(0, d) == 0,
{
}

/// The rounded quotient of a one-signed fraction keeps that sign.
pub proof fn lemma_rnd_sign(n: int, d: int)
    by (nonlinear_arith)
    requires
        d > 0,
    ensures
        n >= 0 ==> rnd(n, d) >= 0,
        n <= 0 ==> rnd(n, d) <= 0,
{
}

/// Rounding is monotone in a non-negative numerator.
pub proof fn lemma_rnd_monotone_nonneg(n1: int, n2: int, d: int)
    requires
        d > 0,
        0 <= n1 <= n2,
    ensures
        rnd(n1, d) <= rnd(n2, d),
{
    vstd::arithmetic::div_mod::lemma_div_is_ordered(2 * n1 + d, 2 * n2 + d, 2 * d);
}

/// The rounded quotient never exceeds the numerator in magnitude.
pub proof fn lemma_rnd_le_num(n: int, d: int)
    by (nonlinear_arith)
    requires
        d != 0,
    ensures
        abs_i(rnd(n, d)) <= abs_i(n),
{
}

/// Rounding recovers exact multiples: `rnd(k * d, d) == k`.
pub proof fn lemma_rnd_exact(k: int, d: int)
    by (nonlinear_arith)
    requires
        d > 0,
    ensures
        rnd(k * d, d) == k,
{
}

/// Divide `n` by `d`, round to the nearest integer (ties away from
/// zero) and saturate into the raw range.
pub(crate) fn rnd_div(n: i128, d: i128) -> (r: i64)
    requires
        d != 0,
        abs_i(n as int) <= DIV_BOUND as int,
        abs_i(d as int) <= DIV_BOUND as int,
    ensures
        r as int == rnd_sat(n as int, d as int),
{
    let nn: u128 = if n >= 0 {
        n as u128
    } else {
        (-n) as u128
    };
    let dd: u128 = if d >= 0 {
        d as u128
    } else {
        (-d) as u128
    };
    let q: u128 = (2 * nn + dd) / (2 * dd);
    let qs: i64 = if q > MAX_RAW as u128 {
        MAX_RAW
    } else {
        q as i64
    };
    proof {
        assert(nn as int == abs_i(n as int));
        assert(dd as int == abs_i(d as int));
        assert(q as int == (2 * abs_i(n as int) + abs_i(d as int)) / (2 * abs_i(d as int)));
    }
    if (n >= 0) == (d >= 0) {
        qs
    } else {
        -qs
    }
}

} // verus!
