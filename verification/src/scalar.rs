//! Exact rational scalars.
//!
//! Every continuous quantity of the pipeline — depth in meters, camera
//! intrinsics, point coordinates, the voxel edge length — is an exact
//! rational `num / den` with a positive denominator. Results are kept
//! unreduced, so each operation's output representation is a function
//! of its inputs' representations.

use vstd::arithmetic::div_mod::lemma_fundamental_div_mod;
use vstd::prelude::*;

verus! {

/// An exact rational number `num / den`. Well-formed values have
/// `den > 0`; numerator and denominator are not reduced.
#[derive(Clone, Copy, Debug, PartialEq, Eq, Structural)]
pub struct Scalar {
    pub num: i128,
    pub den: i128,
}

/// The exact difference `a - b`, unreduced.
pub open spec fn rat_sub(a: Scalar, b: Scalar) -> Scalar {
    Scalar { num: (a.num * b.den - b.num * a.den) as i128, den: (a.den * b.den) as i128 }
}

/// The exact product `a * b`, unreduced.
pub open spec fn rat_mul(a: Scalar, b: Scalar) -> Scalar {
    Scalar { num: (a.num * b.num) as i128, den: (a.den * b.den) as i128 }
}

/// The exact quotient `a / b`, unreduced; meaningful for `b.num > 0`.
pub open spec fn rat_div(a: Scalar, b: Scalar) -> Scalar {
    Scalar { num: (a.num * b.den) as i128, den: (a.den * b.num) as i128 }
}

/// The integer `n` as a rational.
pub open spec fn rat_int(n: int) -> Scalar {
    Scalar { num: n as i128, den: 1 }
}

impl Scalar {
    /// Well-formed: the denominator is positive.
    pub open spec fn wf(self) -> bool {
        self.den > 0
    }

    /// `self` and `other` denote the same rational value.
    pub open spec fn same_value_spec(self, other: Scalar) -> bool {
        self.num * other.den == other.num * self.den
    }

    /// The value is strictly positive.
    pub open spec fn is_positive(self) -> bool {
        self.num > 0
    }

    pub fn new(num: i128, den: i128) -> (r: Scalar)
        requires
            den > 0,
        ensures
            r == (Scalar { num, den }),
            r.wf(),
    {
        Scalar { num, den }
    }

    /// Exact value comparison by cross-multiplication.
    pub fn same_value(&self, other: &Scalar) -> (r: bool)
        requires
            i128::MIN <= self.num * other.den <= i128::MAX,
            i128::MIN <= other.num * self.den <= i128::MAX,
        ensures
            r == self.same_value_spec(*other),
    {
        self.num * other.den == other.num * self.den
    }
}

/// The Euclidean quotient of any `i128` by a positive `i128` stays in
/// the range spanned by the dividend and zero.
pub proof fn lemma_floor_div_in_range(a: int, b: int)
    requires
        b >= 1,
    ensures
        a >= 0 ==> 0 <= a / b <= a,
        a < 0 ==> a <= a / b <= 0,
{
    let q = a / b;
    let r = a % b;
    lemma_fundamental_div_mod(a, b);
    assert(a >= 0 ==> 0 <= q <= a) by (nonlinear_arith)
        requires
            a == b * q + r,
            0 <= r < b,
            b >= 1,
    ;
    assert(a < 0 ==> a <= q <= 0) by (nonlinear_arith)
        requires
            a == b * q + r,
            0 <= r < b,
            b >= 1,
    ;
}

/// Floor division of `a` by the positive `b`: the greatest integer at
/// most `a / b`. For a positive divisor this is exactly the Euclidean
/// quotient, which is what `/` denotes in specifications.
pub fn floor_div(a: i128, b: i128) -> (q: i128)
    requires
        b >= 1,
    ensures
        q == a as int / b as int,
        a >= 0 ==> 0 <= q <= a,
        a < 0 ==> a <= q <= 0,
{
    proof {
        lemma_floor_div_in_range(a as int, b as int);
    }
    a.checked_div_euclid(b).unwrap()
}

} // verus!
