//! Camera intrinsics.
//!
//! The pinhole model's four numbers — focal lengths `fx`, `fy` and
//! principal point `cx`, `cy`, all in pixels — as exact rationals.
//! Reading them from a configuration resource is the caller's concern;
//! this module only models and validates the values.

use crate::scalar::Scalar;
use vstd::prelude::*;

verus! {

/// Bound on the magnitude of an intrinsic parameter's numerator.
pub const INTRINSIC_NUM_BOUND: i128 = 0x10000000000;

/// Bound on an intrinsic parameter's denominator.
pub const INTRINSIC_DEN_BOUND: i128 = 0x100000;

/// Pinhole camera intrinsics: focal lengths and principal point in
/// pixels.
#[derive(Clone, Copy, Debug, PartialEq, Eq, Structural)]
pub struct Intrinsics {
    pub fx: Scalar,
    pub fy: Scalar,
    pub cx: Scalar,
    pub cy: Scalar,
}

impl Intrinsics {
    /// Well-formed: positive focal lengths, and all four parameters
    /// within the bounds that keep projection arithmetic in range.
    pub open spec fn wf(self) -> bool {
        &&& 1 <= self.fx.num <= INTRINSIC_NUM_BOUND && 1 <= self.fx.den <= INTRINSIC_DEN_BOUND
        &&& 1 <= self.fy.num <= INTRINSIC_NUM_BOUND && 1 <= self.fy.den <= INTRINSIC_DEN_BOUND
        &&& -INTRINSIC_NUM_BOUND <= self.cx.num <= INTRINSIC_NUM_BOUND && 1 <= self.cx.den
            <= INTRINSIC_DEN_BOUND
        &&& -INTRINSIC_NUM_BOUND <= self.cy.num <= INTRINSIC_NUM_BOUND && 1 <= self.cy.den
            <= INTRINSIC_DEN_BOUND
    }

    /// Package the four intrinsic parameters.
    pub fn new(fx: Scalar, fy: Scalar, cx: Scalar, cy: Scalar) -> (r: Intrinsics)
        requires
            1 <= fx.num <= INTRINSIC_NUM_BOUND,
            1 <= fx.den <= INTRINSIC_DEN_BOUND,
            1 <= fy.num <= INTRINSIC_NUM_BOUND,
            1 <= fy.den <= INTRINSIC_DEN_BOUND,
            -INTRINSIC_NUM_BOUND <= cx.num <= INTRINSIC_NUM_BOUND,
            1 <= cx.den <= INTRINSIC_DEN_BOUND,
            -INTRINSIC_NUM_BOUND <= cy.num <= INTRINSIC_NUM_BOUND,
            1 <= cy.den <= INTRINSIC_DEN_BOUND,
        ensures
            r == (Intrinsics { fx, fy, cx, cy }),
            r.wf(),
    {
        Intrinsics { fx, fy, cx, cy }
    }
}

} // verus!
