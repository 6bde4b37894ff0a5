//! Interpolation between two values and the weighting of two quantities
//! against each other.

use vstd::prelude::*;
use crate::array::{dot2, A2};
use crate::num::{sq, sq_spec, Float, Num};

verus! {

/// Straight-line interpolation and weighting by magnitude.
#[derive(Clone, Copy, Debug, PartialEq, Eq, Structural)]
pub struct LinearScale;

/// Weighting by squared magnitude (the power heuristic).
#[derive(Clone, Copy, Debug, PartialEq, Eq, Structural)]
pub struct PowerScale;

/// Interpolation eased by the smoothstep curve `t² (3 - 2t)`.
#[derive(Clone, Copy, Debug, PartialEq, Eq, Structural)]
pub struct SmoothScale;

impl LinearScale {
    /// `a.0 (1 - t) + a.1 t`.
    pub open spec fn interp_spec<S: Num>(a: A2<S>, t: S) -> S {
        dot2(a, A2(S::one_spec().sub_spec(t), t))
    }

    pub fn interp<S: Num>(a: A2<S>, t: S) -> (r: S)
        ensures
            r == Self::interp_spec(a, t),
    {
        A2::dot(a, A2(S::one().sub(t), t))
    }

    /// The share of the first value in the sum: `a.0 / (a.0 + a.1)`.
    pub open spec fn balance_spec<S: Float>(a: A2<S>) -> S {
        a.0.div_spec(a.0.add_spec(a.1))
    }

    pub fn balance<S: Float>(a: A2<S>) -> (r: S)
        ensures
            r == Self::balance_spec(a),
    {
        a.0.div(a.sum())
    }

    pub fn balance2<S: Float>(a: S, b: S) -> (r: S)
        ensures
            r == Self::balance_spec(A2(a, b)),
    {
        Self::balance(A2(a, b))
    }
}

impl SmoothScale {
    /// The smoothstep of `t`: `t² (3 - 2t)`.
    pub open spec fn ease_spec<S: Num>(t: S) -> S {
        let three = S::one_spec().add_spec(S::two_spec());
        sq_spec(t).mul_spec(three.sub_spec(S::two_spec().mul_spec(t)))
    }

    pub fn interp<S: Num>(a: A2<S>, t: S) -> (r: S)
        ensures
            r == LinearScale::interp_spec(a, Self::ease_spec(t)),
    {
        let three = S::one().add(S::two());
        LinearScale::interp(a, sq(t).mul(three.sub(S::two().mul(t))))
    }
}

impl PowerScale {
    /// The share of the first square in the sum of squares.
    pub fn balance<S: Float>(a: A2<S>) -> (r: S)
        ensures
            r == LinearScale::balance_spec(A2(sq_spec(a.0), sq_spec(a.1))),
    {
        LinearScale::balance(A2(sq(a.0), sq(a.1)))
    }

    pub fn balance2<S: Float>(a: S, b: S) -> (r: S)
        ensures
            r == LinearScale::balance_spec(A2(sq_spec(a), sq_spec(b))),
    {
        Self::balance(A2(a, b))
    }
}

} // verus!
