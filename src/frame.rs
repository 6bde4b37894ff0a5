//! Trigonometry of a direction given in a local shading frame, whose z-axis
//! is the surface normal: the z-component is the cosine of the polar angle.

use vstd::prelude::*;
use crate::array::{dot3, A2, A3};
use crate::bound::{max, max_spec};
use crate::num::{sq, sq_spec, Float, Num};

verus! {

/// The shading-frame conventions; it holds no data.
#[derive(Clone, Copy, Debug, PartialEq, Eq, Structural)]
pub struct Frame;

/// `2π`.
pub open spec fn two_pi_spec<S: Float>() -> S {
    S::two_spec().mul_spec(S::pi_spec())
}

pub fn two_pi<S: Float>() -> (r: S)
    ensures
        r == two_pi_spec::<S>(),
{
    S::two().mul(S::pi())
}

impl Frame {
    /// `cos θ = v.z`.
    pub open spec fn ct_spec<S: Float>(v: A3<S>) -> S {
        v.2
    }

    /// `cos² θ`.
    pub open spec fn c2t_spec<S: Float>(v: A3<S>) -> S {
        sq_spec(Self::ct_spec(v))
    }

    /// `sin² θ = max(1 - cos² θ, 0)`.
    pub open spec fn s2t_spec<S: Float>(v: A3<S>) -> S {
        max_spec(S::one_spec().sub_spec(Self::c2t_spec(v)), S::zero_spec())
    }

    /// `sin θ = sqrt(sin² θ)`.
    pub open spec fn st_spec<S: Float>(v: A3<S>) -> S {
        Self::s2t_spec(v).sqrt_spec()
    }

    pub fn ct<S: Float>(v: A3<S>) -> (r: S)
        ensures
            r == Self::ct_spec(v),
    {
        v.2
    }

    pub fn c2t<S: Float>(v: A3<S>) -> (r: S)
        ensures
            r == Self::c2t_spec(v),
    {
        sq(Self::ct(v))
    }

    pub fn s2t<S: Float>(v: A3<S>) -> (r: S)
        ensures
            r == Self::s2t_spec(v),
    {
        max(S::one().sub(Self::c2t(v)), S::zero())
    }

    pub fn st<S: Float>(v: A3<S>) -> (r: S)
        ensures
            r == Self::st_spec(v),
    {
        Self::s2t(v).sqrt()
    }

    /// `tan θ = sin θ / cos θ`, infinite where `cos θ = 0`.
    pub fn tt<S: Float>(v: A3<S>) -> (r: S)
        ensures
            r == Self::st_spec(v).div_spec(Self::ct_spec(v)),
    {
        Self::st(v).div(Self::ct(v))
    }

    /// `tan² θ = sin² θ / cos² θ`.
    pub fn t2t<S: Float>(v: A3<S>) -> (r: S)
        ensures
            r == Self::s2t_spec(v).div_spec(Self::c2t_spec(v)),
    {
        Self::s2t(v).div(Self::c2t(v))
    }

    /// The mirror image across the normal: `(-x, -y, z)`.
    pub fn reflect<S: Num>(v: A3<S>) -> (r: A3<S>)
        ensures
            r == A3(v.0.neg_spec(), v.1.neg_spec(), v.2),
    {
        A3(v.0.neg(), v.1.neg(), v.2)
    }

    /// Whether the two directions lie on the same side: `v1 · v2 >= 0`.
    pub fn same_hemisphere<S: Num>(v1: A3<S>, v2: A3<S>) -> (r: bool)
        ensures
            r == S::zero_spec().le_spec(dot3(v1, v2)),
    {
        S::zero().le(A3::dot(v1, v2))
    }

    /// The azimuth `atan2(y, x)` moved into `[0, 2π)`.
    pub open spec fn azimuth_spec<S: Float>(v: A3<S>) -> S {
        let p = S::atan2_spec(v.1, v.0);
        if p.lt_spec(S::zero_spec()) {
            p.add_spec(two_pi_spec::<S>())
        } else {
            p
        }
    }

    /// The spherical angles `(θ, φ) = (acos z, azimuth)` of `v`.
    pub fn cart2spher<S: Float>(v: A3<S>) -> (r: A2<S>)
        ensures
            r == A2(v.2.acos_spec(), Self::azimuth_spec(v)),
    {
        let p = S::atan2(v.1, v.0);
        let p = if p.lt(S::zero()) {
            p.add(two_pi())
        } else {
            p
        };
        A2(v.2.acos(), p)
    }

    /// The direction `(sin θ cos φ, sin θ sin φ, cos θ)` of the angles
    /// `(θ, φ)`.
    pub fn spher2cart<S: Float>(a: A2<S>) -> (r: A3<S>)
        ensures
            r == A3(
                a.0.sin_spec().mul_spec(a.1.cos_spec()),
                a.0.sin_spec().mul_spec(a.1.sin_spec()),
                a.0.cos_spec(),
            ),
    {
        let st = a.0.sin();
        A3(st.mul(a.1.cos()), st.mul(a.1.sin()), a.0.cos())
    }
}

} // verus!
