//! Warps from the unit square to sampling domains, each with the density of
//! the samples it produces (per unit area, or per unit solid angle for
//! directions).

use vstd::prelude::*;
use crate::array::{dot2, A2, A3};
use crate::frame::{two_pi, two_pi_spec, Frame};
use crate::num::{sq, sq_spec, Float, Num};
use crate::rotscale3::{abs, abs_spec};

verus! {

/// Uniform samples of the right triangle `b0, b1 >= 0`, `b0 + b1 <= 1`.
#[derive(Clone, Copy, Debug, PartialEq, Eq, Structural)]
pub struct UniformTriangle;

/// Uniform samples of the unit disk (concentric mapping).
#[derive(Clone, Copy, Debug, PartialEq, Eq, Structural)]
pub struct UniformDisk;

/// Cosine-weighted directions of the upper hemisphere.
#[derive(Clone, Copy, Debug, PartialEq, Eq, Structural)]
pub struct CosineHemisphere;

/// Uniform samples of the unit cylinder `z ∈ [-1, 1]`.
#[derive(Clone, Copy, Debug, PartialEq, Eq, Structural)]
pub struct UniformCylinder;

/// Uniform directions of the whole sphere.
#[derive(Clone, Copy, Debug, PartialEq, Eq, Structural)]
pub struct UniformSphere;

/// Uniform directions of the upper hemisphere.
#[derive(Clone, Copy, Debug, PartialEq, Eq, Structural)]
pub struct UniformHemisphere;

/// Microfacet normals distributed by the Beckmann distribution.
#[derive(Clone, Copy, Debug, PartialEq, Eq, Structural)]
pub struct BeckmannHemisphere;

/// `1 / π`.
pub open spec fn inv_pi_spec<S: Float>() -> S {
    S::pi_spec().inv_spec()
}

/// `1 / 2π`, as half of `1 / π`.
pub open spec fn inv_2pi_spec<S: Float>() -> S {
    S::half_spec().mul_spec(inv_pi_spec::<S>())
}

/// `1 / 4π`, as half of `1 / 2π`.
pub open spec fn inv_4pi_spec<S: Float>() -> S {
    S::half_spec().mul_spec(inv_2pi_spec::<S>())
}

fn inv_pi<S: Float>() -> (r: S)
    ensures
        r == inv_pi_spec::<S>(),
{
    S::pi().inv()
}

fn inv_2pi<S: Float>() -> (r: S)
    ensures
        r == inv_2pi_spec::<S>(),
{
    S::half().mul(inv_pi())
}

fn inv_4pi<S: Float>() -> (r: S)
    ensures
        r == inv_4pi_spec::<S>(),
{
    S::half().mul(inv_2pi())
}

impl UniformTriangle {
    /// Both coordinates halved; then the half that lies above the diagonal
    /// `b1 = b0` is folded back below the line `b0 + b1 = 1`.
    pub open spec fn warp_spec<S: Float>(s: A2<S>) -> A2<S> {
        let h = S::half_spec();
        let t = A2(s.0.mul_spec(h), s.1.mul_spec(h));
        let o = t.1.sub_spec(t.0);
        if S::zero_spec().lt_spec(o) {
            A2(t.0, t.1.add_spec(o))
        } else {
            A2(t.0.sub_spec(o), t.1)
        }
    }

    pub fn warp<S: Float>(s: A2<S>) -> (r: A2<S>)
        ensures
            r == Self::warp_spec(s),
    {
        let h = S::half();
        let t = A2(s.0.mul(h), s.1.mul(h));
        let o = t.1.sub(t.0);
        if S::zero().lt(o) {
            A2(t.0, t.1.add(o))
        } else {
            A2(t.0.sub(o), t.1)
        }
    }

    /// The density 2, the inverse of the triangle's area.
    pub fn pdf<S: Float>() -> (r: S)
        ensures
            r == S::two_spec(),
    {
        S::two()
    }
}

/// Whether `a` compares equal to zero.
pub open spec fn is_zero_spec<S: Num>(a: S) -> bool {
    a.le_spec(S::zero_spec()) && S::zero_spec().le_spec(a)
}

fn is_zero<S: Num>(a: S) -> (r: bool)
    ensures
        r == is_zero_spec(a),
{
    a.le(S::zero()) && S::zero().le(a)
}

impl UniformDisk {
    /// The sample moved to `u = 2s - 1 ∈ [-1, 1]²`.
    pub open spec fn centered_spec<S: Float>(s: A2<S>) -> A2<S> {
        let (two, one) = (S::two_spec(), S::one_spec());
        A2(s.0.mul_spec(two).sub_spec(one), s.1.mul_spec(two).sub_spec(one))
    }

    /// The concentric map: the origin stays; otherwise the dominant axis of
    /// `u` gives the radius `r` and the other the angle
    /// `θ = π/4 · u.y / u.x` or `θ = π/2 - π/4 · u.x / u.y`, and the result
    /// is `(r cos θ, r sin θ)`.
    pub open spec fn warp_spec<S: Float>(s: A2<S>) -> A2<S> {
        let u = Self::centered_spec(s);
        let h = S::half_spec();
        let half_pi = S::pi_spec().mul_spec(h);
        let fourth_pi = half_pi.mul_spec(h);
        if is_zero_spec(u.0) && is_zero_spec(u.1) {
            A2(S::zero_spec(), S::zero_spec())
        } else {
            let (r, t) = if abs_spec(u.1).lt_spec(abs_spec(u.0)) {
                (u.0, fourth_pi.mul_spec(u.1).div_spec(u.0))
            } else {
                (u.1, half_pi.sub_spec(fourth_pi.mul_spec(u.0).div_spec(u.1)))
            };
            A2(t.cos_spec().mul_spec(r), t.sin_spec().mul_spec(r))
        }
    }

    pub fn warp<S: Float>(s: A2<S>) -> (r: A2<S>)
        ensures
            r == Self::warp_spec(s),
    {
        let two = S::two();
        let one = S::one();
        let u = A2(s.0.mul(two).sub(one), s.1.mul(two).sub(one));
        let h = S::half();
        let half_pi = S::pi().mul(h);
        let fourth_pi = half_pi.mul(h);
        if is_zero(u.0) && is_zero(u.1) {
            A2(S::zero(), S::zero())
        } else {
            let (r, t) = if abs(u.1).lt(abs(u.0)) {
                (u.0, fourth_pi.mul(u.1).div(u.0))
            } else {
                (u.1, half_pi.sub(fourth_pi.mul(u.0).div(u.1)))
            };
            A2(t.cos().mul(r), t.sin().mul(r))
        }
    }

    /// The density `1 / π`, the inverse of the disk's area.
    pub fn pdf<S: Float>() -> (r: S)
        ensures
            r == inv_pi_spec::<S>(),
    {
        inv_pi()
    }
}

impl CosineHemisphere {
    /// The disk sample `p` lifted to the hemisphere: `(p, sqrt(1 - p · p))`.
    pub open spec fn warp_spec<S: Float>(s: A2<S>) -> A3<S> {
        let p = UniformDisk::warp_spec(s);
        A3(p.0, p.1, S::one_spec().sub_spec(dot2(p, p)).sqrt_spec())
    }

    pub fn warp<S: Float>(s: A2<S>) -> (r: A3<S>)
        ensures
            r == Self::warp_spec(s),
    {
        let p = UniformDisk::warp(s);
        A3::a2a(p, S::one().sub(A2::dot(p, p)).sqrt())
    }

    /// The density `cos θ / π` of the direction `v`.
    pub fn pdf<S: Float>(v: A3<S>) -> (r: S)
        ensures
            r == Frame::ct_spec(v).mul_spec(inv_pi_spec::<S>()),
    {
        Frame::ct(v).mul(inv_pi())
    }
}

impl UniformCylinder {
    /// `(cos θ, sin θ, 2 s.0 - 1)` with `θ = 2π s.1`.
    pub open spec fn warp_spec<S: Float>(s: A2<S>) -> A3<S> {
        let t = two_pi_spec::<S>().mul_spec(s.1);
        A3(t.cos_spec(), t.sin_spec(), S::two_spec().mul_spec(s.0).sub_spec(S::one_spec()))
    }

    pub fn warp<S: Float>(s: A2<S>) -> (r: A3<S>)
        ensures
            r == Self::warp_spec(s),
    {
        let t = two_pi::<S>().mul(s.1);
        A3(t.cos(), t.sin(), S::two().mul(s.0).sub(S::one()))
    }

    /// The density `1 / 4π`.
    pub fn pdf<S: Float>() -> (r: S)
        ensures
            r == inv_4pi_spec::<S>(),
    {
        inv_4pi()
    }
}

impl UniformSphere {
    /// The cylinder sample `v` with `x` and `y` scaled by `sin θ` of its
    /// height `v.z = cos θ`.
    pub open spec fn warp_spec<S: Float>(s: A2<S>) -> A3<S> {
        let v = UniformCylinder::warp_spec(s);
        let r = Frame::st_spec(v);
        A3(r.mul_spec(v.0), r.mul_spec(v.1), v.2)
    }

    pub fn warp<S: Float>(s: A2<S>) -> (r: A3<S>)
        ensures
            r == Self::warp_spec(s),
    {
        let v = UniformCylinder::warp(s);
        let r = Frame::st(v);
        A3(r.mul(v.0), r.mul(v.1), v.2)
    }

    /// The density `1 / 4π`.
    pub fn pdf<S: Float>() -> (r: S)
        ensures
            r == inv_4pi_spec::<S>(),
    {
        inv_4pi()
    }
}

impl UniformHemisphere {
    /// The sphere sample with its height made non-negative.
    pub open spec fn warp_spec<S: Float>(s: A2<S>) -> A3<S> {
        let v = UniformSphere::warp_spec(s);
        A3(v.0, v.1, abs_spec(v.2))
    }

    pub fn warp<S: Float>(s: A2<S>) -> (r: A3<S>)
        ensures
            r == Self::warp_spec(s),
    {
        let v = UniformSphere::warp(s);
        A3(v.0, v.1, abs(v.2))
    }

    /// The density `1 / 2π`.
    pub fn pdf<S: Float>() -> (r: S)
        ensures
            r == inv_2pi_spec::<S>(),
    {
        inv_2pi()
    }
}

impl BeckmannHemisphere {
    /// `cos² θ = 1 / (1 - α² ln(1 - s.0))` and `φ = 2π s.1`, giving
    /// `(sin θ cos φ, sin θ sin φ, cos θ)` with `sin θ = sqrt(1 - cos² θ)`.
    pub open spec fn warp_spec<S: Float>(s: A2<S>, alpha: S) -> A3<S> {
        let one = S::one_spec();
        let c2t = one.sub_spec(sq_spec(alpha).mul_spec(one.sub_spec(s.0).ln_spec())).inv_spec();
        let phi = two_pi_spec::<S>().mul_spec(s.1);
        let r = one.sub_spec(c2t).sqrt_spec();
        A3(r.mul_spec(phi.cos_spec()), r.mul_spec(phi.sin_spec()), c2t.sqrt_spec())
    }

    pub fn warp<S: Float>(s: A2<S>, alpha: S) -> (r: A3<S>)
        ensures
            r == Self::warp_spec(s, alpha),
    {
        let one = S::one();
        let c2t = one.sub(sq(alpha).mul(one.sub(s.0).ln())).inv();
        let phi = two_pi::<S>().mul(s.1);
        let r = one.sub(c2t).sqrt();
        A3(r.mul(phi.cos()), r.mul(phi.sin()), c2t.sqrt())
    }

    /// The density `exp(-tan² θ / α²) / (π α² cos³ θ)`, with `tan² θ`
    /// written as `1 / cos² θ - 1`.
    pub open spec fn pdf_spec<S: Float>(v: A3<S>, alpha: S) -> S {
        let a2_inv = sq_spec(alpha).inv_spec();
        let ct = Frame::ct_spec(v);
        let e = a2_inv.neg_spec().mul_spec(sq_spec(ct).inv_spec().sub_spec(S::one_spec())).exp_spec();
        inv_pi_spec::<S>().mul_spec(a2_inv).mul_spec(e).div_spec(ct.mul_spec(sq_spec(ct)))
    }

    pub fn pdf<S: Float>(v: A3<S>, alpha: S) -> (r: S)
        ensures
            r == Self::pdf_spec(v, alpha),
    {
        let a2_inv = sq(alpha).inv();
        let ct = Frame::ct(v);
        let e = a2_inv.neg().mul(sq(ct).inv().sub(S::one())).exp();
        inv_pi::<S>().mul(a2_inv).mul(e).div(ct.mul(sq(ct)))
    }
}

} // verus!
