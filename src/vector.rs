//! Vectors, points and normals: three thin wrappers over a 3-tuple that
//! differ in which operations they are closed under and in how transforms
//! act on them.

use vstd::prelude::*;
use crate::array::{add3, dot3, neg3, scale3, sub3, A3};
use crate::num::{Float, Num};

verus! {

/// A free direction or displacement.
#[derive(Clone, Copy, Debug, PartialEq)]
pub struct V<S>(pub A3<S>);

/// A position in space.
#[derive(Clone, Copy, Debug, PartialEq)]
pub struct P<S>(pub A3<S>);

/// A surface normal: a co-vector, kept at unit length by its constructor.
#[derive(Clone, Copy, Debug, PartialEq)]
pub struct N<S>(pub A3<S>);

/// The cross product `a × b`.
pub open spec fn cross3<S: Num>(a: A3<S>, b: A3<S>) -> A3<S> {
    A3(
        a.1.mul_spec(b.2).sub_spec(a.2.mul_spec(b.1)),
        a.2.mul_spec(b.0).sub_spec(a.0.mul_spec(b.2)),
        a.0.mul_spec(b.1).sub_spec(a.1.mul_spec(b.0)),
    )
}

/// Each component divided by the scalar `k`.
pub open spec fn div3<S: Float>(a: A3<S>, k: S) -> A3<S> {
    A3(a.0.div_spec(k), a.1.div_spec(k), a.2.div_spec(k))
}

/// The Euclidean length `sqrt(a · a)`.
pub open spec fn norm3<S: Float>(a: A3<S>) -> S {
    dot3(a, a).sqrt_spec()
}

/// `a` divided by its length.
pub open spec fn unit3<S: Float>(a: A3<S>) -> A3<S> {
    div3(a, norm3(a))
}

/// Each component replaced by its reciprocal.
pub open spec fn inv3<S: Float>(a: A3<S>) -> A3<S> {
    A3(a.0.inv_spec(), a.1.inv_spec(), a.2.inv_spec())
}

/// Computes `a × b`.
pub fn cross<S: Num>(a: A3<S>, b: A3<S>) -> (r: A3<S>)
    ensures
        r == cross3(a, b),
{
    A3(
        a.1.mul(b.2).sub(a.2.mul(b.1)),
        a.2.mul(b.0).sub(a.0.mul(b.2)),
        a.0.mul(b.1).sub(a.1.mul(b.0)),
    )
}

/// Divides each component by `k`.
pub fn div<S: Float>(a: A3<S>, k: S) -> (r: A3<S>)
    ensures
        r == div3(a, k),
{
    A3(a.0.div(k), a.1.div(k), a.2.div(k))
}

/// Scales `a` to unit length.
pub fn unit<S: Float>(a: A3<S>) -> (r: A3<S>)
    ensures
        r == unit3(a),
{
    div(a, A3::dot(a, a).sqrt())
}

/// The component-wise reciprocal of `a`.
pub fn inv<S: Float>(a: A3<S>) -> (r: A3<S>)
    ensures
        r == inv3(a),
{
    A3(a.0.inv(), a.1.inv(), a.2.inv())
}

impl<S: Num> V<S> {
    /// The squared length `v · v`.
    pub fn norm2(self) -> (r: S)
        ensures
            r == dot3(self.0, self.0),
    {
        A3::dot(self.0, self.0)
    }

    pub fn add(self, o: V<S>) -> (r: V<S>)
        ensures
            r == V(add3(self.0, o.0)),
    {
        V(self.0.add(o.0))
    }

    pub fn sub(self, o: V<S>) -> (r: V<S>)
        ensures
            r == V(sub3(self.0, o.0)),
    {
        V(self.0.sub(o.0))
    }

    pub fn neg(self) -> (r: V<S>)
        ensures
            r == V(neg3(self.0)),
    {
        V(self.0.neg())
    }

    pub fn scale(self, k: S) -> (r: V<S>)
        ensures
            r == V(scale3(self.0, k)),
    {
        V(self.0.scale(k))
    }

    /// The cross product `self × o`.
    pub fn cross(self, o: V<S>) -> (r: V<S>)
        ensures
            r == V(cross3(self.0, o.0)),
    {
        V(cross(self.0, o.0))
    }
}

impl<S: Float> V<S> {
    /// The length `sqrt(v · v)`.
    pub fn norm(self) -> (r: S)
        ensures
            r == norm3(self.0),
    {
        A3::dot(self.0, self.0).sqrt()
    }

    /// The vector divided by its length.
    pub fn unit(self) -> (r: V<S>)
        ensures
            r == V(unit3(self.0)),
    {
        V(unit(self.0))
    }
}

impl<S: Num> P<S> {
    /// The displacement from `o` to `self`: a vector, never a point.
    pub fn sub(self, o: P<S>) -> (r: V<S>)
        ensures
            r == V(sub3(self.0, o.0)),
    {
        V(self.0.sub(o.0))
    }

    /// The point displaced by `v`.
    pub fn add(self, v: V<S>) -> (r: P<S>)
        ensures
            r == P(add3(self.0, v.0)),
    {
        P(self.0.add(v.0))
    }
}

impl<S: Float> N<S> {
    /// The normal along `v`, scaled to unit length.
    pub fn from_v(v: V<S>) -> (r: N<S>)
        ensures
            r == N(unit3(v.0)),
    {
        N(unit(v.0))
    }

    pub fn neg(self) -> (r: N<S>)
        ensures
            r == N(neg3(self.0)),
    {
        N(self.0.neg())
    }
}

} // verus!
