//! Fixed-size component tuples and the component-wise arithmetic on them.

use vstd::prelude::*;
use crate::dim::Dim;
use crate::num::{Num, One, Zero};

verus! {

/// A pair of components.
#[derive(Clone, Copy, Debug, PartialEq)]
pub struct A2<S>(pub S, pub S);

/// A triple of components, indexed by [`Dim`].
#[derive(Clone, Copy, Debug, PartialEq)]
pub struct A3<S>(pub S, pub S, pub S);

/// `a.0 * b.0 + a.1 * b.1`.
pub open spec fn dot2<S: Num>(a: A2<S>, b: A2<S>) -> S {
    a.0.mul_spec(b.0).add_spec(a.1.mul_spec(b.1))
}

/// `(a.0 * b.0 + a.1 * b.1) + a.2 * b.2`.
pub open spec fn dot3<S: Num>(a: A3<S>, b: A3<S>) -> S {
    a.0.mul_spec(b.0).add_spec(a.1.mul_spec(b.1)).add_spec(a.2.mul_spec(b.2))
}

/// Component-wise sum.
pub open spec fn add3<S: Num>(a: A3<S>, b: A3<S>) -> A3<S> {
    A3(a.0.add_spec(b.0), a.1.add_spec(b.1), a.2.add_spec(b.2))
}

/// Component-wise difference.
pub open spec fn sub3<S: Num>(a: A3<S>, b: A3<S>) -> A3<S> {
    A3(a.0.sub_spec(b.0), a.1.sub_spec(b.1), a.2.sub_spec(b.2))
}

/// Component-wise negation.
pub open spec fn neg3<S: Num>(a: A3<S>) -> A3<S> {
    A3(a.0.neg_spec(), a.1.neg_spec(), a.2.neg_spec())
}

/// Each component times the scalar `k`.
pub open spec fn scale3<S: Num>(a: A3<S>, k: S) -> A3<S> {
    A3(a.0.mul_spec(k), a.1.mul_spec(k), a.2.mul_spec(k))
}

/// Component-wise product.
pub open spec fn mul3<S: Num>(a: A3<S>, b: A3<S>) -> A3<S> {
    A3(a.0.mul_spec(b.0), a.1.mul_spec(b.1), a.2.mul_spec(b.2))
}

impl<S: Copy> A2<S> {
    /// Both components equal to `a`.
    pub fn rep(a: S) -> (r: A2<S>)
        ensures
            r == A2(a, a),
    {
        A2(a, a)
    }

    /// The components swapped.
    pub fn flip(self) -> (r: A2<S>)
        ensures
            r == A2(self.1, self.0),
    {
        A2(self.1, self.0)
    }
}

impl<S: Num> A2<S> {
    pub fn dot(a: A2<S>, b: A2<S>) -> (r: S)
        ensures
            r == dot2(a, b),
    {
        a.0.mul(b.0).add(a.1.mul(b.1))
    }

    pub fn sum(self) -> (r: S)
        ensures
            r == self.0.add_spec(self.1),
    {
        self.0.add(self.1)
    }
}

impl<S: Copy> A3<S> {
    /// The component along axis `d`.
    pub open spec fn at(self, d: Dim) -> S {
        match d {
            Dim::X => self.0,
            Dim::Y => self.1,
            Dim::Z => self.2,
        }
    }

    pub fn get(self, d: Dim) -> (r: S)
        ensures
            r == self.at(d),
    {
        match d {
            Dim::X => self.0,
            Dim::Y => self.1,
            Dim::Z => self.2,
        }
    }

    /// All three components equal to `a`.
    pub fn rep(a: S) -> (r: A3<S>)
        ensures
            r == A3(a, a, a),
    {
        A3(a, a, a)
    }

    /// A pair extended by a third component.
    pub fn a2a(a2: A2<S>, a: S) -> (r: A3<S>)
        ensures
            r == A3(a2.0, a2.1, a),
    {
        A3(a2.0, a2.1, a)
    }
}

impl<S: Num> A3<S> {
    /// The unit vector along axis `d`.
    pub open spec fn basis_spec(d: Dim) -> A3<S> {
        let (o, z) = (S::one_spec(), S::zero_spec());
        match d {
            Dim::X => A3(o, z, z),
            Dim::Y => A3(z, o, z),
            Dim::Z => A3(z, z, o),
        }
    }

    pub fn basis(d: Dim) -> (r: A3<S>)
        ensures
            r == Self::basis_spec(d),
    {
        let o = S::one();
        let z = S::zero();
        match d {
            Dim::X => A3(o, z, z),
            Dim::Y => A3(z, o, z),
            Dim::Z => A3(z, z, o),
        }
    }

    pub fn dot(a: A3<S>, b: A3<S>) -> (r: S)
        ensures
            r == dot3(a, b),
    {
        a.0.mul(b.0).add(a.1.mul(b.1)).add(a.2.mul(b.2))
    }

    pub fn add(self, b: A3<S>) -> (r: A3<S>)
        ensures
            r == add3(self, b),
    {
        A3(self.0.add(b.0), self.1.add(b.1), self.2.add(b.2))
    }

    pub fn sub(self, b: A3<S>) -> (r: A3<S>)
        ensures
            r == sub3(self, b),
    {
        A3(self.0.sub(b.0), self.1.sub(b.1), self.2.sub(b.2))
    }

    pub fn neg(self) -> (r: A3<S>)
        ensures
            r == neg3(self),
    {
        A3(self.0.neg(), self.1.neg(), self.2.neg())
    }

    pub fn scale(self, k: S) -> (r: A3<S>)
        ensures
            r == scale3(self, k),
    {
        A3(self.0.mul(k), self.1.mul(k), self.2.mul(k))
    }

    pub fn mul(self, b: A3<S>) -> (r: A3<S>)
        ensures
            r == mul3(self, b),
    {
        A3(self.0.mul(b.0), self.1.mul(b.1), self.2.mul(b.2))
    }
}

} // verus!
