//! Axis-aligned maps of the plane: a per-axis scale followed by a shift,
//! as used to normalise 2-D coordinates.

use vstd::prelude::*;
use crate::array::A2;
use crate::num::Num;

verus! {

/// The map `v ↦ s v + t`, component by component.
#[derive(Clone, Copy, Debug, PartialEq)]
pub struct Norm2<S> {
    pub s: A2<S>,
    pub t: A2<S>,
}

/// `s v + t` per component.
pub open spec fn norm2_apply<S: Num>(s: A2<S>, t: A2<S>, v: A2<S>) -> A2<S> {
    A2(s.0.mul_spec(v.0).add_spec(t.0), s.1.mul_spec(v.1).add_spec(t.1))
}

impl<S: Num> Norm2<S> {
    /// The identity: unit scale, no shift.
    pub open spec fn one_spec() -> Norm2<S> {
        Norm2 { s: A2(S::one_spec(), S::one_spec()), t: A2(S::zero_spec(), S::zero_spec()) }
    }

    pub fn one() -> (r: Norm2<S>)
        ensures
            r == Self::one_spec(),
    {
        Norm2 { s: A2(S::one(), S::one()), t: A2(S::zero(), S::zero()) }
    }

    pub fn new(s: A2<S>, t: A2<S>) -> (r: Norm2<S>)
        ensures
            r == (Norm2 { s, t }),
    {
        Norm2 { s, t }
    }

    /// The shift by `t`.
    pub fn translate(t: A2<S>) -> (r: Norm2<S>)
        ensures
            r == (Norm2 { s: A2(S::one_spec(), S::one_spec()), t }),
    {
        Norm2 { s: A2(S::one(), S::one()), t }
    }

    /// The scaling by `s`.
    pub fn scale(s: A2<S>) -> (r: Norm2<S>)
        ensures
            r == (Norm2 { s, t: A2(S::zero_spec(), S::zero_spec()) }),
    {
        Norm2 { s, t: A2(S::zero(), S::zero()) }
    }

    /// The composition `v ↦ self(o(v))`: scales multiply, and the shift is
    /// `self(o.t)`.
    pub fn mul(&self, o: &Norm2<S>) -> (r: Norm2<S>)
        ensures
            r == (Norm2 {
                s: A2(self.s.0.mul_spec(o.s.0), self.s.1.mul_spec(o.s.1)),
                t: norm2_apply(self.s, self.t, o.t),
            }),
    {
        Norm2 {
            s: A2(self.s.0.mul(o.s.0), self.s.1.mul(o.s.1)),
            t: A2(self.s.0.mul(o.t.0).add(self.t.0), self.s.1.mul(o.t.1).add(self.t.1)),
        }
    }

    /// The image of `v`.
    pub fn apply(&self, v: A2<S>) -> (r: A2<S>)
        ensures
            r == norm2_apply(self.s, self.t, v),
    {
        A2(self.s.0.mul(v.0).add(self.t.0), self.s.1.mul(v.1).add(self.t.1))
    }
}

} // verus!
