//! Rays: an origin, a direction and a parametric extent.

use vstd::prelude::*;
use crate::array::{add3, scale3, sub3, A2};
use crate::bound::B;
use crate::num::{Float, Num};
use crate::transform::T;
use crate::vector::{norm3, unit3, P, V};

verus! {

/// The segment `o + d s` for `s` up to `t`.
#[derive(Clone, Copy, Debug, PartialEq)]
pub struct R<S> {
    pub o: P<S>,
    pub d: V<S>,
    pub t: S,
}

impl<S: Num> R<S> {
    pub fn r(o: P<S>, d: V<S>, t: S) -> (r: R<S>)
        ensures
            r == (R { o, d, t }),
    {
        R { o, d, t }
    }

    /// The point at parameter `s`: `o + d s`.
    pub fn at(&self, s: S) -> (p: P<S>)
        ensures
            p == P(add3(self.o.0, scale3(self.d.0, s))),
    {
        self.o.add(self.d.scale(s))
    }

    /// The same ray with its extent set to `t`.
    pub fn clipped(self, t: S) -> (r: R<S>)
        ensures
            r == (R { o: self.o, d: self.d, t }),
    {
        R { o: self.o, d: self.d, t }
    }

    /// The ray moved by the forward half of `tr`: the origin as a point,
    /// the direction as a vector; the extent is kept.
    pub fn transformed(self, tr: &T<S>) -> (r: R<S>)
        ensures
            r == (R {
                o: P(tr.fwd().apply_spec(self.o.0)),
                d: V(tr.fwd().r.apply_spec(self.d.0)),
                t: self.t,
            }),
    {
        R { o: tr.apply_p(self.o), d: tr.apply_v(self.d), t: self.t }
    }

    /// The ray moved by the inverse half of `tr`.
    pub fn inverse_transformed(self, tr: &T<S>) -> (r: R<S>)
        ensures
            r == (R {
                o: P(tr.bwd().apply_spec(self.o.0)),
                d: V(tr.bwd().r.apply_spec(self.d.0)),
                t: self.t,
            }),
    {
        R { o: tr.inverse_apply_p(self.o), d: tr.inverse_apply_v(self.d), t: self.t }
    }
}

impl<S: Float> R<S> {
    /// The ray from `o` along the unit direction of `d`, without end.
    pub fn unbounded(o: P<S>, d: V<S>) -> (r: R<S>)
        ensures
            r == (R { o, d: V(unit3(d.0)), t: S::pos_inf_spec() }),
    {
        R { o, d: d.unit(), t: S::pos_inf() }
    }

    /// The ray from `o` along the unit direction of `d`, ending after the
    /// length of `d`.
    pub fn unit(o: P<S>, d: V<S>) -> (r: R<S>)
        ensures
            r == (R { o, d: V(unit3(d.0)), t: norm3(d.0) }),
    {
        R { o, d: d.unit(), t: d.norm() }
    }

    /// The ray from `a` to `b`.
    pub fn p2(a: P<S>, b: P<S>) -> (r: R<S>)
        ensures
            r == (R { o: a, d: V(unit3(sub3(b.0, a.0))), t: norm3(sub3(b.0, a.0)) }),
    {
        R::unit(a, b.sub(a))
    }

    /// The parameters worth testing: `[eps, t - eps]`, clear of both ends.
    pub fn range(&self) -> (r: B<S>)
        ensures
            r == B(A2(S::eps_spec(), self.t.sub_spec(S::eps_spec()))),
    {
        B::b(S::eps(), self.t.sub(S::eps()))
    }
}

} // verus!
