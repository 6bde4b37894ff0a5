//! Affine maps of 3-space: a linear part and an optional translation, where
//! a missing translation is never materialised as a zero vector.

use vstd::prelude::*;
use crate::array::{add3, sub3, A3};
use crate::num::{Float, Num};
use crate::rotscale3::RotScale3;
use crate::vector::{P, V};

verus! {

/// The map `x ↦ r · x + t`, with `None` for a zero translation.
#[derive(Clone, Copy, Debug, PartialEq)]
pub struct Affine3<S> {
    pub r: RotScale3<S>,
    pub t: Option<A3<S>>,
}

impl<S: Copy> Affine3<S> {
    pub fn new(r: RotScale3<S>, t: Option<A3<S>>) -> (a: Affine3<S>)
        ensures
            a == (Affine3 { r, t }),
    {
        Affine3 { r, t }
    }

    /// The identity map.
    pub open spec fn one_spec() -> Affine3<S> {
        Affine3 { r: RotScale3::Identity, t: None }
    }

    pub fn one() -> (a: Affine3<S>)
        ensures
            a == Self::one_spec(),
    {
        Affine3 { r: RotScale3::Identity, t: None }
    }

    /// The translation by `t`.
    pub fn translate(t: A3<S>) -> (a: Affine3<S>)
        ensures
            a == (Affine3 { r: RotScale3::Identity, t: Some(t) }),
    {
        Affine3 { r: RotScale3::Identity, t: Some(t) }
    }

    /// The linear part alone.
    pub open spec fn rot_spec(self) -> Affine3<S> {
        Affine3 { r: self.r, t: None }
    }

    /// The transposed linear part alone.
    pub open spec fn t_spec(self) -> Affine3<S> {
        Affine3 { r: self.r.t_spec(), t: None }
    }

    pub fn rot(&self) -> (a: Affine3<S>)
        ensures
            a == self.rot_spec(),
    {
        Affine3 { r: self.r, t: None }
    }

    pub fn t(&self) -> (a: Affine3<S>)
        ensures
            a == self.t_spec(),
    {
        Affine3 { r: self.r.t(), t: None }
    }
}

impl<S: Num> Affine3<S> {
    /// The image of `x`: the linear part applied, then the translation
    /// added when there is one.
    pub open spec fn apply_spec(self, x: A3<S>) -> A3<S> {
        match self.t {
            None => self.r.apply_spec(x),
            Some(t) => add3(self.r.apply_spec(x), t),
        }
    }

    /// The composition `x ↦ self(o(x))`: linear parts multiply, and the
    /// translation is `self(o.t)`, or `self.t` unchanged when `o` has none.
    pub open spec fn mul_spec(self, o: Affine3<S>) -> Affine3<S> {
        Affine3 {
            r: self.r.mul_spec(o.r),
            t: match o.t {
                None => self.t,
                Some(ot) => Some(self.apply_spec(ot)),
            },
        }
    }

    /// The identity map is a two-sided unit of composition: no linear part
    /// or translation is recomputed on either side.
    pub proof fn lemma_one_mul(a: Affine3<S>)
        ensures
            Affine3::<S>::one_spec().mul_spec(a) == a,
            a.mul_spec(Affine3::<S>::one_spec()) == a,
    {
        RotScale3::lemma_one_mul(a.r);
    }

    /// The scaling by `s` along the three axes.
    pub fn scale(s: A3<S>) -> (a: Affine3<S>)
        ensures
            a == (Affine3 { r: RotScale3::scale_spec(s), t: None }),
    {
        Affine3 { r: RotScale3::scale(s), t: None }
    }

    pub fn apply(&self, x: A3<S>) -> (y: A3<S>)
        ensures
            y == self.apply_spec(x),
    {
        let y = self.r.apply(x);
        match self.t {
            None => y,
            Some(t) => y.add(t),
        }
    }

    pub fn mul(&self, o: &Affine3<S>) -> (a: Affine3<S>)
        ensures
            a == self.mul_spec(*o),
    {
        let r = self.r.mul(&o.r);
        let t = match o.t {
            None => self.t,
            Some(ot) => Some(self.apply(ot)),
        };
        Affine3 { r, t }
    }
}

impl<S: Float> Affine3<S> {
    /// The rotation by `angle` degrees about `axis`.
    pub fn rotate(axis: A3<S>, angle: S) -> (a: Affine3<S>)
        ensures
            a == (Affine3 { r: RotScale3::rotate_spec(axis, angle), t: None }),
    {
        Affine3 { r: RotScale3::rotate(axis, angle), t: None }
    }

    /// The camera at `pos` looking at `target`: the look-at basis for the
    /// direction `target - pos`, translated by `pos`.
    pub fn look_at(pos: P<S>, target: P<S>, up: V<S>) -> (a: Affine3<S>)
        ensures
            a == (Affine3 { r: RotScale3::look_at_spec(sub3(target.0, pos.0), up.0), t: Some(pos.0) }),
    {
        Affine3 { r: RotScale3::look_at(target.sub(pos).0, up.0), t: Some(pos.0) }
    }

    /// The frame around the normal `v`.
    pub fn from_frame(v: A3<S>) -> (a: Affine3<S>)
        ensures
            a == (Affine3 { r: RotScale3::from_frame_spec(v), t: None }),
    {
        Affine3 { r: RotScale3::from_frame(v), t: None }
    }
}

} // verus!
