//! Transforms carried together with their inverse.
//!
//! Every constructor builds both halves at once and the fields are private,
//! so the forward map and its inverse cannot be separated or edited apart.

use vstd::prelude::*;
use crate::affine3;
use crate::array::{neg3, sub3, A3};
use crate::bound::{box_apply, BBox};
use crate::num::{Float, Num};
use crate::rotscale3::RotScale3;
use crate::vector::{inv, inv3, unit, unit3, N, P, V};

verus! {

/// The transform of the library: a map and its inverse.
pub type T<S> = Affine3<S>;

/// A forward affine map `f` and its inverse `i`: the transform of the
/// library, also known by the short name [`T`].
#[derive(Clone, Copy, Debug, PartialEq)]
pub struct Affine3<S> {
    f: affine3::Affine3<S>,
    i: affine3::Affine3<S>,
}

impl<S: Copy> Affine3<S> {
    /// The forward map.
    pub closed spec fn fwd(self) -> affine3::Affine3<S> {
        self.f
    }

    /// The inverse map.
    pub closed spec fn bwd(self) -> affine3::Affine3<S> {
        self.i
    }

    /// The identity, paired with itself.
    pub open spec fn one_spec() -> Affine3<S> {
        Affine3::pair(affine3::Affine3::one_spec(), affine3::Affine3::one_spec())
    }

    /// The transform with forward half `f` and inverse half `i`.
    pub closed spec fn pair(f: affine3::Affine3<S>, i: affine3::Affine3<S>) -> Affine3<S> {
        Affine3 { f, i }
    }

    pub proof fn lemma_pair(f: affine3::Affine3<S>, i: affine3::Affine3<S>)
        ensures
            #[trigger] Affine3::pair(f, i).fwd() == f,
            Affine3::pair(f, i).bwd() == i,
    {
    }

    pub fn one() -> (r: Affine3<S>)
        ensures
            r == Self::one_spec(),
    {
        Affine3 { f: affine3::Affine3::one(), i: affine3::Affine3::one() }
    }

    /// Inverting twice gives the transform back.
    pub proof fn lemma_inv_inv(x: Affine3<S>)
        ensures
            x.inv_spec().inv_spec() == x,
    {
    }

    /// The inverse transform: the two halves swapped, with no arithmetic.
    pub open spec fn inv_spec(self) -> Affine3<S> {
        Affine3::pair(self.bwd(), self.fwd())
    }

    pub fn inv(&self) -> (r: Affine3<S>)
        ensures
            r == self.inv_spec(),
    {
        Affine3 { f: self.i, i: self.f }
    }

    /// Both halves without their translations.
    pub open spec fn rot_spec(self) -> Affine3<S> {
        Affine3::pair(self.fwd().rot_spec(), self.bwd().rot_spec())
    }

    pub fn rot(&self) -> (r: Affine3<S>)
        ensures
            r == self.rot_spec(),
    {
        Affine3 { f: self.f.rot(), i: self.i.rot() }
    }

    /// Both halves reduced to their transposed linear parts.
    pub open spec fn t_spec(self) -> Affine3<S> {
        Affine3::pair(self.fwd().t_spec(), self.bwd().t_spec())
    }

    pub fn t(&self) -> (r: Affine3<S>)
        ensures
            r == self.t_spec(),
    {
        Affine3 { f: self.f.t(), i: self.i.t() }
    }
}

impl<S: Num> Affine3<S> {
    /// The composition `self ∘ s`: forward halves in order, inverse halves
    /// in reverse order, since `(AB)⁻¹ = B⁻¹A⁻¹`.
    pub open spec fn mul_spec(self, s: Affine3<S>) -> Affine3<S> {
        Affine3::pair(self.fwd().mul_spec(s.fwd()), s.bwd().mul_spec(self.bwd()))
    }

    /// The product of a sequence, folded from the right onto the identity:
    /// the first transform of `ts` is the one applied first to an operand.
    pub open spec fn product_spec(ts: Seq<Affine3<S>>) -> Affine3<S>
        decreases ts.len(),
    {
        if ts.len() == 0 {
            Affine3::one_spec()
        } else {
            Affine3::product_spec(ts.drop_first()).mul_spec(ts[0])
        }
    }

    /// The identity transform is a two-sided unit of composition.
    pub proof fn lemma_one_mul(x: Affine3<S>)
        ensures
            Affine3::<S>::one_spec().mul_spec(x) == x,
            x.mul_spec(Affine3::<S>::one_spec()) == x,
    {
        affine3::Affine3::lemma_one_mul(x.f);
        affine3::Affine3::lemma_one_mul(x.i);
    }

    /// The inverse of a composition is the composition of the inverses in
    /// reverse order: `(A ∘ B)⁻¹ = B⁻¹ ∘ A⁻¹`, half for half.
    pub proof fn lemma_inv_of_mul(a: Affine3<S>, b: Affine3<S>)
        ensures
            a.mul_spec(b).inv_spec() == b.inv_spec().mul_spec(a.inv_spec()),
    {
    }

    /// Applying the inverse of a composition `A ∘ B` to `v` applies the
    /// inverse half of `B` composed after that of `A`: `(B.i · A.i)(v)`.
    pub proof fn lemma_inverse_apply_of_mul(a: Affine3<S>, b: Affine3<S>, v: A3<S>)
        ensures
            a.mul_spec(b).bwd().apply_spec(v) == b.bwd().mul_spec(a.bwd()).apply_spec(v),
    {
    }

    pub open spec fn translate_spec(v: A3<S>) -> Affine3<S> {
        Affine3::pair(
            affine3::Affine3 { r: RotScale3::Identity, t: Some(v) },
            affine3::Affine3 { r: RotScale3::Identity, t: Some(neg3(v)) },
        )
    }

    /// The translation by `v`, with the translation by `-v` as its inverse.
    pub fn translate(v: A3<S>) -> (r: Affine3<S>)
        ensures
            r == Affine3::translate_spec(v),
    {
        Affine3 { f: affine3::Affine3::translate(v), i: affine3::Affine3::translate(v.neg()) }
    }

    pub fn mul(&self, s: &Affine3<S>) -> (r: Affine3<S>)
        ensures
            r == self.mul_spec(*s),
    {
        Affine3 { f: self.f.mul(&s.f), i: s.i.mul(&self.i) }
    }

    /// The composition of all of `ts`, `ts[0]` applied first.
    pub fn product(ts: &[Affine3<S>]) -> (r: Affine3<S>)
        ensures
            r == Affine3::product_spec(ts@),
    {
        let n = ts.len();
        let mut acc = Affine3::one();
        let mut k: usize = n;
        while k > 0
            invariant
                k <= n,
                n == ts@.len(),
                acc == Affine3::product_spec(ts@.subrange(k as int, n as int)),
            decreases k,
        {
            k = k - 1;
            proof {
                assert(ts@.subrange(k as int, n as int).drop_first() =~= ts@.subrange(
                    k + 1,
                    n as int,
                ));
            }
            acc = acc.mul(&ts[k]);
        }
        proof {
            assert(ts@.subrange(0, n as int) =~= ts@);
        }
        acc
    }

    /// The forward map applied to `x`, translation included.
    pub fn apply(&self, x: A3<S>) -> (y: A3<S>)
        ensures
            y == self.fwd().apply_spec(x),
    {
        self.f.apply(x)
    }

    /// The inverse map applied to `x`, translation included.
    pub fn inverse_apply(&self, x: A3<S>) -> (y: A3<S>)
        ensures
            y == self.bwd().apply_spec(x),
    {
        self.i.apply(x)
    }

    /// The box that bounds the image of `b` under the forward map.
    pub fn apply_box(&self, b: &BBox<S>) -> (r: BBox<S>)
        ensures
            r == BBox(box_apply(self.fwd(), b.0)),
    {
        b.apply_affine(&self.f)
    }

    /// The box that bounds the image of `b` under the inverse map.
    pub fn inverse_apply_box(&self, b: &BBox<S>) -> (r: BBox<S>)
        ensures
            r == BBox(box_apply(self.bwd(), b.0)),
    {
        b.apply_affine(&self.i)
    }

    /// A point moves by the whole forward map.
    pub fn apply_p(&self, p: P<S>) -> (q: P<S>)
        ensures
            q == P(self.fwd().apply_spec(p.0)),
    {
        P(self.f.apply(p.0))
    }

    pub fn inverse_apply_p(&self, p: P<S>) -> (q: P<S>)
        ensures
            q == P(self.bwd().apply_spec(p.0)),
    {
        P(self.i.apply(p.0))
    }

    /// A vector moves by the linear part only.
    pub fn apply_v(&self, v: V<S>) -> (w: V<S>)
        ensures
            w == V(self.fwd().r.apply_spec(v.0)),
    {
        V(self.rot().f.apply(v.0))
    }

    pub fn inverse_apply_v(&self, v: V<S>) -> (w: V<S>)
        ensures
            w == V(self.bwd().r.apply_spec(v.0)),
    {
        V(self.rot().i.apply(v.0))
    }
}

impl Affine3<i32> {
    /// In two's-complement arithmetic composition is exact: the composed
    /// transform applies `b` then `a`, and its inverse applies the inverse
    /// of `a` then that of `b`.
    pub proof fn lemma_mul_apply_exact(a: Affine3<i32>, b: Affine3<i32>, v: A3<i32>)
        ensures
            a.mul_spec(b).fwd().apply_spec(v) == a.fwd().apply_spec(b.fwd().apply_spec(v)),
            a.mul_spec(b).bwd().apply_spec(v) == b.bwd().apply_spec(a.bwd().apply_spec(v)),
    {
        affine3::Affine3::lemma_mul_apply(a.f, b.f, v);
        affine3::Affine3::lemma_mul_apply(b.i, a.i, v);
    }

    /// The inverse half undoes the forward half: `inverse_apply(apply(x))
    /// == x` for every `x`.
    pub open spec fn round_trips(self) -> bool {
        forall|x: A3<i32>| #[trigger] self.bwd().apply_spec(self.fwd().apply_spec(x)) == x
    }

    /// The identity round-trips.
    pub proof fn lemma_one_round_trips()
        ensures
            Affine3::<i32>::one_spec().round_trips(),
    {
        Affine3::<i32>::lemma_pair(affine3::Affine3::one_spec(), affine3::Affine3::one_spec());
    }

    /// In two's-complement arithmetic a translation round-trips exactly.
    pub proof fn lemma_translate_round_trips(v: A3<i32>)
        ensures
            Affine3::<i32>::translate_spec(v).round_trips(),
    {
    }

    /// A composition of transforms that round-trip round-trips.
    pub proof fn lemma_mul_round_trips(a: Affine3<i32>, b: Affine3<i32>)
        requires
            a.round_trips(),
            b.round_trips(),
        ensures
            a.mul_spec(b).round_trips(),
    {
        assert forall|x: A3<i32>| #[trigger]
            a.mul_spec(b).bwd().apply_spec(a.mul_spec(b).fwd().apply_spec(x)) == x by {
            Affine3::lemma_mul_apply_exact(a, b, x);
            let y = b.fwd().apply_spec(x);
            Affine3::lemma_mul_apply_exact(a, b, a.fwd().apply_spec(y));
            assert(a.bwd().apply_spec(a.fwd().apply_spec(y)) == y);
            assert(b.bwd().apply_spec(b.fwd().apply_spec(x)) == x);
        }
    }

    /// The product of a sequence of transforms that each round-trip
    /// round-trips.
    pub proof fn lemma_product_round_trips(ts: Seq<Affine3<i32>>)
        requires
            forall|k: int| 0 <= k < ts.len() ==> (#[trigger] ts[k]).round_trips(),
        ensures
            Affine3::product_spec(ts).round_trips(),
        decreases ts.len(),
    {
        if ts.len() == 0 {
            Affine3::lemma_one_round_trips();
        } else {
            assert forall|k: int| 0 <= k < ts.drop_first().len() implies (
            #[trigger] ts.drop_first()[k]).round_trips() by {
                assert(ts.drop_first()[k] == ts[k + 1]);
            }
            Affine3::lemma_product_round_trips(ts.drop_first());
            assert(ts[0].round_trips());
            Affine3::lemma_mul_round_trips(Affine3::product_spec(ts.drop_first()), ts[0]);
        }
    }
}

impl<S: Float> Affine3<S> {
    pub open spec fn scale_spec(v: A3<S>) -> Affine3<S> {
        Affine3::pair(
            affine3::Affine3 { r: RotScale3::scale_spec(v), t: None },
            affine3::Affine3 { r: RotScale3::scale_spec(inv3(v)), t: None },
        )
    }

    pub open spec fn rotate_spec(axis: A3<S>, angle: S) -> Affine3<S> {
        Affine3::pair(
            affine3::Affine3 { r: RotScale3::rotate_spec(axis, angle), t: None },
            affine3::Affine3 { r: RotScale3::rotate_spec(axis, angle.neg_spec()), t: None },
        )
    }

    pub open spec fn look_at_spec(pos: P<S>, target: P<S>, up: V<S>) -> Affine3<S> {
        Affine3::pair(
            affine3::Affine3 { r: RotScale3::look_at_spec(sub3(target.0, pos.0), up.0), t: Some(pos.0) },
            affine3::Affine3::one_spec(),
        )
    }

    /// The scaling by `v`, with the scaling by the reciprocals as its
    /// inverse. A zero component gives infinities, not an error.
    pub fn scale(v: A3<S>) -> (r: Affine3<S>)
        ensures
            r == Affine3::scale_spec(v),
    {
        Affine3 { f: affine3::Affine3::scale(v), i: affine3::Affine3::scale(inv(v)) }
    }

    /// Under a scaling by `s` a vector is multiplied by `s` but a normal by
    /// the reciprocals of `s`: the inverse transpose of a diagonal map is
    /// the diagonal of reciprocals.
    pub proof fn lemma_scale_moves_normals_by_reciprocals(s: A3<S>, x: A3<S>)
        ensures
            Affine3::scale_spec(s).fwd().r.apply_spec(x) == RotScale3::scale_spec(s).apply_spec(x),
            Affine3::scale_spec(s).bwd().r.t_spec().apply_spec(x) == RotScale3::scale_spec(
                inv3(s),
            ).apply_spec(x),
    {
    }

    /// The rotation by `angle` degrees about `axis`, with the rotation by
    /// `-angle` as its inverse.
    pub fn rotate(axis: A3<S>, angle: S) -> (r: Affine3<S>)
        ensures
            r == Affine3::rotate_spec(axis, angle),
    {
        Affine3 { f: affine3::Affine3::rotate(axis, angle), i: affine3::Affine3::rotate(axis, angle.neg()) }
    }

    /// The camera transform at `pos` looking at `target`. Its inverse half
    /// is the identity, not the inverse camera map.
    pub fn look_at(pos: P<S>, target: P<S>, up: V<S>) -> (r: Affine3<S>)
        ensures
            r == Affine3::look_at_spec(pos, target, up),
    {
        Affine3 { f: affine3::Affine3::look_at(pos, target, up), i: affine3::Affine3::one() }
    }

    /// The frame around the normal `v`; being orthonormal, its inverse is
    /// its transpose.
    pub fn from_frame(v: A3<S>) -> (r: Affine3<S>)
        ensures
            r == Affine3::pair(
                affine3::Affine3 { r: RotScale3::from_frame_spec(v), t: None },
                affine3::Affine3 { r: RotScale3::from_frame_spec(v).t_spec(), t: None },
            ),
    {
        let f = affine3::Affine3::from_frame(v);
        Affine3 { f, i: f.t() }
    }

    /// A normal moves by the inverse transpose of the linear part, and is
    /// then scaled back to unit length.
    pub fn apply_n(&self, n: N<S>) -> (m: N<S>)
        ensures
            m == N(unit3(self.bwd().r.t_spec().apply_spec(n.0))),
    {
        N(unit(self.inv().t().f.apply(n.0)))
    }

    /// A normal under the inverse transform: by the transpose of the
    /// forward linear part, then scaled back to unit length.
    pub fn inverse_apply_n(&self, n: N<S>) -> (m: N<S>)
        ensures
            m == N(unit3(self.fwd().r.t_spec().apply_spec(n.0))),
    {
        N(unit(self.inv().t().i.apply(n.0)))
    }
}

/// A transform as it is written in a scene description: one of the four
/// elementary kinds with its parameters.
#[derive(Clone, Copy, Debug, PartialEq)]
pub enum TransformConfig<S> {
    Translate(A3<S>),
    Scale(A3<S>),
    Rotate { axis: A3<S>, angle: S },
    LookAt { pos: P<S>, target: P<S>, up: V<S> },
}

impl<S: Float> TransformConfig<S> {
    /// The transform that the description names, built by the matching
    /// constructor of [`Affine3`].
    pub open spec fn to_transform_spec(self) -> Affine3<S> {
        match self {
            TransformConfig::Translate(v) => Affine3::translate_spec(v),
            TransformConfig::Scale(s) => Affine3::scale_spec(s),
            TransformConfig::Rotate { axis, angle } => Affine3::rotate_spec(axis, angle),
            TransformConfig::LookAt { pos, target, up } => Affine3::look_at_spec(pos, target, up),
        }
    }

    pub fn to_transform(self) -> (r: Affine3<S>)
        ensures
            r == self.to_transform_spec(),
    {
        match self {
            TransformConfig::Translate(v) => Affine3::translate(v),
            TransformConfig::Scale(s) => Affine3::scale(s),
            TransformConfig::Rotate { axis, angle } => Affine3::rotate(axis, angle),
            TransformConfig::LookAt { pos, target, up } => Affine3::look_at(pos, target, up),
        }
    }
}

} // verus!
