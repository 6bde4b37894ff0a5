//! One-dimensional intervals and axis-aligned boxes.

use vstd::prelude::*;
use crate::array::{A2, A3};
use crate::dim::Dim;
use crate::num::{Float, Half, Inv, Num};
use crate::affine3::Affine3;
use crate::rotscale3::RotScale3;
use crate::vector::{P, V};

verus! {

/// The interval `[lo, hi]` as the pair `(lo, hi)`; `lo > hi` is an empty
/// (degenerate) interval.
#[derive(Clone, Copy, Debug, PartialEq)]
pub struct B<S>(pub A2<S>);

/// The smaller of `a` and `b`, `a` on a tie or when unordered.
pub open spec fn min_spec<S: Num>(a: S, b: S) -> S {
    if a.le_spec(b) {
        a
    } else {
        b
    }
}

/// The larger of `a` and `b`, `a` on a tie or when unordered.
pub open spec fn max_spec<S: Num>(a: S, b: S) -> S {
    if b.le_spec(a) {
        a
    } else {
        b
    }
}

pub fn min<S: Num>(a: S, b: S) -> (r: S)
    ensures
        r == min_spec(a, b),
{
    if a.le(b) {
        a
    } else {
        b
    }
}

pub fn max<S: Num>(a: S, b: S) -> (r: S)
    ensures
        r == max_spec(a, b),
{
    if b.le(a) {
        a
    } else {
        b
    }
}

impl<S: Num> B<S> {
    pub open spec fn lo(self) -> S {
        self.0.0
    }

    pub open spec fn hi(self) -> S {
        self.0.1
    }

    /// The interval `[l, u]`.
    pub fn b(l: S, u: S) -> (r: B<S>)
        ensures
            r == B(A2(l, u)),
    {
        B(A2(l, u))
    }

    /// The one-point interval `[f, f]`.
    pub fn point(f: S) -> (r: B<S>)
        ensures
            r == B(A2(f, f)),
    {
        B(A2::rep(f))
    }

    /// The interval between the two ends of `a`, in whichever order.
    pub open spec fn ordered_spec(a: A2<S>) -> B<S> {
        if a.1.lt_spec(a.0) {
            B(A2(a.1, a.0))
        } else {
            B(a)
        }
    }

    pub fn ordered(a: A2<S>) -> (r: B<S>)
        ensures
            r == Self::ordered_spec(a),
    {
        if a.1.lt(a.0) {
            B(a.flip())
        } else {
            B(a)
        }
    }

    /// Whether `t` lies in the interval, ends included.
    pub open spec fn bounds_spec(self, t: S) -> bool {
        self.lo().le_spec(t) && t.le_spec(self.hi())
    }

    pub fn bounds(self, t: S) -> (r: bool)
        ensures
            r == self.bounds_spec(t),
    {
        self.0.0.le(t) && t.le(self.0.1)
    }

    /// Whether the interval is empty: `lo > hi`.
    pub open spec fn degen_spec(self) -> bool {
        self.hi().lt_spec(self.lo())
    }

    pub fn degen(self) -> (r: bool)
        ensures
            r == self.degen_spec(),
    {
        self.0.1.lt(self.0.0)
    }

    /// No value lies in an empty interval.
    pub proof fn lemma_degen_bounds_nothing(self, t: S)
        requires
            self.degen_spec(),
        ensures
            !self.bounds_spec(t),
    {
        if self.bounds_spec(t) {
            S::le_transitive(self.lo(), t, self.hi());
            S::lt_excludes_le(self.hi(), self.lo());
        }
    }

    /// `hi - lo`.
    pub fn extent(self) -> (r: S)
        ensures
            r == self.hi().sub_spec(self.lo()),
    {
        self.0.1.sub(self.0.0)
    }

    /// The smallest interval holding both: the smaller `lo`, the larger `hi`.
    pub open spec fn union_spec(self, o: B<S>) -> B<S> {
        B(A2(min_spec(self.lo(), o.lo()), max_spec(self.hi(), o.hi())))
    }

    pub fn union(self, o: B<S>) -> (r: B<S>)
        ensures
            r == self.union_spec(o),
    {
        B(A2(min(self.0.0, o.0.0), max(self.0.1, o.0.1)))
    }

    /// The interval grown to hold `f`.
    pub fn union_point(self, f: S) -> (r: B<S>)
        ensures
            r == self.union_spec(B(A2(f, f))),
    {
        self.union(B::point(f))
    }

    /// The common part: the larger `lo`, the smaller `hi`.
    pub open spec fn intersect_spec(self, o: B<S>) -> B<S> {
        B(A2(max_spec(self.lo(), o.lo()), min_spec(self.hi(), o.hi())))
    }

    pub fn intersect(self, o: B<S>) -> (r: B<S>)
        ensures
            r == self.intersect_spec(o),
    {
        B(A2(max(self.0.0, o.0.0), min(self.0.1, o.0.1)))
    }

    /// Both ends added.
    pub open spec fn sum_spec(self, o: B<S>) -> B<S> {
        B(A2(self.lo().add_spec(o.lo()), self.hi().add_spec(o.hi())))
    }

    pub fn add(self, o: B<S>) -> (r: B<S>)
        ensures
            r == self.sum_spec(o),
    {
        B(A2(self.0.0.add(o.0.0), self.0.1.add(o.0.1)))
    }

    /// The interval shifted by `f`.
    pub open spec fn shift_spec(self, f: S) -> B<S> {
        B(A2(self.lo().add_spec(f), self.hi().add_spec(f)))
    }

    pub fn shift(self, f: S) -> (r: B<S>)
        ensures
            r == self.shift_spec(f),
    {
        B(A2(self.0.0.add(f), self.0.1.add(f)))
    }

    /// The interval shifted by `-f`.
    pub fn unshift(self, f: S) -> (r: B<S>)
        ensures
            r == B(A2(self.lo().sub_spec(f), self.hi().sub_spec(f))),
    {
        B(A2(self.0.0.sub(f), self.0.1.sub(f)))
    }

    /// Both ends times `f`, reordered when `f` is negative.
    pub open spec fn scaled_spec(self, f: S) -> B<S> {
        Self::ordered_spec(A2(self.lo().mul_spec(f), self.hi().mul_spec(f)))
    }

    pub fn mul(self, f: S) -> (r: B<S>)
        ensures
            r == self.scaled_spec(f),
    {
        B::ordered(A2(self.0.0.mul(f), self.0.1.mul(f)))
    }
}

impl<S: Float> B<S> {
    /// The empty interval `[+inf, -inf]`: the unit of `union`.
    pub open spec fn zero_spec() -> B<S> {
        B(A2(S::pos_inf_spec(), S::neg_inf_spec()))
    }

    pub fn zero() -> (r: B<S>)
        ensures
            r == Self::zero_spec(),
    {
        B(A2(S::pos_inf(), S::neg_inf()))
    }

    /// The union of the empty interval with any interval is that interval.
    pub proof fn lemma_zero_union(b: B<S>)
        ensures
            Self::zero_spec().union_spec(b) == b,
    {
        if S::pos_inf_spec().le_spec(b.lo()) {
            S::pos_inf_is_top(b.lo());
        }
        if b.hi().le_spec(S::neg_inf_spec()) {
            S::neg_inf_is_bottom(b.hi());
        }
    }

    /// The midpoint `(lo + hi) / 2`.
    pub fn center(self) -> (r: S)
        ensures
            r == self.lo().add_spec(self.hi()).mul_spec(S::half_spec()),
    {
        self.0.sum().mul(S::half())
    }

    /// Both ends divided by `f`, as a product with `1 / f`.
    pub fn div(self, f: S) -> (r: B<S>)
        ensures
            r == Self::ordered_spec(
                A2(self.lo().mul_spec(f.inv_spec()), self.hi().mul_spec(f.inv_spec())),
            ),
    {
        self.mul(f.inv())
    }
}

/// The interval that a row of a matrix maps the box `b` into:
/// `b.0 row.0 + b.1 row.1 + b.2 row.2` in interval arithmetic.
pub open spec fn box_row<S: Num>(row: A3<S>, b: A3<B<S>>) -> B<S> {
    b.0.scaled_spec(row.0).sum_spec(b.1.scaled_spec(row.1)).sum_spec(b.2.scaled_spec(row.2))
}

/// The box that bounds the image of the box `b` under the affine map `a`:
/// each output axis is the interval combination of the input axes by the
/// corresponding row, shifted by the translation.
pub open spec fn box_apply<S: Num>(a: Affine3<S>, b: A3<B<S>>) -> A3<B<S>> {
    let lin = match a.r {
        RotScale3::Identity => b,
        RotScale3::Matrix(m) => A3(box_row(m.0, b), box_row(m.1, b), box_row(m.2, b)),
    };
    match a.t {
        None => lin,
        Some(t) => A3(lin.0.shift_spec(t.0), lin.1.shift_spec(t.1), lin.2.shift_spec(t.2)),
    }
}

fn row_bound<S: Num>(row: A3<S>, b: A3<B<S>>) -> (r: B<S>)
    ensures
        r == box_row(row, b),
{
    b.0.mul(row.0).add(b.1.mul(row.1)).add(b.2.mul(row.2))
}

/// An axis-aligned box: one interval per axis.
#[derive(Clone, Copy, Debug, PartialEq)]
pub struct BBox<S>(pub A3<B<S>>);

impl<S: Num> BBox<S> {
    /// The interval along axis `d`.
    pub fn get(&self, d: Dim) -> (r: B<S>)
        ensures
            r == self.0.at(d),
    {
        self.0.get(d)
    }

    /// The union per axis.
    pub fn union(&self, o: &BBox<S>) -> (r: BBox<S>)
        ensures
            r == BBox(A3(self.0.0.union_spec(o.0.0), self.0.1.union_spec(o.0.1), self.0.2.union_spec(o.0.2))),
    {
        BBox(A3(self.0.0.union(o.0.0), self.0.1.union(o.0.1), self.0.2.union(o.0.2)))
    }

    /// The box grown to hold the point `p`.
    pub fn union_point(&self, p: P<S>) -> (r: BBox<S>)
        ensures
            r == BBox(
                A3(
                    self.0.0.union_spec(B(A2(p.0.0, p.0.0))),
                    self.0.1.union_spec(B(A2(p.0.1, p.0.1))),
                    self.0.2.union_spec(B(A2(p.0.2, p.0.2))),
                ),
            ),
    {
        BBox(A3(self.0.0.union_point(p.0.0), self.0.1.union_point(p.0.1), self.0.2.union_point(p.0.2)))
    }

    /// The intersection per axis.
    pub fn intersect(&self, o: &BBox<S>) -> (r: BBox<S>)
        ensures
            r == BBox(A3(self.0.0.intersect_spec(o.0.0), self.0.1.intersect_spec(o.0.1), self.0.2.intersect_spec(o.0.2))),
    {
        BBox(A3(self.0.0.intersect(o.0.0), self.0.1.intersect(o.0.1), self.0.2.intersect(o.0.2)))
    }

    /// The extent along each axis.
    pub fn extents(&self) -> (r: A3<S>)
        ensures
            r == A3(
                self.0.0.hi().sub_spec(self.0.0.lo()),
                self.0.1.hi().sub_spec(self.0.1.lo()),
                self.0.2.hi().sub_spec(self.0.2.lo()),
            ),
    {
        A3(self.0.0.extent(), self.0.1.extent(), self.0.2.extent())
    }

    /// The largest extent and its axis; the later axis wins a tie.
    pub fn max_extent(&self) -> (r: (S, Dim))
        ensures
            ({
                let e = A3(
                    self.0.0.hi().sub_spec(self.0.0.lo()),
                    self.0.1.hi().sub_spec(self.0.1.lo()),
                    self.0.2.hi().sub_spec(self.0.2.lo()),
                );
                let first = if e.1.lt_spec(e.0) { (e.0, Dim::X) } else { (e.1, Dim::Y) };
                r == if e.2.lt_spec(first.0) { first } else { (e.2, Dim::Z) }
            }),
    {
        let e = self.extents();
        let first = if e.1.lt(e.0) { (e.0, Dim::X) } else { (e.1, Dim::Y) };
        if e.2.lt(first.0) {
            first
        } else {
            (e.2, Dim::Z)
        }
    }
}

impl<S: Num> BBox<S> {
    /// The box moved by the point `p`, axis by axis.
    pub fn shift(&self, p: P<S>) -> (r: BBox<S>)
        ensures
            r == BBox(A3(self.0.0.shift_spec(p.0.0), self.0.1.shift_spec(p.0.1), self.0.2.shift_spec(p.0.2))),
    {
        BBox(A3(self.0.0.shift(p.0.0), self.0.1.shift(p.0.1), self.0.2.shift(p.0.2)))
    }

    /// The box scaled by `v`, axis by axis.
    pub fn scale(&self, v: V<S>) -> (r: BBox<S>)
        ensures
            r == BBox(A3(self.0.0.scaled_spec(v.0.0), self.0.1.scaled_spec(v.0.1), self.0.2.scaled_spec(v.0.2))),
    {
        BBox(A3(self.0.0.mul(v.0.0), self.0.1.mul(v.0.1), self.0.2.mul(v.0.2)))
    }

    /// The box that bounds the image of this one under `a`.
    pub fn apply_affine(&self, a: &Affine3<S>) -> (r: BBox<S>)
        ensures
            r == BBox(box_apply(*a, self.0)),
    {
        let b = self.0;
        let lin = match a.r {
            RotScale3::Identity => b,
            RotScale3::Matrix(m) => A3(row_bound(m.0, b), row_bound(m.1, b), row_bound(m.2, b)),
        };
        match a.t {
            None => BBox(lin),
            Some(t) => BBox(A3(lin.0.shift(t.0), lin.1.shift(t.1), lin.2.shift(t.2))),
        }
    }
}

impl<S: Float> BBox<S> {
    /// The empty box.
    pub fn zero() -> (r: BBox<S>)
        ensures
            r == BBox(A3(B::<S>::zero_spec(), B::<S>::zero_spec(), B::<S>::zero_spec())),
    {
        BBox(A3(B::zero(), B::zero(), B::zero()))
    }

    /// The midpoint of each axis.
    pub fn center(&self) -> (r: P<S>)
        ensures
            r == P(
                A3(
                    self.0.0.lo().add_spec(self.0.0.hi()).mul_spec(S::half_spec()),
                    self.0.1.lo().add_spec(self.0.1.hi()).mul_spec(S::half_spec()),
                    self.0.2.lo().add_spec(self.0.2.hi()).mul_spec(S::half_spec()),
                ),
            ),
    {
        P(A3(self.0.0.center(), self.0.1.center(), self.0.2.center()))
    }
}

} // verus!
