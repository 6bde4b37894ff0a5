//! Linear maps of 3-space, with the identity kept as a variant of its own so
//! that it costs nothing to apply, compose or transpose.

use vstd::prelude::*;
use crate::array::{dot3, A3};
use crate::num::{sq_spec, Float, Num};
use crate::vector::{cross, cross3, div, div3, unit, unit3};

verus! {

/// A 3×3 matrix stored as its rows.
pub type M3<S> = A3<A3<S>>;

/// A linear map of 3-space: the identity, or a matrix.
#[derive(Clone, Copy, Debug, PartialEq)]
pub enum RotScale3<S> {
    Identity,
    Matrix(M3<S>),
}

/// The transpose of `m`.
pub open spec fn transpose3<S>(m: M3<S>) -> M3<S> {
    A3(A3(m.0.0, m.1.0, m.2.0), A3(m.0.1, m.1.1, m.2.1), A3(m.0.2, m.1.2, m.2.2))
}

/// The matrix-vector product `m · v`: each row dotted with `v`.
pub open spec fn mat_apply<S: Num>(m: M3<S>, v: A3<S>) -> A3<S> {
    A3(dot3(m.0, v), dot3(m.1, v), dot3(m.2, v))
}

/// The row `r` times the matrix `b`: `r` dotted with each column of `b`.
pub open spec fn row_times<S: Num>(r: A3<S>, b: M3<S>) -> A3<S> {
    let bt = transpose3(b);
    A3(dot3(r, bt.0), dot3(r, bt.1), dot3(r, bt.2))
}

/// The matrix product `a · b`.
pub open spec fn mat_mul<S: Num>(a: M3<S>, b: M3<S>) -> M3<S> {
    A3(row_times(a.0, b), row_times(a.1, b), row_times(a.2, b))
}

/// The diagonal matrix with diagonal `s`.
pub open spec fn diag3<S: Num>(s: A3<S>) -> M3<S> {
    let z = S::zero_spec();
    A3(A3(s.0, z, z), A3(z, s.1, z), A3(z, z, s.2))
}

/// Rodrigues' rotation matrix for the angle `angle` (in degrees) about the
/// unit axis `(x, y, z)`, with `c = cos`, `s = sin` and `k = 1 - c`.
pub open spec fn rotation3<S: Float>(axis: A3<S>, angle: S) -> M3<S> {
    let u = unit3(axis);
    let (x, y, z) = (u.0, u.1, u.2);
    let c = angle.cosd_spec();
    let k = S::one_spec().sub_spec(c);
    let s = angle.sind_spec();
    A3(
        A3(
            sq_spec(x).mul_spec(k).add_spec(c),
            x.mul_spec(y).mul_spec(k).sub_spec(z.mul_spec(s)),
            x.mul_spec(z).mul_spec(k).add_spec(y.mul_spec(s)),
        ),
        A3(
            y.mul_spec(x).mul_spec(k).add_spec(z.mul_spec(s)),
            sq_spec(y).mul_spec(k).add_spec(c),
            y.mul_spec(z).mul_spec(k).sub_spec(x.mul_spec(s)),
        ),
        A3(
            z.mul_spec(x).mul_spec(k).sub_spec(y.mul_spec(s)),
            z.mul_spec(y).mul_spec(k).add_spec(x.mul_spec(s)),
            sq_spec(z).mul_spec(k).add_spec(c),
        ),
    )
}

/// The camera basis looking along `dir`: `right = unit(unit(up) × d)`,
/// `up' = unit(d × right)` with `d = unit(dir)`, as the columns
/// `(right, up', d)`.
pub open spec fn look_at3<S: Float>(dir: A3<S>, up: A3<S>) -> M3<S> {
    let u = unit3(up);
    let d = unit3(dir);
    let right = unit3(cross3(u, d));
    let u2 = unit3(cross3(d, right));
    transpose3(A3(right, u2, d))
}

/// `|a|`, as the comparison with zero gives it.
pub open spec fn abs_spec<S: Num>(a: S) -> S {
    if a.lt_spec(S::zero_spec()) {
        a.neg_spec()
    } else {
        a
    }
}

/// The first basis vector that completes the normal `v` to a frame: built
/// from the larger of `|v.x|` and `|v.y|` so that it is never degenerate.
pub open spec fn frame_tangent<S: Float>(v: A3<S>) -> A3<S> {
    let z = S::zero_spec();
    if abs_spec(v.1).lt_spec(abs_spec(v.0)) {
        div3(A3(v.2.neg_spec(), z, v.0), sq_spec(v.0).add_spec(sq_spec(v.2)).sqrt_spec())
    } else {
        div3(A3(z, v.2, v.1.neg_spec()), sq_spec(v.1).add_spec(sq_spec(v.2)).sqrt_spec())
    }
}

/// The frame with columns `(t, v × t, v)`, `t` the tangent of `v`.
pub open spec fn frame3<S: Float>(v: A3<S>) -> M3<S> {
    let t = frame_tangent(v);
    transpose3(A3(t, cross3(v, t), v))
}

/// Computes `|a|` from a comparison with zero.
pub fn abs<S: Num>(a: S) -> (r: S)
    ensures
        r == abs_spec(a),
{
    if a.lt(S::zero()) {
        a.neg()
    } else {
        a
    }
}

fn transpose<S: Copy>(m: M3<S>) -> (r: M3<S>)
    ensures
        r == transpose3(m),
{
    A3(A3(m.0.0, m.1.0, m.2.0), A3(m.0.1, m.1.1, m.2.1), A3(m.0.2, m.1.2, m.2.2))
}

fn apply<S: Num>(m: M3<S>, v: A3<S>) -> (r: A3<S>)
    ensures
        r == mat_apply(m, v),
{
    A3(A3::dot(m.0, v), A3::dot(m.1, v), A3::dot(m.2, v))
}

fn row_mul<S: Num>(r: A3<S>, b: M3<S>) -> (o: A3<S>)
    ensures
        o == row_times(r, b),
{
    let bt = transpose(b);
    A3(A3::dot(r, bt.0), A3::dot(r, bt.1), A3::dot(r, bt.2))
}

impl<S: Copy> RotScale3<S> {
    /// The identity map.
    pub fn one() -> (r: RotScale3<S>)
        ensures
            r == RotScale3::<S>::Identity,
    {
        RotScale3::Identity
    }

    /// The transposed map; the identity stays the identity.
    pub open spec fn t_spec(self) -> RotScale3<S> {
        match self {
            RotScale3::Identity => RotScale3::Identity,
            RotScale3::Matrix(m) => RotScale3::Matrix(transpose3(m)),
        }
    }

    /// Transposing twice gives the map back.
    pub proof fn lemma_t_t(m: RotScale3<S>)
        ensures
            m.t_spec().t_spec() == m,
    {
    }

    /// The matrix with the given rows.
    pub fn from_rows(r1: A3<S>, r2: A3<S>, r3: A3<S>) -> (r: RotScale3<S>)
        ensures
            r == RotScale3::Matrix(A3(r1, r2, r3)),
    {
        RotScale3::Matrix(A3(r1, r2, r3))
    }

    /// The matrix with the given columns.
    pub fn from_cols(c1: A3<S>, c2: A3<S>, c3: A3<S>) -> (r: RotScale3<S>)
        ensures
            r == RotScale3::Matrix(transpose3(A3(c1, c2, c3))),
    {
        RotScale3::Matrix(transpose(A3(c1, c2, c3)))
    }

    /// Swaps rows and columns.
    pub fn t(&self) -> (r: RotScale3<S>)
        ensures
            r == self.t_spec(),
    {
        match self {
            RotScale3::Identity => RotScale3::Identity,
            RotScale3::Matrix(m) => RotScale3::Matrix(transpose(*m)),
        }
    }
}

impl<S: Num> RotScale3<S> {
    /// The image of `v` under the map.
    pub open spec fn apply_spec(self, v: A3<S>) -> A3<S> {
        match self {
            RotScale3::Identity => v,
            RotScale3::Matrix(m) => mat_apply(m, v),
        }
    }

    /// The composition `self · o`; an identity factor is dropped.
    pub open spec fn mul_spec(self, o: RotScale3<S>) -> RotScale3<S> {
        match (self, o) {
            (RotScale3::Identity, _) => o,
            (_, RotScale3::Identity) => self,
            (RotScale3::Matrix(a), RotScale3::Matrix(b)) => RotScale3::Matrix(mat_mul(a, b)),
        }
    }

    pub open spec fn scale_spec(s: A3<S>) -> RotScale3<S> {
        RotScale3::Matrix(diag3(s))
    }

    /// The scaling by `s.0`, `s.1`, `s.2` along the three axes.
    pub fn scale(s: A3<S>) -> (r: RotScale3<S>)
        ensures
            r == Self::scale_spec(s),
    {
        let z = S::zero();
        RotScale3::Matrix(A3(A3(s.0, z, z), A3(z, s.1, z), A3(z, z, s.2)))
    }

    /// The identity is a two-sided unit of composition.
    pub proof fn lemma_one_mul(m: RotScale3<S>)
        ensures
            RotScale3::<S>::Identity.mul_spec(m) == m,
            m.mul_spec(RotScale3::<S>::Identity) == m,
    {
    }

    /// Applies the map to `v`: the matrix-vector product.
    pub fn apply(&self, v: A3<S>) -> (r: A3<S>)
        ensures
            r == self.apply_spec(v),
    {
        match self {
            RotScale3::Identity => v,
            RotScale3::Matrix(m) => apply(*m, v),
        }
    }

    /// Composes two maps: the matrix product `self · o`.
    pub fn mul(&self, o: &RotScale3<S>) -> (r: RotScale3<S>)
        ensures
            r == self.mul_spec(*o),
    {
        match (self, o) {
            (RotScale3::Identity, _) => *o,
            (_, RotScale3::Identity) => *self,
            (RotScale3::Matrix(a), RotScale3::Matrix(b)) => {
                RotScale3::Matrix(A3(row_mul(a.0, *b), row_mul(a.1, *b), row_mul(a.2, *b)))
            },
        }
    }
}

impl<S: Float> RotScale3<S> {
    pub open spec fn rotate_spec(axis: A3<S>, angle: S) -> RotScale3<S> {
        RotScale3::Matrix(rotation3(axis, angle))
    }

    pub open spec fn look_at_spec(dir: A3<S>, up: A3<S>) -> RotScale3<S> {
        RotScale3::Matrix(look_at3(dir, up))
    }

    pub open spec fn from_frame_spec(v: A3<S>) -> RotScale3<S> {
        RotScale3::Matrix(frame3(v))
    }

    /// The rotation by `angle` degrees about `axis` (Rodrigues' formula).
    pub fn rotate(axis: A3<S>, angle: S) -> (r: RotScale3<S>)
        ensures
            r == Self::rotate_spec(axis, angle),
    {
        let u = unit(axis);
        let (x, y, z) = (u.0, u.1, u.2);
        let c = angle.cosd();
        let k = S::one().sub(c);
        let s = angle.sind();
        RotScale3::Matrix(
            A3(
                A3(
                    x.mul(x).mul(k).add(c),
                    x.mul(y).mul(k).sub(z.mul(s)),
                    x.mul(z).mul(k).add(y.mul(s)),
                ),
                A3(
                    y.mul(x).mul(k).add(z.mul(s)),
                    y.mul(y).mul(k).add(c),
                    y.mul(z).mul(k).sub(x.mul(s)),
                ),
                A3(
                    z.mul(x).mul(k).sub(y.mul(s)),
                    z.mul(y).mul(k).add(x.mul(s)),
                    z.mul(z).mul(k).add(c),
                ),
            ),
        )
    }

    /// The camera basis whose third column is the direction `dir`.
    pub fn look_at(dir: A3<S>, up: A3<S>) -> (r: RotScale3<S>)
        ensures
            r == Self::look_at_spec(dir, up),
    {
        let u = unit(up);
        let d = unit(dir);
        let right = unit(cross(u, d));
        let u2 = unit(cross(d, right));
        RotScale3::from_cols(right, u2, d)
    }

    /// An orthonormal frame whose third column is the unit normal `v`.
    pub fn from_frame(v: A3<S>) -> (r: RotScale3<S>)
        ensures
            r == Self::from_frame_spec(v),
    {
        let z = S::zero();
        let t = if abs(v.1).lt(abs(v.0)) {
            div(A3(v.2.neg(), z, v.0), v.0.mul(v.0).add(v.2.mul(v.2)).sqrt())
        } else {
            div(A3(z, v.2, v.1.neg()), v.1.mul(v.1).add(v.2.mul(v.2)).sqrt())
        };
        RotScale3::from_cols(t, cross(v, t), v)
    }
}

} // verus!
