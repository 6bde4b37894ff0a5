//! Scalar capabilities: constants, ring operations and order (`Num`), and the
//! transcendental functions of a real-number type (`Float`).
//!
//! Each executable operation is tied to a spec function of the same trait,
//! so that callers' contracts can name the exact expression they compute.

use vstd::prelude::*;
use crate::array::A2;

verus! {

/// A type with an additive identity.
pub trait Zero: Sized {
    spec fn zero_spec() -> Self;

    fn zero() -> (r: Self)
        ensures
            r == Self::zero_spec(),
    ;
}

/// A type with a multiplicative identity.
pub trait One: Sized {
    spec fn one_spec() -> Self;

    fn one() -> (r: Self)
        ensures
            r == Self::one_spec(),
    ;
}

/// A type with a constant two.
pub trait Two: Sized {
    spec fn two_spec() -> Self;

    fn two() -> (r: Self)
        ensures
            r == Self::two_spec(),
    ;
}

/// A type with a constant one half.
pub trait Half: Sized {
    spec fn half_spec() -> Self;

    fn half() -> (r: Self)
        ensures
            r == Self::half_spec(),
    ;
}

/// A type with a multiplicative inverse (reciprocal).
pub trait Inv: Sized {
    spec fn inv_spec(self) -> Self;

    fn inv(self) -> (r: Self)
        ensures
            r == self.inv_spec(),
    ;
}

/// A type with a small tolerance, used to keep ray intervals clear of their
/// end points.
pub trait Epsilon: Sized {
    spec fn eps_spec() -> Self;

    fn eps() -> (r: Self)
        ensures
            r == Self::eps_spec(),
    ;
}

/// Ring operations and a comparison, as used by the geometry code.
///
/// `le_spec` must be a preorder in which `lt_spec(a, b)` excludes
/// `le_spec(b, a)`: this holds of the integers and of IEEE floats, where a
/// NaN is simply unordered.
pub trait Num: Copy + Zero + One + Two {
    spec fn add_spec(self, o: Self) -> Self;

    spec fn sub_spec(self, o: Self) -> Self;

    spec fn mul_spec(self, o: Self) -> Self;

    spec fn neg_spec(self) -> Self;

    spec fn le_spec(self, o: Self) -> bool;

    spec fn lt_spec(self, o: Self) -> bool;

    fn add(self, o: Self) -> (r: Self)
        ensures
            r == self.add_spec(o),
    ;

    fn sub(self, o: Self) -> (r: Self)
        ensures
            r == self.sub_spec(o),
    ;

    fn mul(self, o: Self) -> (r: Self)
        ensures
            r == self.mul_spec(o),
    ;

    fn neg(self) -> (r: Self)
        ensures
            r == self.neg_spec(),
    ;

    fn le(self, o: Self) -> (r: bool)
        ensures
            r == self.le_spec(o),
    ;

    fn lt(self, o: Self) -> (r: bool)
        ensures
            r == self.lt_spec(o),
    ;

    proof fn le_transitive(a: Self, b: Self, c: Self)
        requires
            a.le_spec(b),
            b.le_spec(c),
        ensures
            a.le_spec(c),
    ;

    proof fn lt_excludes_le(a: Self, b: Self)
        requires
            a.lt_spec(b),
        ensures
            !b.le_spec(a),
    ;
}

/// The operations of a real-number type that the sampling and transform
/// code needs beyond the ring operations.
///
/// The two proof obligations say that the infinities are the extremes of
/// the order: nothing but `+inf` is at or above `+inf`, and nothing but
/// `-inf` at or below `-inf`.
pub trait Float: Num + Half + Inv + Epsilon {
    spec fn div_spec(self, o: Self) -> Self;

    /// The fused `self * a + b`, rounded once.
    spec fn mul_add_spec(self, a: Self, b: Self) -> Self;

    spec fn sqrt_spec(self) -> Self;

    spec fn sin_spec(self) -> Self;

    spec fn cos_spec(self) -> Self;

    /// Sine of an angle in degrees.
    spec fn sind_spec(self) -> Self;

    /// Cosine of an angle in degrees.
    spec fn cosd_spec(self) -> Self;

    spec fn acos_spec(self) -> Self;

    /// The four-quadrant arc tangent of `y / x`.
    spec fn atan2_spec(y: Self, x: Self) -> Self;

    spec fn exp_spec(self) -> Self;

    spec fn ln_spec(self) -> Self;

    spec fn pi_spec() -> Self;

    spec fn pos_inf_spec() -> Self;

    spec fn neg_inf_spec() -> Self;

    fn div(self, o: Self) -> (r: Self)
        ensures
            r == self.div_spec(o),
    ;

    fn mul_add(self, a: Self, b: Self) -> (r: Self)
        ensures
            r == self.mul_add_spec(a, b),
    ;

    fn sqrt(self) -> (r: Self)
        ensures
            r == self.sqrt_spec(),
    ;

    fn sin(self) -> (r: Self)
        ensures
            r == self.sin_spec(),
    ;

    fn cos(self) -> (r: Self)
        ensures
            r == self.cos_spec(),
    ;

    fn sind(self) -> (r: Self)
        ensures
            r == self.sind_spec(),
    ;

    fn cosd(self) -> (r: Self)
        ensures
            r == self.cosd_spec(),
    ;

    fn acos(self) -> (r: Self)
        ensures
            r == self.acos_spec(),
    ;

    fn atan2(y: Self, x: Self) -> (r: Self)
        ensures
            r == Self::atan2_spec(y, x),
    ;

    fn exp(self) -> (r: Self)
        ensures
            r == self.exp_spec(),
    ;

    fn ln(self) -> (r: Self)
        ensures
            r == self.ln_spec(),
    ;

    fn pi() -> (r: Self)
        ensures
            r == Self::pi_spec(),
    ;

    fn pos_inf() -> (r: Self)
        ensures
            r == Self::pos_inf_spec(),
    ;

    fn neg_inf() -> (r: Self)
        ensures
            r == Self::neg_inf_spec(),
    ;

    proof fn pos_inf_is_top(a: Self)
        requires
            Self::pos_inf_spec().le_spec(a),
        ensures
            a == Self::pos_inf_spec(),
    ;

    proof fn neg_inf_is_bottom(a: Self)
        requires
            a.le_spec(Self::neg_inf_spec()),
        ensures
            a == Self::neg_inf_spec(),
    ;
}

/// `a * a`.
pub open spec fn sq_spec<S: Num>(a: S) -> S {
    a.mul_spec(a)
}

/// Squares a scalar.
pub fn sq<S: Num>(a: S) -> (r: S)
    ensures
        r == sq_spec(a),
{
    a.mul(a)
}

/// `a b - c d`, computed with fused multiply-adds so that the rounding
/// error of `c d` cancels.
pub open spec fn difference_of_products_spec<S: Float>(a: S, b: S, c: S, d: S) -> S {
    let cd = c.mul_spec(d);
    a.mul_add_spec(b, cd.neg_spec()).add_spec(c.mul_add_spec(d.neg_spec(), cd))
}

pub fn difference_of_products<S: Float>(a: S, b: S, c: S, d: S) -> (r: S)
    ensures
        r == difference_of_products_spec(a, b, c, d),
{
    let cd = c.mul(d);
    a.mul_add(b, cd.neg()).add(c.mul_add(d.neg(), cd))
}

/// The discriminant `b² - 4ac`.
pub open spec fn discriminant_spec<S: Float>(a: S, b: S, c: S) -> S {
    let four = S::two_spec().mul_spec(S::two_spec());
    difference_of_products_spec(b, b, four.mul_spec(a), c)
}

/// `-1` for a negative value, `1` otherwise.
pub open spec fn sign_spec<S: Num>(b: S) -> S {
    if b.lt_spec(S::zero_spec()) {
        S::one_spec().neg_spec()
    } else {
        S::one_spec()
    }
}

/// The real roots of `a t² + b t + c`, smaller first, by the numerically
/// stable formula `q = -(b + sign(b) sqrt(disc)) / 2`, roots `q / a` and
/// `c / q`; `None` when the discriminant is negative.
pub open spec fn quad_spec<S: Float>(a: S, b: S, c: S) -> Option<A2<S>> {
    let dis = discriminant_spec(a, b, c);
    if dis.lt_spec(S::zero_spec()) {
        None
    } else {
        let q = S::half_spec().neg_spec().mul_spec(sign_spec(b).mul_add_spec(dis.sqrt_spec(), b));
        let t1 = q.div_spec(a);
        let t2 = c.div_spec(q);
        Some(if t1.le_spec(t2) { A2(t1, t2) } else { A2(t2, t1) })
    }
}

/// Solves `a t² + b t + c = 0`.
pub fn quad<S: Float>(a: S, b: S, c: S) -> (r: Option<A2<S>>)
    ensures
        r.is_none() <==> discriminant_spec(a, b, c).lt_spec(S::zero_spec()),
        r == quad_spec(a, b, c),
{
    let four = S::two().mul(S::two());
    let dis = difference_of_products(b, b, four.mul(a), c);
    if dis.lt(S::zero()) {
        return None;
    }
    let sign = if b.lt(S::zero()) {
        S::one().neg()
    } else {
        S::one()
    };
    let q = S::half().neg().mul(sign.mul_add(dis.sqrt(), b));
    let t1 = q.div(a);
    let t2 = c.div(q);
    Some(
        if t1.le(t2) {
            A2(t1, t2)
        } else {
            A2(t2, t1)
        },
    )
}

impl Zero for i32 {
    open spec fn zero_spec() -> i32 {
        0
    }

    fn zero() -> (r: i32) {
        0
    }
}

impl One for i32 {
    open spec fn one_spec() -> i32 {
        1
    }

    fn one() -> (r: i32) {
        1
    }
}

impl Two for i32 {
    open spec fn two_spec() -> i32 {
        2
    }

    fn two() -> (r: i32) {
        2
    }
}

/// Two's-complement arithmetic: the ring of integers modulo 2^32.
impl Num for i32 {
    open spec fn add_spec(self, o: i32) -> i32 {
        self.wrapping_add(o)
    }

    open spec fn sub_spec(self, o: i32) -> i32 {
        self.wrapping_sub(o)
    }

    open spec fn mul_spec(self, o: i32) -> i32 {
        self.wrapping_mul(o)
    }

    open spec fn neg_spec(self) -> i32 {
        0i32.wrapping_sub(self)
    }

    open spec fn le_spec(self, o: i32) -> bool {
        self <= o
    }

    open spec fn lt_spec(self, o: i32) -> bool {
        self < o
    }

    fn add(self, o: i32) -> (r: i32) {
        self.wrapping_add(o)
    }

    fn sub(self, o: i32) -> (r: i32) {
        self.wrapping_sub(o)
    }

    fn mul(self, o: i32) -> (r: i32) {
        self.wrapping_mul(o)
    }

    fn neg(self) -> (r: i32) {
        0i32.wrapping_sub(self)
    }

    fn le(self, o: i32) -> (r: bool) {
        self <= o
    }

    fn lt(self, o: i32) -> (r: bool) {
        self < o
    }

    proof fn le_transitive(a: i32, b: i32, c: i32) {
    }

    proof fn lt_excludes_le(a: i32, b: i32) {
    }
}

} // verus!
