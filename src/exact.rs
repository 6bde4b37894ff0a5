//! Two's-complement `i32` arithmetic is the ring of integers modulo 2^32.
//! Over it the composition laws of maps hold with equality, not just up to
//! rounding: applying a composed map is applying its factors in turn.

use vstd::prelude::*;
use vstd::arithmetic::div_mod::{
    lemma_add_mod_noop, lemma_mod_add_multiples_vanish, lemma_mod_sub_multiples_vanish,
    lemma_mul_mod_noop_general, lemma_small_mod, lemma_sub_mod_noop,
};
use crate::affine3::Affine3;
use crate::array::{add3, dot3, A3};
use crate::num::Num;
use crate::rotscale3::{mat_apply, mat_mul, row_times, transpose3, RotScale3, M3};

verus! {

/// The modulus of `i32` arithmetic.
pub open spec fn modulus() -> int {
    0x1_0000_0000
}

/// `x` and `y` leave the same remainder modulo 2^32.
pub open spec fn cong(x: int, y: int) -> bool {
    x % modulus() == y % modulus()
}

proof fn lemma_cong_add(a: int, b: int, x: int, y: int)
    requires
        cong(a, x),
        cong(b, y),
    ensures
        cong(a + b, x + y),
{
    lemma_add_mod_noop(a, b, modulus());
    lemma_add_mod_noop(x, y, modulus());
}

proof fn lemma_cong_mul(a: int, b: int, x: int, y: int)
    requires
        cong(a, x),
        cong(b, y),
    ensures
        cong(a * b, x * y),
{
    lemma_mul_mod_noop_general(a, b, modulus());
    lemma_mul_mod_noop_general(x, y, modulus());
}

/// Each `i32` operation is congruent to the exact integer result.
proof fn lemma_ops_cong(a: i32, b: i32)
    ensures
        cong(a.add_spec(b) as int, a + b),
        cong(a.mul_spec(b) as int, a * b),
{
    let m = modulus();
    lemma_mod_sub_multiples_vanish(a + b, m);
    lemma_mod_add_multiples_vanish(a + b, m);
    let p = a * b;
    let r = p % m;
    lemma_small_mod(r as nat, m as nat);
    lemma_mod_sub_multiples_vanish(r, m);
}

/// Two `i32` values in the same residue class are equal.
proof fn lemma_cong_eq(a: i32, b: i32)
    requires
        cong(a as int, b as int),
    ensures
        a == b,
{
    let m = modulus();
    lemma_sub_mod_noop(a as int, b as int, m);
    let d = a - b;
    assert(d % m == 0);
    assert(-m < d < m);
    assert(d == 0) by (nonlinear_arith)
        requires
            d % m == 0,
            -m < d < m,
            m == 0x1_0000_0000,
    {
    }
}

/// `x.0 * y.0 + x.1 * y.1 + x.2 * y.2` over the integers.
pub open spec fn idot(x: (int, int, int), y: (int, int, int)) -> int {
    x.0 * y.0 + x.1 * y.1 + x.2 * y.2
}

/// The triple of `a` as integers.
pub open spec fn ints(a: A3<i32>) -> (int, int, int) {
    (a.0 as int, a.1 as int, a.2 as int)
}

proof fn lemma_dot_cong(a: A3<i32>, b: A3<i32>, x: (int, int, int), y: (int, int, int))
    requires
        cong(a.0 as int, x.0),
        cong(a.1 as int, x.1),
        cong(a.2 as int, x.2),
        cong(b.0 as int, y.0),
        cong(b.1 as int, y.1),
        cong(b.2 as int, y.2),
    ensures
        cong(dot3(a, b) as int, idot(x, y)),
{
    let m0 = a.0.mul_spec(b.0);
    let m1 = a.1.mul_spec(b.1);
    let m2 = a.2.mul_spec(b.2);
    lemma_ops_cong(a.0, b.0);
    lemma_ops_cong(a.1, b.1);
    lemma_ops_cong(a.2, b.2);
    lemma_cong_mul(a.0 as int, b.0 as int, x.0, y.0);
    lemma_cong_mul(a.1 as int, b.1 as int, x.1, y.1);
    lemma_cong_mul(a.2 as int, b.2 as int, x.2, y.2);
    let s = m0.add_spec(m1);
    lemma_ops_cong(m0, m1);
    lemma_cong_add(m0 as int, m1 as int, x.0 * y.0, x.1 * y.1);
    lemma_ops_cong(s, m2);
    lemma_cong_add(s as int, m2 as int, x.0 * y.0 + x.1 * y.1, x.2 * y.2);
}

proof fn lemma_dot_exact(a: A3<i32>, b: A3<i32>)
    ensures
        cong(dot3(a, b) as int, idot(ints(a), ints(b))),
{
    lemma_dot_cong(a, b, ints(a), ints(b));
}

proof fn lemma_sum3_mul(a: int, b: int, c: int, v: int)
    ensures
        (a + b + c) * v == a * v + b * v + c * v,
{
    assert((a + b + c) * v == a * v + b * v + c * v) by (nonlinear_arith);
}

proof fn lemma_mul_assoc(a: int, b: int, c: int)
    ensures
        (a * b) * c == a * (b * c),
{
    assert((a * b) * c == a * (b * c)) by (nonlinear_arith);
}

/// `Σ_k (Σ_j r_j m_jk) v_k == Σ_j r_j (Σ_k m_jk v_k)` over the integers.
proof fn lemma_regroup(
    r: (int, int, int),
    m: ((int, int, int), (int, int, int), (int, int, int)),
    v: (int, int, int),
)
    ensures
        idot(
            (
                r.0 * m.0.0 + r.1 * m.1.0 + r.2 * m.2.0,
                r.0 * m.0.1 + r.1 * m.1.1 + r.2 * m.2.1,
                r.0 * m.0.2 + r.1 * m.1.2 + r.2 * m.2.2,
            ),
            v,
        ) == idot(r, (idot(m.0, v), idot(m.1, v), idot(m.2, v))),
{
    let (m0, m1, m2) = m;
    lemma_sum3_mul(r.0 * m0.0, r.1 * m1.0, r.2 * m2.0, v.0);
    lemma_sum3_mul(r.0 * m0.1, r.1 * m1.1, r.2 * m2.1, v.1);
    lemma_sum3_mul(r.0 * m0.2, r.1 * m1.2, r.2 * m2.2, v.2);
    lemma_sum3_mul(m0.0 * v.0, m0.1 * v.1, m0.2 * v.2, r.0);
    lemma_sum3_mul(m1.0 * v.0, m1.1 * v.1, m1.2 * v.2, r.1);
    lemma_sum3_mul(m2.0 * v.0, m2.1 * v.1, m2.2 * v.2, r.2);
    assert forall|x: int, y: int| #[trigger] (x * y) == y * x by {
        assert(x * y == y * x) by (nonlinear_arith);
    }
    lemma_mul_assoc(r.0, m0.0, v.0);
    lemma_mul_assoc(r.0, m0.1, v.1);
    lemma_mul_assoc(r.0, m0.2, v.2);
    lemma_mul_assoc(r.1, m1.0, v.0);
    lemma_mul_assoc(r.1, m1.1, v.1);
    lemma_mul_assoc(r.1, m1.2, v.2);
    lemma_mul_assoc(r.2, m2.0, v.0);
    lemma_mul_assoc(r.2, m2.1, v.1);
    lemma_mul_assoc(r.2, m2.2, v.2);
}

/// Multiplying a row by a matrix and then by `v` equals multiplying the row
/// by the product of the matrix and `v`.
proof fn lemma_row_assoc(r: A3<i32>, b: M3<i32>, v: A3<i32>)
    ensures
        dot3(row_times(r, b), v) == dot3(r, mat_apply(b, v)),
{
    let bt = transpose3(b);
    let rx = ints(r);
    let vx = ints(v);
    lemma_dot_exact(r, bt.0);
    lemma_dot_exact(r, bt.1);
    lemma_dot_exact(r, bt.2);
    let c = (idot(rx, ints(bt.0)), idot(rx, ints(bt.1)), idot(rx, ints(bt.2)));
    lemma_dot_cong(row_times(r, b), v, c, vx);
    lemma_dot_exact(b.0, v);
    lemma_dot_exact(b.1, v);
    lemma_dot_exact(b.2, v);
    let d = (idot(ints(b.0), vx), idot(ints(b.1), vx), idot(ints(b.2), vx));
    lemma_dot_cong(r, mat_apply(b, v), rx, d);
    lemma_regroup(rx, (ints(b.0), ints(b.1), ints(b.2)), vx);
    lemma_cong_eq(dot3(row_times(r, b), v), dot3(r, mat_apply(b, v)));
}

/// Applying a product of matrices applies the factors in turn:
/// `(a · b) · v == a · (b · v)`.
pub proof fn lemma_mat_mul_apply(a: M3<i32>, b: M3<i32>, v: A3<i32>)
    ensures
        mat_apply(mat_mul(a, b), v) == mat_apply(a, mat_apply(b, v)),
{
    lemma_row_assoc(a.0, b, v);
    lemma_row_assoc(a.1, b, v);
    lemma_row_assoc(a.2, b, v);
}

/// Component-wise addition is associative.
pub proof fn lemma_add3_assoc(p: A3<i32>, q: A3<i32>, t: A3<i32>)
    ensures
        add3(add3(p, q), t) == add3(p, add3(q, t)),
{
    lemma_add_assoc(p.0, q.0, t.0);
    lemma_add_assoc(p.1, q.1, t.1);
    lemma_add_assoc(p.2, q.2, t.2);
}

proof fn lemma_add_assoc(a: i32, b: i32, c: i32)
    ensures
        a.add_spec(b).add_spec(c) == a.add_spec(b.add_spec(c)),
{
    let ab = a.add_spec(b);
    let bc = b.add_spec(c);
    lemma_ops_cong(a, b);
    lemma_ops_cong(b, c);
    lemma_ops_cong(ab, c);
    lemma_ops_cong(a, bc);
    lemma_cong_add(ab as int, c as int, a + b, c as int);
    lemma_cong_add(a as int, bc as int, a as int, b + c);
    lemma_cong_eq(ab.add_spec(c), a.add_spec(bc));
}

proof fn lemma_dot_add(m: A3<i32>, u: A3<i32>, w: A3<i32>)
    ensures
        dot3(m, add3(u, w)) == dot3(m, u).add_spec(dot3(m, w)),
{
    let (mx, ux, wx) = (ints(m), ints(u), ints(w));
    lemma_ops_cong(u.0, w.0);
    lemma_ops_cong(u.1, w.1);
    lemma_ops_cong(u.2, w.2);
    let sx = (ux.0 + wx.0, ux.1 + wx.1, ux.2 + wx.2);
    lemma_dot_cong(m, add3(u, w), mx, sx);
    lemma_dot_exact(m, u);
    lemma_dot_exact(m, w);
    let (du, dw) = (dot3(m, u), dot3(m, w));
    lemma_ops_cong(du, dw);
    lemma_cong_add(du as int, dw as int, idot(mx, ux), idot(mx, wx));
    assert(idot(mx, sx) == idot(mx, ux) + idot(mx, wx)) by (nonlinear_arith)
        requires
            sx == (ux.0 + wx.0, ux.1 + wx.1, ux.2 + wx.2),
    {
    }
    lemma_cong_eq(dot3(m, add3(u, w)), du.add_spec(dw));
}

/// A matrix distributes over a sum: `m · (u + w) == m · u + m · w`.
pub proof fn lemma_mat_apply_add(m: M3<i32>, u: A3<i32>, w: A3<i32>)
    ensures
        mat_apply(m, add3(u, w)) == add3(mat_apply(m, u), mat_apply(m, w)),
{
    lemma_dot_add(m.0, u, w);
    lemma_dot_add(m.1, u, w);
    lemma_dot_add(m.2, u, w);
}

impl RotScale3<i32> {
    /// Applying a composed map applies its factors in turn.
    pub proof fn lemma_mul_apply(p: RotScale3<i32>, q: RotScale3<i32>, v: A3<i32>)
        ensures
            p.mul_spec(q).apply_spec(v) == p.apply_spec(q.apply_spec(v)),
    {
        if let (RotScale3::Matrix(a), RotScale3::Matrix(b)) = (p, q) {
            lemma_mat_mul_apply(a, b, v);
        }
    }

    /// A linear map distributes over a sum.
    pub proof fn lemma_apply_add(p: RotScale3<i32>, u: A3<i32>, w: A3<i32>)
        ensures
            p.apply_spec(add3(u, w)) == add3(p.apply_spec(u), p.apply_spec(w)),
    {
        if let RotScale3::Matrix(m) = p {
            lemma_mat_apply_add(m, u, w);
        }
    }
}

impl Affine3<i32> {
    /// Applying a composed affine map applies its factors in turn:
    /// `(x · y)(v) == x(y(v))`.
    pub proof fn lemma_mul_apply(x: Affine3<i32>, y: Affine3<i32>, v: A3<i32>)
        ensures
            x.mul_spec(y).apply_spec(v) == x.apply_spec(y.apply_spec(v)),
    {
        RotScale3::lemma_mul_apply(x.r, y.r, v);
        if let Some(yt) = y.t {
            let a = x.r.apply_spec(y.r.apply_spec(v));
            let b = x.r.apply_spec(yt);
            RotScale3::lemma_apply_add(x.r, y.r.apply_spec(v), yt);
            if let Some(xt) = x.t {
                lemma_add3_assoc(a, b, xt);
            }
        }
    }
}

} // verus!
