use geomath::affine3::Affine3;
use geomath::array::{A2, A3};
use geomath::bound::{BBox, B};
use geomath::dim::Dim;
use geomath::frame::Frame;
use geomath::interpolate::{LinearScale, PowerScale, SmoothScale};
use geomath::color::Color;
use geomath::norm2::Norm2;
use geomath::num::{difference_of_products, quad, Epsilon, Float, Half, Inv, Num, One, Two, Zero};
use geomath::ray::R;
use geomath::rotscale3::RotScale3;
use geomath::transform::{TransformConfig, T};
use geomath::vector::{N, P, V};
use geomath::warp::{
    BeckmannHemisphere, CosineHemisphere, UniformCylinder, UniformDisk, UniformHemisphere,
    UniformSphere, UniformTriangle,
};
use std::f64::consts::PI;

/// A 64-bit float as a scalar of the kernel.
#[derive(Clone, Copy, Debug, PartialEq)]
struct Fl(f64);

impl Zero for Fl {
    fn zero_spec() -> Fl {
        Fl(0.0)
    }
    fn zero() -> Fl {
        Fl(0.0)
    }
}

impl One for Fl {
    fn one_spec() -> Fl {
        Fl(1.0)
    }
    fn one() -> Fl {
        Fl(1.0)
    }
}

impl Two for Fl {
    fn two_spec() -> Fl {
        Fl(2.0)
    }
    fn two() -> Fl {
        Fl(2.0)
    }
}

impl Half for Fl {
    fn half_spec() -> Fl {
        Fl(0.5)
    }
    fn half() -> Fl {
        Fl(0.5)
    }
}

impl Inv for Fl {
    fn inv_spec(self) -> Fl {
        Fl(self.0.recip())
    }
    fn inv(self) -> Fl {
        Fl(self.0.recip())
    }
}

impl Epsilon for Fl {
    fn eps_spec() -> Fl {
        Fl(1e-6)
    }
    fn eps() -> Fl {
        Fl(1e-6)
    }
}

impl Num for Fl {
    fn add_spec(self, o: Fl) -> Fl {
        Fl(self.0 + o.0)
    }
    fn sub_spec(self, o: Fl) -> Fl {
        Fl(self.0 - o.0)
    }
    fn mul_spec(self, o: Fl) -> Fl {
        Fl(self.0 * o.0)
    }
    fn neg_spec(self) -> Fl {
        Fl(-self.0)
    }
    fn le_spec(self, o: Fl) -> bool {
        self.0 <= o.0
    }
    fn lt_spec(self, o: Fl) -> bool {
        self.0 < o.0
    }
    fn add(self, o: Fl) -> Fl {
        Fl(self.0 + o.0)
    }
    fn sub(self, o: Fl) -> Fl {
        Fl(self.0 - o.0)
    }
    fn mul(self, o: Fl) -> Fl {
        Fl(self.0 * o.0)
    }
    fn neg(self) -> Fl {
        Fl(-self.0)
    }
    fn le(self, o: Fl) -> bool {
        self.0 <= o.0
    }
    fn lt(self, o: Fl) -> bool {
        self.0 < o.0
    }
    fn le_transitive(_a: Fl, _b: Fl, _c: Fl) {}
    fn lt_excludes_le(_a: Fl, _b: Fl) {}
}

impl Float for Fl {
    fn div_spec(self, o: Fl) -> Fl {
        Fl(self.0 / o.0)
    }
    fn mul_add_spec(self, a: Fl, b: Fl) -> Fl {
        Fl(self.0.mul_add(a.0, b.0))
    }
    fn mul_add(self, a: Fl, b: Fl) -> Fl {
        Fl(self.0.mul_add(a.0, b.0))
    }
    fn sqrt_spec(self) -> Fl {
        Fl(self.0.sqrt())
    }
    fn sin_spec(self) -> Fl {
        Fl(self.0.sin())
    }
    fn cos_spec(self) -> Fl {
        Fl(self.0.cos())
    }
    fn sind_spec(self) -> Fl {
        Fl(self.0.to_radians().sin())
    }
    fn cosd_spec(self) -> Fl {
        Fl(self.0.to_radians().cos())
    }
    fn acos_spec(self) -> Fl {
        Fl(self.0.acos())
    }
    fn atan2_spec(y: Fl, x: Fl) -> Fl {
        Fl(y.0.atan2(x.0))
    }
    fn exp_spec(self) -> Fl {
        Fl(self.0.exp())
    }
    fn ln_spec(self) -> Fl {
        Fl(self.0.ln())
    }
    fn pi_spec() -> Fl {
        Fl(PI)
    }
    fn pos_inf_spec() -> Fl {
        Fl(f64::INFINITY)
    }
    fn neg_inf_spec() -> Fl {
        Fl(f64::NEG_INFINITY)
    }
    fn div(self, o: Fl) -> Fl {
        Fl(self.0 / o.0)
    }
    fn sqrt(self) -> Fl {
        Fl(self.0.sqrt())
    }
    fn sin(self) -> Fl {
        Fl(self.0.sin())
    }
    fn cos(self) -> Fl {
        Fl(self.0.cos())
    }
    fn sind(self) -> Fl {
        Fl(self.0.to_radians().sin())
    }
    fn cosd(self) -> Fl {
        Fl(self.0.to_radians().cos())
    }
    fn acos(self) -> Fl {
        Fl(self.0.acos())
    }
    fn atan2(y: Fl, x: Fl) -> Fl {
        Fl(y.0.atan2(x.0))
    }
    fn exp(self) -> Fl {
        Fl(self.0.exp())
    }
    fn ln(self) -> Fl {
        Fl(self.0.ln())
    }
    fn pi() -> Fl {
        Fl(PI)
    }
    fn pos_inf() -> Fl {
        Fl(f64::INFINITY)
    }
    fn neg_inf() -> Fl {
        Fl(f64::NEG_INFINITY)
    }
    fn pos_inf_is_top(_a: Fl) {}
    fn neg_inf_is_bottom(_a: Fl) {}
}

const EPS: f64 = 1e-9;

fn v3(x: f64, y: f64, z: f64) -> A3<Fl> {
    A3(Fl(x), Fl(y), Fl(z))
}

fn v2(x: f64, y: f64) -> A2<Fl> {
    A2(Fl(x), Fl(y))
}

fn close(a: f64, b: f64) -> bool {
    (a - b).abs() < EPS
}

fn close3(a: A3<Fl>, b: A3<Fl>) -> bool {
    close(a.0 .0, b.0 .0) && close(a.1 .0, b.1 .0) && close(a.2 .0, b.2 .0)
}

fn len3(a: A3<Fl>) -> f64 {
    (a.0 .0 * a.0 .0 + a.1 .0 * a.1 .0 + a.2 .0 * a.2 .0).sqrt()
}

fn grid(n: usize) -> Vec<A2<Fl>> {
    let mut out = Vec::new();
    for i in 0..=n {
        for j in 0..=n {
            out.push(v2(i as f64 / n as f64, j as f64 / n as f64));
        }
    }
    out
}

/// Samples at the centres of an `n` by `n` grid of cells: never on the
/// boundary of the square, where rounding can push a disk sample just
/// outside the unit circle.
fn interior(n: usize) -> Vec<A2<Fl>> {
    let mut out = Vec::new();
    for i in 0..n {
        for j in 0..n {
            out.push(v2((i as f64 + 0.5) / n as f64, (j as f64 + 0.5) / n as f64));
        }
    }
    out
}

fn some_transforms() -> Vec<T<Fl>> {
    vec![
        T::one(),
        T::translate(v3(1.0, -2.0, 0.5)),
        T::scale(v3(1.0, -2.0, 0.5)),
        T::rotate(v3(1.0, -2.0, 0.5), Fl(50.0)),
        T::from_frame(Frame::spher2cart(v2(0.7, 2.1))),
        T::rotate(v3(0.0, 1.0, 1.0), Fl(-130.0)).mul(&T::translate(v3(3.0, 0.0, -1.0))),
    ]
}

fn some_vectors() -> Vec<A3<Fl>> {
    vec![v3(0.0, 0.0, 0.0), v3(1.0, 0.0, 0.0), v3(-3.0, 2.5, 7.0), v3(0.1, -0.2, 0.3)]
}

#[test]
fn rotate_quarter_turn_about_z() {
    let t = T::rotate(v3(0.0, 0.0, 1.0), Fl(90.0));
    let y = t.apply(v3(1.0, 0.0, 0.0));
    assert!(close3(y, v3(0.0, 1.0, 0.0)));
    let inverse = T::rotate(v3(0.0, 0.0, 1.0), Fl(-90.0));
    assert!(close3(inverse.apply(y), v3(1.0, 0.0, 0.0)));
    assert!(close3(t.inverse_apply(y), v3(1.0, 0.0, 0.0)));
}

#[test]
fn round_trip_through_inverse() {
    for t in some_transforms() {
        for v in some_vectors() {
            assert!(close3(t.inverse_apply(t.apply(v)), v));
            assert!(close3(t.apply(t.inverse_apply(v)), v));
        }
    }
}

#[test]
fn round_trip_of_integer_translation_is_exact() {
    let t: T<i32> = T::translate(A3(i32::MAX, -7, 3));
    let v = A3(5, i32::MIN, 0);
    assert_eq!(t.inverse_apply(t.apply(v)), v);
}

#[test]
fn composition_inverts_in_reverse_order() {
    let ts = some_transforms();
    for a in &ts {
        for b in &ts {
            let ab = a.mul(b);
            for v in some_vectors() {
                assert!(close3(ab.inverse_apply(v), b.inverse_apply(a.inverse_apply(v))));
                assert!(close3(ab.apply(v), a.apply(b.apply(v))));
            }
        }
    }
}

#[test]
fn inverse_swaps_halves() {
    let t = T::translate(v3(1.0, 2.0, 3.0));
    let v = v3(0.5, 0.5, 0.5);
    assert_eq!(t.inv().apply(v), t.inverse_apply(v));
    assert_eq!(t.inv().inverse_apply(v), t.apply(v));
    assert_eq!(t.inv().inv(), t);
}

#[test]
fn product_applies_first_transform_first() {
    let ts = [T::translate(v3(1.0, 0.0, 0.0)), T::scale(v3(2.0, 2.0, 2.0))];
    let p = T::product(&ts);
    assert_eq!(p.apply(v3(0.0, 0.0, 0.0)), v3(2.0, 0.0, 0.0));
    assert_eq!(p.inverse_apply(v3(2.0, 0.0, 0.0)), v3(0.0, 0.0, 0.0));
    let none: [T<Fl>; 0] = [];
    assert_eq!(T::product(&none), T::one());
}

#[test]
fn normal_and_vector_diverge_under_nonuniform_scale() {
    let t = T::scale(v3(2.0, 1.0, 1.0));
    let v = t.apply_v(V(v3(1.0, 1.0, 0.0)));
    assert_eq!(v, V(v3(2.0, 1.0, 0.0)));
    let n = t.apply_n(N::from_v(V(v3(1.0, 1.0, 0.0))));
    let expected = N::from_v(V(v3(1.0, 2.0, 0.0)));
    assert!(close3(n.0, expected.0));
    assert!(!close3(n.0, V(v.0).unit().0));
}

#[test]
fn vectors_ignore_translation_points_do_not() {
    let t = T::translate(v3(1.0, 2.0, 3.0));
    assert_eq!(t.apply_v(V(v3(1.0, 1.0, 1.0))), V(v3(1.0, 1.0, 1.0)));
    assert_eq!(t.apply_p(P(v3(1.0, 1.0, 1.0))), P(v3(2.0, 3.0, 4.0)));
    assert_eq!(t.inverse_apply_p(P(v3(2.0, 3.0, 4.0))), P(v3(1.0, 1.0, 1.0)));
    assert_eq!(t.inverse_apply_v(V(v3(1.0, 1.0, 1.0))), V(v3(1.0, 1.0, 1.0)));
}

#[test]
fn inverse_normal_uses_forward_transpose() {
    let t = T::scale(v3(2.0, 1.0, 1.0));
    let n = t.inverse_apply_n(N::from_v(V(v3(1.0, 1.0, 0.0))));
    assert!(close3(n.0, N::from_v(V(v3(2.0, 1.0, 0.0))).0));
}

#[test]
fn identity_is_unit_of_composition() {
    let m: RotScale3<i32> = RotScale3::from_rows(A3(1, 2, 3), A3(4, 5, 6), A3(7, 8, 10));
    let one = RotScale3::one();
    assert_eq!(one.mul(&m), m);
    assert_eq!(m.mul(&one), m);
    assert_eq!(one.mul(&one), RotScale3::Identity);
    assert_eq!(one.t(), RotScale3::Identity);
}

#[test]
fn matrix_product_is_standard() {
    let a: RotScale3<i32> = RotScale3::from_rows(A3(1, 2, 0), A3(0, 1, 0), A3(0, 0, 1));
    let b: RotScale3<i32> = RotScale3::from_rows(A3(1, 0, 0), A3(3, 1, 0), A3(0, 0, 2));
    let ab = RotScale3::from_rows(A3(7, 2, 0), A3(3, 1, 0), A3(0, 0, 2));
    assert_eq!(a.mul(&b), ab);
    assert_eq!(ab.apply(A3(1, 1, 1)), a.apply(b.apply(A3(1, 1, 1))));
}

#[test]
fn transpose_and_columns() {
    let m: RotScale3<i32> = RotScale3::from_cols(A3(1, 2, 3), A3(4, 5, 6), A3(7, 8, 9));
    assert_eq!(m, RotScale3::from_rows(A3(1, 4, 7), A3(2, 5, 8), A3(3, 6, 9)));
    assert_eq!(m.t(), RotScale3::from_rows(A3(1, 2, 3), A3(4, 5, 6), A3(7, 8, 9)));
    assert_eq!(m.t().t(), m);
    assert_eq!(m.apply(A3(1, 0, 0)), A3(1, 2, 3));
}

#[test]
fn scale_is_diagonal() {
    let m: RotScale3<i32> = RotScale3::scale(A3(2, 3, 4));
    assert_eq!(m, RotScale3::from_rows(A3(2, 0, 0), A3(0, 3, 0), A3(0, 0, 4)));
    assert_eq!(m.apply(A3(1, 1, 1)), A3(2, 3, 4));
}

#[test]
fn affine_composition_translates_after_linear() {
    let a: Affine3<i32> = Affine3::new(RotScale3::scale(A3(2, 2, 2)), Some(A3(1, 0, 0)));
    let b: Affine3<i32> = Affine3::translate(A3(0, 1, 0));
    let ab = a.mul(&b);
    assert_eq!(ab.t, Some(A3(1, 2, 0)));
    assert_eq!(ab.apply(A3(1, 1, 1)), A3(3, 4, 2));
    let c: Affine3<i32> = Affine3::scale(A3(3, 3, 3));
    assert_eq!(a.mul(&c).t, Some(A3(1, 0, 0)));
    assert_eq!(c.mul(&c).t, None);
    assert_eq!(a.rot(), Affine3::new(a.r, None));
    assert_eq!(Affine3::one().mul(&a), a);
}

#[test]
fn look_at_builds_camera_basis() {
    let t = T::look_at(P(v3(1.0, -2.0, 0.5)), P(v3(100.0, 4.0, -10.0)), V(v3(0.0, 1.0, 1.0)));
    let d = V(v3(99.0, 6.0, -10.5)).unit().0;
    assert!(close3(t.apply(v3(0.0, 0.0, 1.0)), A3(Fl(d.0 .0 + 1.0), Fl(d.1 .0 - 2.0), Fl(d.2 .0 + 0.5))));
    assert!(close3(t.apply_v(V(v3(0.0, 0.0, 1.0))).0, d));
    assert!(close(len3(t.apply_v(V(v3(1.0, 0.0, 0.0))).0), 1.0));
    let v = v3(3.0, 4.0, 5.0);
    assert_eq!(t.inverse_apply(v), v);
}

#[test]
fn look_at_matrix_columns() {
    let m = RotScale3::look_at(v3(0.0, 0.0, 2.0), v3(0.0, 1.0, 0.0));
    assert!(close3(m.apply(v3(1.0, 0.0, 0.0)), v3(1.0, 0.0, 0.0)));
    assert!(close3(m.apply(v3(0.0, 1.0, 0.0)), v3(0.0, 1.0, 0.0)));
    assert!(close3(m.apply(v3(0.0, 0.0, 1.0)), v3(0.0, 0.0, 1.0)));
}

#[test]
fn from_frame_is_orthonormal_around_normal() {
    for n in [v3(0.0, 0.0, 1.0), v3(1.0, 0.0, 0.0), V(v3(0.3, -0.8, 0.2)).unit().0] {
        let m = RotScale3::from_frame(n);
        assert!(close3(m.apply(v3(0.0, 0.0, 1.0)), n));
        let c1 = m.apply(v3(1.0, 0.0, 0.0));
        let c2 = m.apply(v3(0.0, 1.0, 0.0));
        assert!(close(len3(c1), 1.0));
        assert!(close(len3(c2), 1.0));
        assert!(close(A3::dot(c1, c2).0, 0.0));
        assert!(close(A3::dot(c1, n).0, 0.0));
        let t = T::from_frame(n);
        assert!(close3(t.inverse_apply(n), v3(0.0, 0.0, 1.0)));
    }
}

#[test]
fn disk_maps_corners_to_circle() {
    let s = 0.5f64.sqrt();
    assert!(close(UniformDisk::warp(v2(0.0, 0.0)).0 .0, -s));
    assert!(close(UniformDisk::warp(v2(0.0, 0.0)).1 .0, -s));
    let angle = |p: A2<Fl>| p.1 .0.atan2(p.0 .0);
    assert!(close(angle(UniformDisk::warp(v2(0.0, 0.0))), 5.0 * PI / 4.0 - 2.0 * PI));
    assert!(close(angle(UniformDisk::warp(v2(1.0, 0.0))), -PI / 4.0));
    assert!(close(angle(UniformDisk::warp(v2(0.0, 1.0))), 3.0 * PI / 4.0));
    assert!(close(angle(UniformDisk::warp(v2(1.0, 1.0))), PI / 4.0));
    for c in [v2(0.0, 0.0), v2(1.0, 0.0), v2(0.0, 1.0), v2(1.0, 1.0)] {
        let p = UniformDisk::warp(c);
        assert!(close(A2::dot(p, p).0, 1.0));
    }
    assert_eq!(UniformDisk::warp(v2(0.5, 0.5)), v2(0.0, 0.0));
    for s in grid(20) {
        let p = UniformDisk::warp(s);
        assert!(A2::dot(p, p).0 <= 1.0 + EPS);
    }
    assert!(close(UniformDisk::pdf::<Fl>().0, 1.0 / PI));
}

#[test]
fn cosine_hemisphere_is_unit_and_upper() {
    for s in interior(40) {
        let v = CosineHemisphere::warp(s);
        assert!(close(len3(v), 1.0));
        assert!(v.2 .0 >= 0.0);
    }
    assert!(close(CosineHemisphere::pdf(v3(0.0, 0.0, 1.0)).0, 1.0 / PI));
}

#[test]
fn cosine_hemisphere_pdf_integrates_to_one() {
    let n = 400;
    let (dt, dp) = (PI / 2.0 / n as f64, 2.0 * PI / n as f64);
    let mut sum = 0.0;
    for i in 0..n {
        for j in 0..n {
            let theta = (i as f64 + 0.5) * dt;
            let phi = (j as f64 + 0.5) * dp;
            let v = Frame::spher2cart(v2(theta, phi));
            sum += CosineHemisphere::pdf(v).0 * theta.sin() * dt * dp;
        }
    }
    assert!((sum - 1.0).abs() < 1e-4);
}

#[test]
fn triangle_samples_stay_in_triangle() {
    for s in grid(25) {
        let b = UniformTriangle::warp(s);
        assert!(b.0 .0 >= 0.0 && b.1 .0 >= 0.0 && b.0 .0 + b.1 .0 <= 1.0);
    }
    assert_eq!(UniformTriangle::warp(v2(0.2, 0.6)), v2(0.1, 0.5));
    assert_eq!(UniformTriangle::warp(v2(0.6, 0.2)), v2(0.5, 0.1));
    assert_eq!(UniformTriangle::pdf::<Fl>(), Fl(2.0));
}

#[test]
fn cylinder_sphere_hemisphere_warps() {
    assert!(close3(UniformCylinder::warp(v2(0.0, 0.25)), v3(0.0, 1.0, -1.0)));
    assert!(close3(UniformCylinder::warp(v2(1.0, 0.5)), v3(-1.0, 0.0, 1.0)));
    assert!(close3(UniformSphere::warp(v2(0.5, 0.0)), v3(1.0, 0.0, 0.0)));
    for s in grid(20) {
        let c = UniformCylinder::warp(s);
        assert!(close(c.0 .0 * c.0 .0 + c.1 .0 * c.1 .0, 1.0));
        assert!(close(len3(UniformSphere::warp(s)), 1.0));
        let h = UniformHemisphere::warp(s);
        assert!(close(len3(h), 1.0) && h.2 .0 >= 0.0);
    }
    assert!(close(UniformCylinder::pdf::<Fl>().0, 1.0 / (4.0 * PI)));
    assert!(close(UniformSphere::pdf::<Fl>().0, 1.0 / (4.0 * PI)));
    assert!(close(UniformHemisphere::pdf::<Fl>().0, 1.0 / (2.0 * PI)));
}

#[test]
fn beckmann_warp_and_pdf() {
    let alpha = Fl(0.5);
    for s in grid(10) {
        if s.0 .0 < 1.0 {
            let v = BeckmannHemisphere::warp(s, alpha);
            assert!(close(len3(v), 1.0) && v.2 .0 > 0.0);
        }
    }
    assert!(close3(BeckmannHemisphere::warp(v2(0.0, 0.3), alpha), v3(0.0, 0.0, 1.0)));
    assert!(close(BeckmannHemisphere::pdf(v3(0.0, 0.0, 1.0), alpha).0, 4.0 / PI));
    let ct: f64 = 0.8;
    let t2 = (1.0 - ct * ct) / (ct * ct);
    let expected = (-t2 / 0.25).exp() / (PI * 0.25 * ct * ct * ct);
    let v = v3((1.0 - ct * ct).sqrt(), 0.0, ct);
    assert!(close(BeckmannHemisphere::pdf(v, alpha).0, expected));
}

#[test]
fn frame_trigonometry() {
    let v = v3(0.6, 0.0, 0.8);
    assert_eq!(Frame::ct(v), Fl(0.8));
    assert!(close(Frame::c2t(v).0, 0.64));
    assert!(close(Frame::s2t(v).0, 0.36));
    assert!(close(Frame::st(v).0, 0.6));
    assert!(close(Frame::tt(v).0, 0.75));
    assert!(close(Frame::t2t(v).0, 0.5625));
    assert_eq!(Frame::s2t(v3(0.0, 0.0, 1.5)), Fl(0.0));
    assert!(Frame::tt(v3(1.0, 0.0, 0.0)).0.is_infinite());
    assert_eq!(Frame::reflect(v3(1.0, -2.0, 3.0)), v3(-1.0, 2.0, 3.0));
    assert!(Frame::same_hemisphere(v3(0.0, 0.0, 1.0), v3(1.0, 0.0, 0.0)));
    assert!(!Frame::same_hemisphere(v3(0.0, 0.0, 1.0), v3(0.0, 0.1, -1.0)));
}

#[test]
fn spherical_coordinates() {
    let a = Frame::cart2spher(v3(0.0, -1.0, 0.0));
    assert!(close(a.0 .0, PI / 2.0));
    assert!(close(a.1 .0, 3.0 * PI / 2.0));
    let a = Frame::cart2spher(v3(0.0, 0.0, 1.0));
    assert!(close(a.0 .0, 0.0) && close(a.1 .0, 0.0));
    let v = V(v3(0.3, -0.5, 0.7)).unit().0;
    let back = Frame::spher2cart(Frame::cart2spher(v));
    assert!(close3(back, v));
    assert!(close3(Frame::spher2cart(v2(PI / 2.0, PI / 2.0)), v3(0.0, 1.0, 0.0)));
}

#[test]
fn empty_interval_is_union_identity() {
    let e: B<Fl> = B::zero();
    assert!(e.degen());
    for b in [B::b(Fl(-1.0), Fl(1.0)), B::b(Fl(2.0), Fl(2.0)), B::b(Fl(3.0), Fl(-3.0))] {
        assert_eq!(e.union(b), b);
    }
    assert_eq!(e.union_point(Fl(4.0)), B::point(Fl(4.0)));
}

#[test]
fn degenerate_interval_bounds_nothing() {
    let b = B::b(Fl(1.0), Fl(-1.0));
    assert!(b.degen());
    for t in [-2.0, -1.0, 0.0, 1.0, 2.0] {
        assert!(!b.bounds(Fl(t)));
    }
    let i: B<i32> = B::b(3, 2);
    assert!(i.degen() && !i.bounds(2) && !i.bounds(3));
    let ok: B<i32> = B::b(-1, 1);
    assert!(!ok.degen() && ok.bounds(-1) && ok.bounds(1) && !ok.bounds(2));
}

#[test]
fn interval_arithmetic() {
    let b: B<i32> = B::b(-1, 3);
    assert_eq!(b.extent(), 4);
    assert_eq!(b.union(B::b(0, 5)), B::b(-1, 5));
    assert_eq!(b.intersect(B::b(0, 5)), B::b(0, 3));
    assert!(b.intersect(B::b(4, 5)).degen());
    assert_eq!(b.mul(-2), B::b(-6, 2));
    assert_eq!(b.add(B::b(1, 1)), B::b(0, 4));
    assert_eq!(b.shift(2), B::b(1, 5));
    assert_eq!(b.unshift(2), B::b(-3, 1));
    assert_eq!(B::ordered(A2(5, 1)), B::b(1, 5));
    let f = B::b(Fl(-1.0), Fl(3.0));
    assert_eq!(f.center(), Fl(1.0));
    assert_eq!(f.div(Fl(-2.0)), B::b(Fl(-1.5), Fl(0.5)));
}

#[test]
fn box_operations() {
    let a: BBox<i32> = BBox(A3(B::b(-1, 1), B::b(2, 10), B::b(0, 1)));
    assert_eq!(a.get(Dim::Y), B::b(2, 10));
    assert_eq!(a.extents(), A3(2, 8, 1));
    assert_eq!(a.max_extent(), (8, Dim::Y));
    let b: BBox<i32> = BBox(A3(B::b(0, 3), B::b(0, 3), B::b(0, 3)));
    assert_eq!(a.union(&b), BBox(A3(B::b(-1, 3), B::b(0, 10), B::b(0, 3))));
    assert_eq!(a.intersect(&b), BBox(A3(B::b(0, 1), B::b(2, 3), B::b(0, 1))));
    assert_eq!(b.union_point(P(A3(5, -1, 1))), BBox(A3(B::b(0, 5), B::b(-1, 3), B::b(0, 3))));
    let e: BBox<Fl> = BBox::zero();
    let p = e.union_point(P(v3(1.0, 2.0, 3.0)));
    assert_eq!(p.center(), P(v3(1.0, 2.0, 3.0)));
}

#[test]
fn interpolation_and_balance() {
    let a = v2(2.0, 6.0);
    assert_eq!(LinearScale::interp(a, Fl(0.25)), Fl(3.0));
    assert_eq!(SmoothScale::interp(a, Fl(0.5)), Fl(4.0));
    assert_eq!(SmoothScale::interp(a, Fl(1.0)), Fl(6.0));
    assert_eq!(LinearScale::balance(v2(1.0, 3.0)), Fl(0.25));
    assert_eq!(LinearScale::balance2(Fl(1.0), Fl(3.0)), Fl(0.25));
    assert_eq!(PowerScale::balance(v2(1.0, 3.0)), Fl(0.1));
    assert_eq!(PowerScale::balance2(Fl(1.0), Fl(3.0)), Fl(0.1));
}

#[test]
fn vectors_points_normals() {
    let x = V(v3(1.0, 0.0, 0.0));
    let y = V(v3(0.0, 1.0, 0.0));
    assert_eq!(x.cross(y), V(v3(0.0, 0.0, 1.0)));
    assert_eq!(V(v3(3.0, 4.0, 0.0)).norm(), Fl(5.0));
    assert_eq!(V(v3(3.0, 4.0, 0.0)).norm2(), Fl(25.0));
    assert_eq!(V(v3(3.0, 4.0, 0.0)).unit(), V(v3(0.6, 0.8, 0.0)));
    assert_eq!(P(v3(1.0, 1.0, 1.0)).sub(P(v3(0.0, 1.0, 2.0))), V(v3(1.0, 0.0, -1.0)));
    assert_eq!(P(v3(1.0, 1.0, 1.0)).add(x), P(v3(2.0, 1.0, 1.0)));
    assert_eq!(N::from_v(V(v3(0.0, 0.0, -2.0))).neg(), N(v3(0.0, 0.0, 1.0)));
    assert_eq!(x.add(y).sub(x).neg().scale(Fl(2.0)), V(v3(0.0, -2.0, 0.0)));
}

#[test]
fn axes_and_basis() {
    assert_eq!(Dim::X.index(), 0);
    assert_eq!(Dim::Z.index(), 2);
    assert_eq!(A3::<i32>::basis(Dim::Y), A3(0, 1, 0));
    assert_eq!(A3(4, 5, 6).get(Dim::Z), 6);
    assert_eq!(A2(1, 2).flip(), A2(2, 1));
    assert_eq!(A3::a2a(A2(1, 2), 3), A3(1, 2, 3));
    assert_eq!(A3::dot(A3(1, 2, 3), A3(4, 5, 6)), 32);
}

#[test]
fn integer_scalar_wraps() {
    assert_eq!(i32::MAX.add(1), i32::MIN);
    assert_eq!(i32::MIN.neg(), i32::MIN);
    assert_eq!(3i32.mul(-4), -12);
    assert!(2i32.lt(3) && 3i32.le(3) && !3i32.lt(3));
}

#[test]
fn rays() {
    let r = R::p2(P(v3(1.0, 1.0, 1.0)), P(v3(1.0, 4.0, 5.0)));
    assert_eq!(r.d, V(v3(0.0, 0.6, 0.8)));
    assert_eq!(r.t, Fl(5.0));
    assert_eq!(r.at(Fl(5.0)), P(v3(1.0, 4.0, 5.0)));
    assert_eq!(r.clipped(Fl(2.0)).t, Fl(2.0));
    let range = r.range();
    assert!(range.bounds(Fl(2.5)) && !range.bounds(Fl(0.0)) && !range.bounds(Fl(5.0)));
    let u = R::unbounded(P(v3(0.0, 0.0, 0.0)), V(v3(0.0, 0.0, 3.0)));
    assert_eq!(u.d, V(v3(0.0, 0.0, 1.0)));
    assert!(u.t.0.is_infinite());
    let t = T::translate(v3(1.0, 0.0, 0.0));
    let moved = r.transformed(&t);
    assert_eq!(moved.o, P(v3(2.0, 1.0, 1.0)));
    assert_eq!(moved.d, r.d);
    assert_eq!(moved.inverse_transformed(&t), r);
}

#[test]
fn plane_normalization() {
    let n: Norm2<i32> = Norm2::scale(A2(2, 3)).mul(&Norm2::translate(A2(1, -1)));
    assert_eq!(n, Norm2::new(A2(2, 3), A2(2, -3)));
    assert_eq!(n.apply(A2(0, 0)), A2(2, -3));
    assert_eq!(n.apply(A2(1, 1)), A2(4, 0));
    assert_eq!(Norm2::one().mul(&n), n);
}

#[test]
fn colors() {
    let c: Color<i32> = Color::rgb(A3(1, 5, 3));
    assert_eq!(c.max_channel(), 5);
    assert_eq!(Color::gray(2).to_rgb(), A3(2, 2, 2));
    assert_eq!(c.add(Color::gray(1)), Color(A3(2, 6, 4)));
    assert_eq!(c.mul(Color::gray(2)), c.scale(2));
}

#[test]
fn box_under_transform() {
    let b = BBox(A3(B::b(Fl(0.0), Fl(1.0)), B::b(Fl(0.0), Fl(2.0)), B::b(Fl(-1.0), Fl(1.0))));
    let t = T::scale(v3(2.0, -1.0, 1.0)).mul(&T::translate(v3(1.0, 0.0, 0.0)));
    let image = t.apply_box(&b);
    assert_eq!(image, BBox(A3(B::b(Fl(2.0), Fl(4.0)), B::b(Fl(-2.0), Fl(0.0)), B::b(Fl(-1.0), Fl(1.0)))));
    let back = t.inverse_apply_box(&image);
    assert_eq!(back, b);
    let r = T::rotate(v3(0.0, 0.0, 1.0), Fl(45.0));
    let turned = r.apply_box(&BBox(A3(B::b(Fl(-1.0), Fl(1.0)), B::b(Fl(-1.0), Fl(1.0)), B::b(Fl(0.0), Fl(0.0)))));
    let s = 2.0f64.sqrt();
    assert!(close(turned.0 .0 .0 .1 .0, s) && close(turned.0 .1 .0 .0 .0, -s));
    let i: BBox<i32> = BBox(A3(B::b(0, 1), B::b(0, 1), B::b(0, 1)));
    assert_eq!(i.shift(P(A3(1, 2, 3))), BBox(A3(B::b(1, 2), B::b(2, 3), B::b(3, 4))));
    assert_eq!(i.scale(V(A3(-2, 1, 3))), BBox(A3(B::b(-2, 0), B::b(0, 1), B::b(0, 3))));
}

#[test]
fn quadratic_roots() {
    let r = quad(Fl(1.0), Fl(-3.0), Fl(2.0)).unwrap();
    assert!(close(r.0 .0, 1.0) && close(r.1 .0, 2.0));
    let r = quad(Fl(-1.0), Fl(0.0), Fl(4.0)).unwrap();
    assert!(close(r.0 .0, -2.0) && close(r.1 .0, 2.0));
    assert!(quad(Fl(1.0), Fl(0.0), Fl(1.0)).is_none());
    let d = quad(Fl(1.0), Fl(2.0), Fl(1.0)).unwrap();
    assert!(close(d.0 .0, -1.0) && close(d.1 .0, -1.0));
    assert_eq!(difference_of_products(Fl(3.0), Fl(4.0), Fl(2.0), Fl(5.0)), Fl(2.0));
}

#[test]
fn transforms_from_descriptions() {
    let v = v3(1.0, -2.0, 0.5);
    assert_eq!(TransformConfig::Translate(v).to_transform(), T::translate(v));
    assert_eq!(TransformConfig::Scale(v).to_transform(), T::scale(v));
    assert_eq!(TransformConfig::Rotate { axis: v, angle: Fl(50.0) }.to_transform(), T::rotate(v, Fl(50.0)));
    let (pos, target, up) = (P(v), P(v3(100.0, 4.0, -10.0)), V(v3(0.0, 1.0, 1.0)));
    assert_eq!(TransformConfig::LookAt { pos, target, up }.to_transform(), T::look_at(pos, target, up));
}

#[test]
fn integer_composition_is_exact() {
    let a: T<i32> = T::translate(A3(1, 2, 3)).mul(&T::translate(A3(i32::MAX, 0, -4)));
    let b: T<i32> = T::translate(A3(-9, 7, i32::MIN));
    let ab = a.mul(&b);
    let v = A3(11, -12, 13);
    assert_eq!(ab.apply(v), a.apply(b.apply(v)));
    assert_eq!(ab.inverse_apply(v), b.inverse_apply(a.inverse_apply(v)));
    assert_eq!(ab.inverse_apply(ab.apply(v)), v);
    let p = T::product(&[a, b, a]);
    assert_eq!(p.inverse_apply(p.apply(v)), v);
    assert_eq!(p.apply(v), a.apply(b.apply(a.apply(v))));
}
