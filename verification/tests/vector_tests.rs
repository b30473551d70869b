use tracer::fixed::Fx;
use tracer::point::Point;
use tracer::vector::Vector;

fn fx(v: f64) -> Fx {
    Fx { raw: (v * 1e9).round() as i64 }
}

fn point(x: f64, y: f64, z: f64) -> Point {
    Point::new(fx(x), fx(y), fx(z))
}

fn vector(x: f64, y: f64, z: f64) -> Vector {
    Vector::new(fx(x), fx(y), fx(z))
}

#[test]
fn magnitude_of_unit_axes_is_one() {
    assert_eq!(vector(1.0, 0.0, 0.0).magnitude(), fx(1.0));
    assert_eq!(vector(0.0, 1.0, 0.0).magnitude(), fx(1.0));
    assert_eq!(vector(0.0, 0.0, 1.0).magnitude(), fx(1.0));
}

#[test]
fn magnitude_of_one_two_three() {
    let m = vector(1.0, 2.0, 3.0).magnitude();
    assert!(m.approx_eq(fx(14.0_f64.sqrt())));
    let n = vector(-1.0, -2.0, -3.0).magnitude();
    assert!(n.approx_eq(fx(14.0_f64.sqrt())));
}

#[test]
fn normalize_scales_to_unit_length() {
    let v = vector(4.0, 0.0, 0.0).normalize();
    assert!(v.approx_eq(&vector(1.0, 0.0, 0.0)));
    let w = vector(1.0, 2.0, 3.0).normalize();
    assert!(w.approx_eq(&vector(0.26726, 0.53452, 0.80178)));
    assert!(w.magnitude().approx_eq(fx(1.0)));
}

#[test]
fn dot_product_of_two_vectors() {
    let a = vector(1.0, 2.0, 3.0);
    let b = vector(2.0, 3.0, 4.0);
    assert_eq!(a.dot_product(&b), fx(20.0));
}

#[test]
fn cross_product_is_anticommutative() {
    let a = vector(1.0, 2.0, 3.0);
    let b = vector(2.0, 3.0, 4.0);
    assert!(a.cross_product(&b).approx_eq(&vector(-1.0, 2.0, -1.0)));
    assert!(b.cross_product(&a).approx_eq(&vector(1.0, -2.0, 1.0)));
}

#[test]
fn reflect_at_forty_five_degrees() {
    let v = vector(1.0, -1.0, 0.0);
    let n = vector(0.0, 1.0, 0.0);
    assert!(v.reflect(&n).approx_eq(&vector(1.0, 1.0, 0.0)));
}

#[test]
fn reflect_off_a_slanted_surface() {
    let s = 2.0_f64.sqrt() / 2.0;
    let v = vector(0.0, -1.0, 0.0);
    let n = vector(s, s, 0.0);
    assert!(v.reflect(&n).approx_eq(&vector(1.0, 0.0, 0.0)));
}

#[test]
fn point_minus_point_is_a_vector() {
    let a = point(3.0, 2.0, 1.0);
    let b = point(5.0, 6.0, 7.0);
    assert!(a.sub(b).approx_eq(&vector(-2.0, -4.0, -6.0)));
}

#[test]
fn point_plus_vector_is_a_point() {
    let p = point(3.0, -2.0, 5.0);
    let v = vector(-2.0, 3.0, 1.0);
    assert!(p.add_vector(v).approx_eq(&point(1.0, 1.0, 6.0)));
}
