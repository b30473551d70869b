use tracer::fixed::Fx;
use tracer::material::Material;
use tracer::matrice::Matrice;
use tracer::point::Point;
use tracer::ray::Ray;
use tracer::shape::sphere::Sphere;
use tracer::transformations::{rotation_z, scaling, translation};
use tracer::vector::Vector;

fn fx(v: f64) -> Fx {
    Fx { raw: (v * 1e9).round() as i64 }
}

fn point(x: f64, y: f64, z: f64) -> Point {
    Point::new(fx(x), fx(y), fx(z))
}

fn vector(x: f64, y: f64, z: f64) -> Vector {
    Vector::new(fx(x), fx(y), fx(z))
}

#[test]
fn ray_intersects_sphere_at_two_points() {
    let r = Ray::new(point(0.0, 0.0, -5.0), vector(0.0, 0.0, 1.0));
    let s = Sphere::default();
    let xs = s.intersect(&r).unwrap();
    assert_eq!(xs.len(), 2);
    assert_eq!(xs[0], fx(4.0));
    assert_eq!(xs[1], fx(6.0));
}

#[test]
fn ray_intersects_sphere_at_tangent() {
    let r = Ray::new(point(0.0, 1.0, -5.0), vector(0.0, 0.0, 1.0));
    let s = Sphere::default();
    let xs = s.intersect(&r).unwrap();
    assert_eq!(xs.len(), 2);
    assert_eq!(xs[0], fx(5.0));
    assert_eq!(xs[1], fx(5.0));
}

#[test]
fn ray_misses_sphere() {
    let r = Ray::new(point(0.0, 2.0, -5.0), vector(0.0, 0.0, 1.0));
    let s = Sphere::default();
    let xs = s.intersect(&r);
    assert_eq!(xs, None);
}

#[test]
fn ray_originates_inside_sphere() {
    let r = Ray::new(point(0.0, 0.0, 0.0), vector(0.0, 0.0, 1.0));
    let s = Sphere::default();
    let xs = s.intersect(&r).unwrap();
    assert_eq!(xs.len(), 2);
    assert_eq!(xs[0], fx(-1.0));
    assert_eq!(xs[1], fx(1.0));
}

#[test]
fn sphere_behind_ray() {
    let r = Ray::new(point(0.0, 0.0, 5.0), vector(0.0, 0.0, 1.0));
    let s = Sphere::default();
    let xs = s.intersect(&r).unwrap();
    assert_eq!(xs.len(), 2);
    assert_eq!(xs[0], fx(-6.0));
    assert_eq!(xs[1], fx(-4.0));
}

#[test]
fn default_transformation() {
    let s = Sphere::default();
    assert_eq!(*s.get_transform(), Matrice::identity_matrix(4));
}

#[test]
fn change_sphere_transformation() {
    let mut s = Sphere::default();
    let t = translation(fx(2.0), fx(3.0), fx(4.0));
    s.set_transform(t.clone());
    assert_eq!(*s.get_transform(), t);
}

#[test]
fn sphere_default_material() {
    let s = Sphere::default();
    assert_eq!(*s.get_material(), Material::default());
}

#[test]
fn material_assigned() {
    let mut s = Sphere::default();
    let mut m = Material::default();
    m.ambient = fx(1.0);
    s.set_material(m.clone());
    assert_eq!(*s.get_material(), m);
}

#[test]
fn shape_identity_has_uuid_shape() {
    let s = Sphere::default();
    assert_eq!(s.get_shape_id().len(), 36);
    let other = Sphere::default();
    assert_ne!(s.get_shape_id(), other.get_shape_id());
}

#[test]
fn on_x_axis() {
    let s = Sphere::default();
    let n = s.normal_at(point(1.0, 0.0, 0.0)).unwrap();
    assert!(n.approx_eq(&vector(1.0, 0.0, 0.0)));
}

#[test]
fn on_y_axis() {
    let s = Sphere::default();
    let n = s.normal_at(point(0.0, 1.0, 0.0)).unwrap();
    assert!(n.approx_eq(&vector(0.0, 1.0, 0.0)));
}

#[test]
fn z_axis() {
    let s = Sphere::default();
    let n = s.normal_at(point(0.0, 0.0, 1.0)).unwrap();
    assert!(n.approx_eq(&vector(0.0, 0.0, 1.0)));
}

#[test]
fn on_nonaxial() {
    let c = 3.0_f64.sqrt() / 3.0;
    let s = Sphere::default();
    let n = s.normal_at(point(c, c, c)).unwrap();
    assert!(n.approx_eq(&vector(c, c, c)));
}

#[test]
fn is_normalized() {
    let c = 3.0_f64.sqrt() / 3.0;
    let s = Sphere::default();
    let n = s.normal_at(point(c, c, c)).unwrap();
    assert!(n.approx_eq(&n.normalize()));
}

#[test]
fn translated_sphere() {
    let frac = std::f64::consts::FRAC_1_SQRT_2;
    let mut s = Sphere::default();
    s.set_transform(translation(fx(0.0), fx(1.0), fx(0.0)));
    let n = s.normal_at(point(0.0, 1.70711, -frac)).unwrap();
    assert!(n.approx_eq(&vector(0.0, frac, -frac)));
}

#[test]
fn transformed_sphere() {
    let angle = std::f64::consts::PI / 5.0;
    let mut s = Sphere::default();
    let m = scaling(fx(1.0), fx(0.5), fx(1.0)).mul(&rotation_z(fx(angle.cos()), fx(angle.sin())));
    s.set_transform(m);
    let n = s
        .normal_at(point(0.0, 2.0_f64.sqrt() / 2.0, -(2.0_f64.sqrt() / 2.0)))
        .unwrap();
    assert!(n.approx_eq(&vector(0.0, 0.97014, -0.24254)));
}

#[test]
fn degenerate_transform_yields_no_intersection() {
    let r = Ray::new(point(0.0, 0.0, -5.0), vector(0.0, 0.0, 1.0));
    let mut s = Sphere::default();
    s.set_transform(scaling(fx(0.0), fx(0.0), fx(0.0)));
    assert_eq!(s.intersect(&r), None);
    assert_eq!(s.normal_at(point(1.0, 0.0, 0.0)), None);
}
