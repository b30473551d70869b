use tracer::fixed::Fx;
use tracer::point::Point;
use tracer::ray::Ray;
use tracer::shape::plane::Plane;
use tracer::vector::Vector;

fn fx(v: f64) -> Fx {
    Fx { raw: (v * 1e9).round() as i64 }
}

fn point(x: f64, y: f64, z: f64) -> Point {
    Point::new(fx(x), fx(y), fx(z))
}

fn vector(x: f64, y: f64, z: f64) -> Vector {
    Vector::new(fx(x), fx(y), fx(z))
}

#[test]
fn constant_normal_at() {
    let plane = Plane::default();
    let n1 = plane.local_normal_at(point(0.0, 0.0, 0.0));
    let n2 = plane.local_normal_at(point(10.0, 0.0, -10.0));
    let n3 = plane.local_normal_at(point(-5.0, 0.0, 150.0));
    assert_eq!(n1, vector(0.0, 1.0, 0.0));
    assert_eq!(n2, vector(0.0, 1.0, 0.0));
    assert_eq!(n3, vector(0.0, 1.0, 0.0));
}

#[test]
fn intersect_ray_parallel_to_plane() {
    let plane = Plane::default();
    let r = Ray::new(point(0.0, 10.0, 0.0), vector(0.0, 0.0, 1.0));
    let xs = plane.local_intersect(&r);
    assert_eq!(xs, None);
}

#[test]
fn intersect_coplanar_ray() {
    let plane = Plane::default();
    let r = Ray::new(point(0.0, 0.0, 0.0), vector(0.0, 0.0, 1.0));
    let xs = plane.local_intersect(&r);
    assert_eq!(xs, None);
}

#[test]
fn ray_intersect_plane_from_above() {
    let plane = Plane::default();
    let r = Ray::new(point(0.0, 1.0, 0.0), vector(0.0, -1.0, 1.0));
    let xs = plane.local_intersect(&r).unwrap();
    assert_eq!(xs.len(), 1);
    assert_eq!(xs[0], fx(1.0));
}

#[test]
fn ray_intersect_plane_from_below() {
    let plane = Plane::default();
    let r = Ray::new(point(0.0, -1.0, 0.0), vector(0.0, 1.0, 1.0));
    let xs = plane.local_intersect(&r).unwrap();
    assert_eq!(xs.len(), 1);
    assert_eq!(xs[0], fx(1.0));
}

#[test]
fn plane_world_normal_is_unit_under_identity() {
    let plane = Plane::default();
    let n = plane.normal_at(point(37.0, 0.0, -21.5)).unwrap();
    assert_eq!(n, vector(0.0, 1.0, 0.0));
    assert_eq!(n.magnitude(), fx(1.0));
}
