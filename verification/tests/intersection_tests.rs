use tracer::computation::Computation;
use tracer::fixed::{Fx, EPS_RAW};
use tracer::intersection::{hit, sort_intersections, Intersection};
use tracer::point::Point;
use tracer::ray::Ray;
use tracer::shape::sphere::Sphere;
use tracer::shape::Shape;
use tracer::transformations::{scaling, translation};
use tracer::vector::Vector;

fn fx(v: f64) -> Fx {
    Fx { raw: (v * 1e9).round() as i64 }
}

fn point(x: f64, y: f64, z: f64) -> Point {
    Point::new(fx(x), fx(y), fx(z))
}

fn vector(x: f64, y: f64, z: f64) -> Vector {
    Vector::new(fx(x), fx(y), fx(z))
}

#[test]
fn intersection_encapsulates_t_and_object() {
    let sphere = Sphere::default();
    let ix = Intersection::new(&sphere.get_shape_id(), fx(3.5));
    assert_eq!(ix.t, fx(3.5));
    assert_eq!(sphere.get_shape_id(), ix.shape_id);
}

#[test]
fn all_intersections_have_positive_t() {
    let sphere = Sphere::default();
    let i1 = Intersection::new(&sphere.get_shape_id(), fx(1.0));
    let i2 = Intersection::new(&sphere.get_shape_id(), fx(2.0));
    let mut xs = vec![i1, i2];
    sort_intersections(&mut xs);
    let i = hit(xs).unwrap();
    assert_eq!(i.t, fx(1.0));
}

#[test]
fn some_intersections_have_negative_t() {
    let sphere = Sphere::default();
    let i1 = Intersection::new(&sphere.get_shape_id(), fx(-1.0));
    let i2 = Intersection::new(&sphere.get_shape_id(), fx(1.0));
    let mut xs = vec![i1, i2];
    sort_intersections(&mut xs);
    let i = hit(xs).unwrap();
    assert_eq!(i.t, fx(1.0));
}

#[test]
fn when_all_intersections_have_negative_t() {
    let sphere = Sphere::default();
    let i1 = Intersection::new(&sphere.get_shape_id(), fx(-2.0));
    let i2 = Intersection::new(&sphere.get_shape_id(), fx(-1.0));
    let mut xs = vec![i1, i2];
    sort_intersections(&mut xs);
    assert_eq!(None, hit(xs));
}

#[test]
fn always_the_lowest_nonnegative_intersection() {
    let sphere = Sphere::default();
    let i1 = Intersection::new(&sphere.get_shape_id(), fx(5.0));
    let i2 = Intersection::new(&sphere.get_shape_id(), fx(7.0));
    let i3 = Intersection::new(&sphere.get_shape_id(), fx(-3.0));
    let i4 = Intersection::new(&sphere.get_shape_id(), fx(2.0));
    let mut xs = vec![i1, i2, i3, i4];
    sort_intersections(&mut xs);
    assert_eq!(fx(2.0), hit(xs).unwrap().t);
}

#[test]
fn scaled_sphere_with_ray() {
    let r = Ray::new(point(0.0, 0.0, -5.0), vector(0.0, 0.0, 1.0));
    let mut s = Sphere::default();
    s.set_transform(scaling(fx(2.0), fx(2.0), fx(2.0)));
    let xs = s.intersect(&r);
    assert_ne!(None, xs);
    let xs = xs.unwrap();
    assert_eq!(xs.len(), 2);
    assert_eq!(xs[0], fx(3.0));
    assert_eq!(xs[1], fx(7.0));
}

#[test]
fn translated_sphere_with_ray() {
    let r = Ray::new(point(0.0, 0.0, -5.0), vector(0.0, 0.0, 1.0));
    let mut s = Sphere::default();
    s.set_transform(scaling(fx(5.0), fx(0.0), fx(0.0)));
    let xs = s.intersect(&r);
    assert_eq!(None, xs);
}

#[test]
fn his_offset_point() {
    let r = Ray::new(point(0.0, 0.0, -5.0), vector(0.0, 0.0, 1.0));
    let mut shape = Sphere::default();
    shape.set_transform(translation(fx(0.0), fx(0.0), fx(1.0)));
    let i = Intersection::new(&shape.get_shape_id(), fx(5.0));
    let comps = Computation::new(&r, &i, &Shape::Sphere(shape));
    assert!(comps.over_point.position.z.raw < -(EPS_RAW / 2));
    assert!(comps.point.position.z.raw > comps.over_point.position.z.raw);
}

#[test]
fn sort_keeps_stable_order_on_equal_distances() {
    let a = Intersection::new("first", fx(2.0));
    let b = Intersection::new("second", fx(2.0));
    let c = Intersection::new("third", fx(1.0));
    let mut xs = vec![a, b, c];
    sort_intersections(&mut xs);
    assert_eq!(xs[0].shape_id, "third");
    assert_eq!(xs[1].shape_id, "first");
    assert_eq!(xs[2].shape_id, "second");
}
