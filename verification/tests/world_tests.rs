use tracer::color::Color;
use tracer::computation::Computation;
use tracer::consts::black;
use tracer::fixed::Fx;
use tracer::intersection::Intersection;
use tracer::light::Light;
use tracer::point::Point;
use tracer::ray::Ray;
use tracer::shape::sphere::Sphere;
use tracer::shape::Shape;
use tracer::transformations::translation;
use tracer::vector::Vector;
use tracer::world::World;

fn fx(v: f64) -> Fx {
    Fx { raw: (v * 1e9).round() as i64 }
}

fn point(x: f64, y: f64, z: f64) -> Point {
    Point::new(fx(x), fx(y), fx(z))
}

fn vector(x: f64, y: f64, z: f64) -> Vector {
    Vector::new(fx(x), fx(y), fx(z))
}

fn color(r: f64, g: f64, b: f64) -> Color {
    Color::new(fx(r), fx(g), fx(b))
}

#[test]
fn intersect_world_with_ray() {
    let w = World::default();
    let r = Ray::new(point(0.0, 0.0, -5.0), vector(0.0, 0.0, 1.0));
    let xs = w.intersect(&r).unwrap();
    assert_eq!(xs.len(), 4);
    assert_eq!(xs[0].t, fx(4.0));
    assert_eq!(xs[1].t, fx(4.5));
    assert_eq!(xs[2].t, fx(5.5));
    assert_eq!(xs[3].t, fx(6.0));
}

#[test]
fn shade_intersection() {
    let w = World::default();
    let r = Ray::new(point(0.0, 0.0, -5.0), vector(0.0, 0.0, 1.0));
    let id = w.shapes[0].get_shape_id();
    let i = Intersection::new(&id, fx(4.0));
    let comps = Computation::new(&r, &i, &w.shapes[0]);
    let c = w.shade_hit(&comps);
    assert!(c.approx_eq(&color(0.38066, 0.47583, 0.2855)));
}

#[test]
fn shade_intersection_from_inside() {
    let mut w = World::default();
    w.light = Light::new(point(0.0, 0.25, 0.0), color(1.0, 1.0, 1.0));
    let r = Ray::new(point(0.0, 0.0, 0.0), vector(0.0, 0.0, 1.0));
    let id = w.shapes[1].get_shape_id();
    let i = Intersection::new(&id, fx(0.5));
    let comps = Computation::new(&r, &i, &w.shapes[1]);
    let c = w.shade_hit(&comps);
    assert!(c.approx_eq(&color(0.90498, 0.90498, 0.90498)));
}

#[test]
fn color_when_ray_misses() {
    let w = World::default();
    let r = Ray::new(point(0.0, 0.0, -5.0), vector(0.0, 1.0, 0.0));
    let c = w.color_at(&r);
    assert_eq!(c, black());
}

#[test]
fn color_when_ray_hits() {
    let w = World::default();
    let r = Ray::new(point(0.0, 0.0, -5.0), vector(0.0, 0.0, 1.0));
    let c = w.color_at(&r);
    assert!(c.approx_eq(&color(0.38066, 0.47583, 0.2855)));
}

#[test]
fn color_intersection_behind_ray() {
    let mut w = World::default();
    let mut m = w.shapes[0].get_material().clone();
    m.ambient = fx(1.0);
    w.shapes[0].set_material(m);
    let mut m = w.shapes[1].get_material().clone();
    m.ambient = fx(1.0);
    let first_color = m.color;
    w.shapes[1].set_material(m);
    let r = Ray::new(point(0.0, 0.0, 0.75), vector(0.0, 0.0, -1.0));
    let c = w.color_at(&r);
    assert!(c.approx_eq(&first_color));
}

#[test]
fn no_shadow() {
    let w = World::default();
    let p = point(0.0, 10.0, 0.0);
    assert!(!w.is_shadowed(&p));
}

#[test]
fn shadow_when_object_between_point_and_light() {
    let w = World::default();
    let p = point(10.0, -10.0, 10.0);
    assert!(w.is_shadowed(&p));
}

#[test]
fn no_shadow_when_object_behind_light() {
    let w = World::default();
    let p = point(-20.0, 20.0, -20.0);
    assert!(!w.is_shadowed(&p));
}

#[test]
fn no_shadow_when_object_behind_point() {
    let w = World::default();
    let p = point(-2.0, 2.0, -2.0);
    assert!(!w.is_shadowed(&p));
}

#[test]
fn shade_hit_given_intersection_in_shadow() {
    let mut w = World::new(Light::new(point(0.0, 0.0, -10.0), color(1.0, 1.0, 1.0)));
    w.add_shape(Shape::Sphere(Sphere::default()));
    let mut s = Sphere::default();
    s.set_transform(translation(fx(0.0), fx(0.0), fx(10.0)));
    let id = s.get_shape_id();
    w.add_shape(Shape::Sphere(s));
    let ray = Ray::new(point(0.0, 0.0, 5.0), vector(0.0, 0.0, 1.0));
    let i = Intersection::new(&id, fx(4.0));
    let comps = Computation::new(&ray, &i, &w.shapes[1]);
    let c = w.shade_hit(&comps);
    assert!(c.approx_eq(&color(0.1, 0.1, 0.1)));
}

#[test]
fn point_at_light_is_not_shadowed() {
    let w = World::default();
    let p = point(-10.0, 10.0, -10.0);
    assert!(!w.is_shadowed(&p));
}
