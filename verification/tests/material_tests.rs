use tracer::color::Color;
use tracer::consts::white;
use tracer::fixed::Fx;
use tracer::light::Light;
use tracer::material::Material;
use tracer::point::Point;
use tracer::shape::sphere::Sphere;
use tracer::shape::Shape;
use tracer::vector::Vector;

fn fx(v: f64) -> Fx {
    Fx { raw: (v * 1e9).round() as i64 }
}

fn point(x: f64, y: f64, z: f64) -> Point {
    Point::new(fx(x), fx(y), fx(z))
}

fn vector(x: f64, y: f64, z: f64) -> Vector {
    Vector::new(fx(x), fx(y), fx(z))
}

fn color(r: f64, g: f64, b: f64) -> Color {
    Color::new(fx(r), fx(g), fx(b))
}

#[test]
fn material_default_material() {
    let m = Material::default();
    assert_eq!(m.color, white());
    assert_eq!(m.ambient, fx(0.1));
    assert_eq!(m.diffuse, fx(0.9));
    assert_eq!(m.specular, fx(0.9));
    assert_eq!(m.shininess, fx(200.0));
}

#[test]
fn eye_between_light_and_surface() {
    let m = Material::default();
    let position = Point::default();
    let eyev = vector(0.0, 0.0, -1.0);
    let normalv = vector(0.0, 0.0, -1.0);
    let light = Light::new(point(0.0, 0.0, -10.0), color(1.0, 1.0, 1.0));
    let result = m.lighting(
        &light,
        &Shape::Sphere(Sphere::default()),
        &position,
        &eyev,
        &normalv,
        false,
    );
    assert!(result.approx_eq(&color(1.9, 1.9, 1.9)));
}

#[test]
fn eye_between_light_and_surface_offset_45() {
    let m = Material::default();
    let position = Point::default();
    let eyev = vector(0.0, 2.0_f64.sqrt() / 2.0, -(2.0_f64.sqrt() / 2.0));
    let normalv = vector(0.0, 0.0, -1.0);
    let light = Light::new(point(0.0, 0.0, -10.0), color(1.0, 1.0, 1.0));
    let result = m.lighting(
        &light,
        &Shape::Sphere(Sphere::default()),
        &position,
        &eyev,
        &normalv,
        false,
    );
    assert!(result.approx_eq(&color(1.0, 1.0, 1.0)));
}

#[test]
fn eye_opposite_surface_offset_45() {
    let m = Material::default();
    let position = Point::default();
    let eyev = vector(0.0, 0.0, -1.0);
    let normalv = vector(0.0, 0.0, -1.0);
    let light = Light::new(point(0.0, 10.0, -10.0), color(1.0, 1.0, 1.0));
    let result = m.lighting(
        &light,
        &Shape::Sphere(Sphere::default()),
        &position,
        &eyev,
        &normalv,
        false,
    );
    assert!(result.approx_eq(&color(0.7364, 0.7364, 0.7364)));
}

#[test]
fn eye_in_path_of_reflection_vector() {
    let m = Material::default();
    let position = Point::default();
    let eyev = vector(0.0, -(2.0_f64.sqrt() / 2.0), -(2.0_f64.sqrt() / 2.0));
    let normalv = vector(0.0, 0.0, -1.0);
    let light = Light::new(point(0.0, 10.0, -10.0), color(1.0, 1.0, 1.0));
    let result = m.lighting(
        &light,
        &Shape::Sphere(Sphere::default()),
        &position,
        &eyev,
        &normalv,
        false,
    );
    assert!(result.approx_eq(&color(1.6364, 1.6364, 1.6364)));
}

#[test]
fn light_behind_surface() {
    let m = Material::default();
    let position = Point::default();
    let eyev = vector(0.0, 0.0, -1.0);
    let normalv = vector(0.0, 0.0, -1.0);
    let light = Light::new(point(0.0, 0.0, 10.0), color(1.0, 1.0, 1.0));
    let result = m.lighting(
        &light,
        &Shape::Sphere(Sphere::default()),
        &position,
        &eyev,
        &normalv,
        false,
    );
    assert!(result.approx_eq(&color(0.1, 0.1, 0.1)));
}

#[test]
fn with_surface_in_shadow() {
    let m = Material::default();
    let position = Point::default();
    let eyev = vector(0.0, 0.0, -1.0);
    let normalv = vector(0.0, 0.0, -1.0);
    let light = Light::new(point(0.0, 0.0, -10.0), color(1.0, 1.0, 1.0));
    let in_shadow = true;
    let result = m.lighting(
        &light,
        &Shape::Sphere(Sphere::default()),
        &position,
        &eyev,
        &normalv,
        in_shadow,
    );
    assert!(result.approx_eq(&color(0.1, 0.1, 0.1)));
}
