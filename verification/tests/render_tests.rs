use tracer::camera::Camera;
use tracer::color::Color;
use tracer::consts::{black, white};
use tracer::fixed::Fx;
use tracer::light::Light;
use tracer::material::Material;
use tracer::matrice::Matrice;
use tracer::pattern::stripe::Stripe;
use tracer::pattern::Pattern;
use tracer::point::Point;
use tracer::shape::sphere::Sphere;
use tracer::shape::Shape;
use tracer::transformations::{view_transformation, view_transformation_checked};
use tracer::vector::Vector;
use tracer::world::World;

fn fx(v: f64) -> Fx {
    Fx { raw: (v * 1e9).round() as i64 }
}

fn point(x: f64, y: f64, z: f64) -> Point {
    Point::new(fx(x), fx(y), fx(z))
}

fn vector(x: f64, y: f64, z: f64) -> Vector {
    Vector::new(fx(x), fx(y), fx(z))
}

fn color(r: f64, g: f64, b: f64) -> Color {
    Color::new(fx(r), fx(g), fx(b))
}

#[test]
fn render_default_world_center_pixel() {
    let w = World::default();
    let pi = std::f64::consts::PI;
    let mut c = Camera::new(fx(11.0), fx(11.0), fx(pi / 2.0), fx((pi / 4.0).tan()));
    c.transform = view_transformation(
        point(0.0, 0.0, -5.0),
        point(0.0, 0.0, 0.0),
        vector(0.0, 1.0, 0.0),
    );
    let image = c.render(&w);
    assert_eq!(image.width, 11);
    assert_eq!(image.height, 11);
    assert!(image.pixel_at(5, 5).approx_eq(&color(0.38066, 0.47583, 0.2855)));
}

#[test]
fn view_transformation_checked_refuses_a_collapsed_eye() {
    let p = point(1.0, 2.0, 3.0);
    let up = vector(0.0, 1.0, 0.0);
    assert!(view_transformation_checked(p, p, up).is_none());
    let q = point(0.0, 0.0, 0.0);
    assert!(view_transformation_checked(q, point(0.0, 0.0, -1.0), Vector::zero()).is_none());
}

#[test]
fn lighting_falls_back_to_flat_color_on_degenerate_pattern() {
    let eyev = vector(0.0, 0.0, -1.0);
    let normalv = vector(0.0, 0.0, -1.0);
    let light = Light::new(point(0.0, 0.0, -10.0), white());
    let position = Point::default();
    let shape = Shape::Sphere(Sphere::default());
    let mut singular = Matrice::identity_matrix(4);
    singular.write_element(0, 0, fx(0.0));
    singular.write_element(1, 1, fx(0.0));
    singular.write_element(2, 2, fx(0.0));
    let mut with_pattern = Material::default();
    with_pattern.color = color(0.3, 0.4, 0.5);
    with_pattern.pattern = Some(Pattern::Stripe(Stripe::new(white(), black(), singular)));
    let mut flat = Material::default();
    flat.color = color(0.3, 0.4, 0.5);
    let lit_with_pattern = with_pattern.lighting(&light, &shape, &position, &eyev, &normalv, false);
    let lit_flat = flat.lighting(&light, &shape, &position, &eyev, &normalv, false);
    assert_eq!(lit_with_pattern, lit_flat);
}

#[test]
fn lighting_uses_the_pattern_color_where_it_resolves() {
    let eyev = vector(0.0, 0.0, -1.0);
    let normalv = vector(0.0, 0.0, -1.0);
    let light = Light::new(point(0.0, 0.0, -10.0), white());
    let shape = Shape::Sphere(Sphere::default());
    let mut m = Material::default();
    m.ambient = fx(1.0);
    m.diffuse = fx(0.0);
    m.specular = fx(0.0);
    m.pattern = Some(Pattern::Stripe(Stripe::new(
        white(),
        black(),
        Matrice::identity_matrix(4),
    )));
    let c1 = m.lighting(&light, &shape, &point(0.9, 0.0, 0.0), &eyev, &normalv, false);
    let c2 = m.lighting(&light, &shape, &point(1.1, 0.0, 0.0), &eyev, &normalv, false);
    assert_eq!(c1, white());
    assert_eq!(c2, black());
}
