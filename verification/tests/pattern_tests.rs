use tracer::color::Color;
use tracer::consts::{black, white};
use tracer::fixed::Fx;
use tracer::matrice::Matrice;
use tracer::pattern::checker::Checker;
use tracer::pattern::gradient::Gradient;
use tracer::pattern::ring::Ring;
use tracer::pattern::stripe::Stripe;
use tracer::pattern::Pattern;
use tracer::point::Point;
use tracer::transformations::scaling;

fn fx(v: f64) -> Fx {
    Fx { raw: (v * 1e9).round() as i64 }
}

fn point(x: f64, y: f64, z: f64) -> Point {
    Point::new(fx(x), fx(y), fx(z))
}

fn color(r: f64, g: f64, b: f64) -> Color {
    Color::new(fx(r), fx(g), fx(b))
}

#[test]
fn new() {
    let p = Stripe::new(white(), black(), Matrice::identity_matrix(4));
    assert_eq!(p.a, white());
    assert_eq!(p.b, black());
}

#[test]
fn constant_in_y() {
    let p = Stripe::new(white(), black(), Matrice::identity_matrix(4));
    assert_eq!(p.at(&point(0.0, 0.0, 0.0)), white());
    assert_eq!(p.at(&point(0.0, 1.0, 0.0)), white());
    assert_eq!(p.at(&point(0.0, 2.0, 0.0)), white());
}

#[test]
fn constant_in_z() {
    let p = Stripe::new(white(), black(), Matrice::identity_matrix(4));
    assert_eq!(p.at(&point(0.0, 0.0, 0.0)), white());
    assert_eq!(p.at(&point(0.0, 0.0, 1.0)), white());
    assert_eq!(p.at(&point(0.0, 0.0, 2.0)), white());
}

#[test]
fn alternate_in_x() {
    let p = Stripe::new(white(), black(), Matrice::identity_matrix(4));
    assert_eq!(p.at(&point(0.0, 0.0, 0.0)), white());
    assert_eq!(p.at(&point(0.9, 0.0, 0.0)), white());
    assert_eq!(p.at(&point(1.0, 0.0, 0.0)), black());
}

#[test]
fn stripe_alternates_below_zero() {
    let p = Stripe::new(white(), black(), Matrice::identity_matrix(4));
    assert_eq!(p.at(&point(-0.1, 0.0, 0.0)), black());
    assert_eq!(p.at(&point(-1.0, 0.0, 0.0)), black());
    assert_eq!(p.at(&point(-1.1, 0.0, 0.0)), white());
}

#[test]
fn checker_repeats_in_x() {
    let p = Checker::new(white(), black(), Matrice::identity_matrix(4));
    assert_eq!(p.at(&point(0.0, 0.0, 0.0)), white());
    assert_eq!(p.at(&point(0.99, 0.0, 0.0)), white());
    assert_eq!(p.at(&point(1.01, 0.0, 0.0)), black());
}

#[test]
fn ring_extends_in_x_and_z() {
    let p = Ring::new(white(), black(), Matrice::identity_matrix(4));
    assert_eq!(p.at(&point(0.0, 0.0, 0.0)), white());
    assert_eq!(p.at(&point(1.0, 0.0, 0.0)), black());
    assert_eq!(p.at(&point(0.0, 0.0, 1.0)), black());
    assert_eq!(p.at(&point(0.708, 0.0, 0.708)), black());
}

#[test]
fn gradient_interpolates_linearly() {
    let p = Gradient::new(white(), black(), Matrice::identity_matrix(4));
    assert_eq!(p.at(&point(0.0, 0.0, 0.0)), white());
    assert!(p.at(&point(0.25, 0.0, 0.0)).approx_eq(&color(0.75, 0.75, 0.75)));
    assert!(p.at(&point(0.5, 0.0, 0.0)).approx_eq(&color(0.5, 0.5, 0.5)));
    assert!(p.at(&point(0.75, 0.0, 0.0)).approx_eq(&color(0.25, 0.25, 0.25)));
}

#[test]
fn stripes_follow_the_object_transform() {
    let pattern = Pattern::Stripe(Stripe::new(white(), black(), Matrice::identity_matrix(4)));
    let object_transform = scaling(fx(2.0), fx(2.0), fx(2.0));
    let c = pattern.at_obj(&object_transform, &point(1.5, 0.0, 0.0)).unwrap();
    assert_eq!(c, white());
}

#[test]
fn stripes_follow_the_pattern_transform() {
    let pattern = Pattern::Stripe(Stripe::new(white(), black(), scaling(fx(2.0), fx(2.0), fx(2.0))));
    let c = pattern
        .at_obj(&Matrice::identity_matrix(4), &point(1.5, 0.0, 0.0))
        .unwrap();
    assert_eq!(c, white());
}

#[test]
fn degenerate_pattern_transform_yields_no_color() {
    let pattern = Pattern::Stripe(Stripe::new(white(), black(), scaling(fx(0.0), fx(0.0), fx(0.0))));
    let c = pattern.at_obj(&Matrice::identity_matrix(4), &point(1.5, 0.0, 0.0));
    assert_eq!(c, None);
}
