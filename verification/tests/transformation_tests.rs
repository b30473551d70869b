use tracer::fixed::Fx;
use tracer::matrice::Matrice;
use tracer::point::Point;
use tracer::transformations::{scaling, translation, view_transformation};
use tracer::vector::Vector;

fn fx(v: f64) -> Fx {
    Fx { raw: (v * 1e9).round() as i64 }
}

fn point(x: f64, y: f64, z: f64) -> Point {
    Point::new(fx(x), fx(y), fx(z))
}

fn vector(x: f64, y: f64, z: f64) -> Vector {
    Vector::new(fx(x), fx(y), fx(z))
}

#[test]
fn test_default_view() {
    let from = point(0.0, 0.0, 0.0);
    let to = point(0.0, 0.0, -1.0);
    let up = vector(0.0, 1.0, 0.0);
    let t = view_transformation(from, to, up);
    assert_eq!(t, Matrice::identity_matrix(4));
}

#[test]
fn test_positive_z_direction() {
    let from = point(0.0, 0.0, 0.0);
    let to = point(0.0, 0.0, 1.0);
    let up = vector(0.0, 1.0, 0.0);
    let t = view_transformation(from, to, up);
    assert_eq!(t, scaling(fx(-1.0), fx(1.0), fx(-1.0)));
}

#[test]
fn test_moving_world() {
    let from = point(0.0, 0.0, 8.0);
    let to = point(0.0, 0.0, 0.0);
    let up = vector(0.0, 1.0, 0.0);
    let t = view_transformation(from, to, up);
    assert_eq!(t, translation(fx(0.0), fx(0.0), fx(-8.0)));
}

#[test]
fn test_arbitrary_view() {
    let from = point(1.0, 3.0, 2.0);
    let to = point(4.0, -2.0, 8.0);
    let up = vector(1.0, 1.0, 0.0);
    let t = view_transformation(from, to, up);
    assert_eq!(t.size(), 4);
}
