use tracer::camera::Camera;
use tracer::fixed::Fx;
use tracer::matrice::Matrice;
use tracer::point::Point;
use tracer::transformations::{rotation_y, translation};
use tracer::vector::Vector;

fn fx(v: f64) -> Fx {
    Fx { raw: (v * 1e9).round() as i64 }
}

fn point(x: f64, y: f64, z: f64) -> Point {
    Point::new(fx(x), fx(y), fx(z))
}

fn vector(x: f64, y: f64, z: f64) -> Vector {
    Vector::new(fx(x), fx(y), fx(z))
}

fn camera(hsize: f64, vsize: f64, fov: f64) -> Camera {
    Camera::new(fx(hsize), fx(vsize), fx(fov), fx((fov / 2.0).tan()))
}

#[test]
fn construct_camera() {
    let pi = std::f64::consts::PI;
    let c = camera(160.0, 120.0, pi / 2.0);
    assert_eq!(c.hsize, fx(160.0));
    assert_eq!(c.vsize, fx(120.0));
    assert_eq!(c.field_of_view, fx(pi / 2.0));
    assert_eq!(c.transform, Matrice::identity_matrix(4));
}

#[test]
fn pixel_size_horizontal_canvas() {
    let pi = std::f64::consts::PI;
    let c = camera(200.0, 125.0, pi / 2.0);
    assert!(c.pixel_size.approx_eq(fx(0.01)));
}

#[test]
fn pixel_size_vertical_canvas() {
    let pi = std::f64::consts::PI;
    let c = camera(125.0, 200.0, pi / 2.0);
    assert!(c.pixel_size.approx_eq(fx(0.01)));
}

#[test]
fn test_ray_through_canvas_center() {
    let pi = std::f64::consts::PI;
    let c = camera(201.0, 101.0, pi / 2.0);
    let r = c.ray_for_pixel(fx(100.0), fx(50.0)).unwrap();
    assert!(r.origin.approx_eq(&point(0.0, 0.0, 0.0)));
    assert!(r.direction.approx_eq(&vector(0.0, 0.0, -1.0)));
}

#[test]
fn test_ray_through_canvas_corner() {
    let pi = std::f64::consts::PI;
    let c = camera(201.0, 101.0, pi / 2.0);
    let r = c.ray_for_pixel(fx(0.0), fx(0.0)).unwrap();
    assert!(r.origin.approx_eq(&point(0.0, 0.0, 0.0)));
    assert!(r.direction.approx_eq(&vector(0.66519, 0.33259, -0.66851)));
}

#[test]
fn test_ray_camera_transformed() {
    let pi = std::f64::consts::PI;
    let mut c = camera(201.0, 101.0, pi / 2.0);
    let quarter = pi / 4.0;
    c.transform =
        rotation_y(fx(quarter.cos()), fx(quarter.sin())).mul(&translation(fx(0.0), fx(-2.0), fx(5.0)));
    let r = c.ray_for_pixel(fx(100.0), fx(50.0)).unwrap();
    assert!(r.origin.approx_eq(&point(0.0, 2.0, -5.0)));
    assert!(r
        .direction
        .approx_eq(&vector(2.0_f64.sqrt() / 2.0, 0.0, -(2.0_f64.sqrt() / 2.0))));
}

#[test]
fn degenerate_camera_transform_yields_no_ray() {
    let pi = std::f64::consts::PI;
    let mut c = camera(201.0, 101.0, pi / 2.0);
    let mut singular = Matrice::identity_matrix(4);
    singular.write_element(0, 0, fx(0.0));
    c.transform = singular;
    assert!(c.ray_for_pixel(fx(100.0), fx(50.0)).is_none());
}
