use tracer::canvas::Canvas;
use tracer::color::Color;
use tracer::consts::{black, white};
use tracer::fixed::Fx;

fn fx(v: f64) -> Fx {
    Fx { raw: (v * 1e9).round() as i64 }
}

fn color(r: f64, g: f64, b: f64) -> Color {
    Color::new(fx(r), fx(g), fx(b))
}

#[test]
fn clamp_is_idempotent_on_out_of_range_channels() {
    let c = color(1.9, -0.4, 0.5);
    let once = c.clamp();
    let twice = once.clamp();
    assert_eq!(once, twice);
    assert_eq!(once, color(1.0, 0.0, 0.5));
}

#[test]
fn scaled_bytes_are_stable_under_a_second_clamp() {
    let c = color(2.5, -1.0, 0.5);
    assert_eq!(c.bytes(), c.clamp().bytes());
    assert_eq!(c.bytes(), (255, 0, 128));
}

#[test]
fn bytes_cover_the_full_range() {
    assert_eq!(white().bytes(), (255, 255, 255));
    assert_eq!(black().bytes(), (0, 0, 0));
    assert_eq!(color(1.0, 0.8, 0.6).bytes(), (255, 204, 153));
}

#[test]
fn color_arithmetic_matches_the_componentwise_rules() {
    let a = color(0.9, 0.6, 0.75);
    let b = color(0.7, 0.1, 0.25);
    assert!(a.add(b).approx_eq(&color(1.6, 0.7, 1.0)));
    assert!(a.sub(b).approx_eq(&color(0.2, 0.5, 0.5)));
    assert!(a.mul_scalar(fx(2.0)).approx_eq(&color(1.8, 1.2, 1.5)));
    let c = color(1.0, 0.2, 0.4);
    let d = color(0.9, 1.0, 0.1);
    assert!(c.mul_color(d).approx_eq(&color(0.9, 0.2, 0.04)));
}

#[test]
fn canvas_starts_black_and_keeps_written_pixels() {
    let mut canvas = Canvas::new(10, 20);
    assert_eq!(canvas.width, 10);
    assert_eq!(canvas.height, 20);
    assert_eq!(canvas.pixel_at(3, 7), black());
    let red = color(1.0, 0.0, 0.0);
    canvas.write_pixel(2, 3, red);
    assert_eq!(canvas.pixel_at(2, 3), red);
    assert_eq!(canvas.pixel_at(3, 7), black());
}
