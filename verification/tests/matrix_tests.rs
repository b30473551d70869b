use tracer::fixed::Fx;
use tracer::matrice::Matrice;
use tracer::point::Point;
use tracer::transformations::{rotation_x, scaling, shearing, translation};
use tracer::vector::Vector;

fn fx(v: f64) -> Fx {
    Fx { raw: (v * 1e9).round() as i64 }
}

fn point(x: f64, y: f64, z: f64) -> Point {
    Point::new(fx(x), fx(y), fx(z))
}

fn vector(x: f64, y: f64, z: f64) -> Vector {
    Vector::new(fx(x), fx(y), fx(z))
}

fn from_rows(rows: &[[f64; 4]; 4]) -> Matrice {
    let mut m = Matrice::new(4);
    for (i, row) in rows.iter().enumerate() {
        for (j, v) in row.iter().enumerate() {
            m.write_element(i, j, fx(*v));
        }
    }
    m
}

#[test]
fn determinant_of_two_by_two() {
    let mut m = Matrice::new(2);
    m.write_element(0, 0, fx(1.0));
    m.write_element(0, 1, fx(5.0));
    m.write_element(1, 0, fx(-3.0));
    m.write_element(1, 1, fx(2.0));
    assert_eq!(m.determinant(), fx(17.0));
}

#[test]
fn determinant_of_four_by_four() {
    let m = from_rows(&[
        [-2.0, -8.0, 3.0, 5.0],
        [-3.0, 1.0, 7.0, 3.0],
        [1.0, 2.0, -9.0, 6.0],
        [-6.0, 7.0, 7.0, -9.0],
    ]);
    assert_eq!(m.cofactor(0, 0), fx(690.0));
    assert_eq!(m.cofactor(0, 1), fx(447.0));
    assert_eq!(m.cofactor(0, 2), fx(210.0));
    assert_eq!(m.cofactor(0, 3), fx(51.0));
    assert_eq!(m.determinant(), fx(-4071.0));
}

#[test]
fn submatrix_drops_row_and_column() {
    let m = from_rows(&[
        [-6.0, 1.0, 1.0, 6.0],
        [-8.0, 5.0, 8.0, 6.0],
        [-1.0, 0.0, 8.0, 2.0],
        [-7.0, 1.0, -1.0, 1.0],
    ]);
    let sub = m.submatrix(2, 1);
    assert_eq!(sub.size(), 3);
    assert_eq!(sub.element_at(0, 0), fx(-6.0));
    assert_eq!(sub.element_at(0, 1), fx(1.0));
    assert_eq!(sub.element_at(0, 2), fx(6.0));
    assert_eq!(sub.element_at(2, 2), fx(1.0));
}

#[test]
fn singular_matrix_has_no_inverse() {
    let m = from_rows(&[
        [-4.0, 2.0, -2.0, -3.0],
        [9.0, 6.0, 2.0, 6.0],
        [0.0, -5.0, 1.0, -5.0],
        [0.0, 0.0, 0.0, 0.0],
    ]);
    assert_eq!(m.determinant(), fx(0.0));
    assert!(m.inverse().is_none());
}

#[test]
fn inverse_round_trips_to_the_original() {
    let m = translation(fx(5.0), fx(-3.0), fx(2.0))
        .mul(&scaling(fx(2.0), fx(4.0), fx(0.5)))
        .mul(&shearing(fx(1.0), fx(0.0), fx(0.0), fx(0.0), fx(0.0), fx(0.0)));
    let inv = m.inverse().unwrap();
    let back = inv.inverse().unwrap();
    assert!(back.approx_eq(&m));
}

#[test]
fn matrix_times_its_inverse_is_identity() {
    let m = translation(fx(5.0), fx(-3.0), fx(2.0))
        .mul(&scaling(fx(2.0), fx(4.0), fx(0.5)))
        .mul(&rotation_x(fx(0.8), fx(0.6)));
    let inv = m.inverse().unwrap();
    assert!(m.mul(&inv).approx_eq(&Matrice::identity_matrix(4)));
    assert!(inv.mul(&m).approx_eq(&Matrice::identity_matrix(4)));
}

#[test]
fn translation_moves_points_and_spares_vectors() {
    let t = translation(fx(5.0), fx(-3.0), fx(2.0));
    let p = t.mul_point(&point(-3.0, 4.0, 5.0));
    assert!(p.approx_eq(&point(2.0, 1.0, 7.0)));
    let v = t.mul_vector(&vector(-3.0, 4.0, 5.0));
    assert!(v.approx_eq(&vector(-3.0, 4.0, 5.0)));
}

#[test]
fn transpose_flips_rows_and_columns() {
    let m = from_rows(&[
        [0.0, 9.0, 3.0, 0.0],
        [9.0, 8.0, 0.0, 8.0],
        [1.0, 8.0, 5.0, 3.0],
        [0.0, 0.0, 5.0, 8.0],
    ]);
    let t = m.transpose();
    assert_eq!(t.element_at(0, 1), fx(9.0));
    assert_eq!(t.element_at(1, 0), fx(9.0));
    assert_eq!(t.element_at(2, 0), fx(3.0));
    assert_eq!(t.element_at(3, 2), fx(3.0));
}
