//! A CPU ray tracer core built on exact fixed-point arithmetic.
//!
//! Scene geometry (spheres and planes), 4x4 transform matrices with a
//! general cofactor inverse, ray/shape intersection, Phong shading with
//! hard shadows, patterns, and a pinhole camera. Every numeric step is
//! carried out on [`fixed::Fx`], a decimal fixed-point scalar, so each
//! function's result is pinned down exactly by its contract.

pub mod camera;
pub mod canvas;
pub mod color;
pub mod computation;
pub mod consts;
pub mod fixed;
mod ids;
pub mod intersection;
pub mod light;
pub mod material;
pub mod matrice;
pub mod pattern;
pub mod shape;
pub mod point;
pub mod practice;
pub mod ray;
pub mod transformations;
pub mod tuple;
pub mod vector;
pub mod world;
