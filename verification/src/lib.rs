//! Three-dimensional vectors, points and 4×4 matrices over any scalar type
//! that supplies the arithmetic they need.
//!
//! Every contract is stated over what the scalar type says its operators
//! compute (`add_spec`, `mul_spec`, ...): it names the scalar expression
//! that a result is, and asks that each step of that expression may be
//! computed on the scalar at hand.

pub mod basic_types;
pub mod inverse;
pub mod laws;
pub mod matrix;
pub mod scalar;

pub use basic_types::{Point, Point3, Tuple, Vec3, Vector};
pub use inverse::MatrixError;
pub use matrix::{mul_point_matrix, mul_vec_matrix, multiply, Matrix4};
pub use scalar::Sqrt;
