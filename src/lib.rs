//! Fixed-size matrices and column vectors over integer element types.
//!
//! A `Matrix<T, R, C>` has its shape in its type; `Vector<T, R>` is the
//! matrix of one column.  Every operation is specified over the integer
//! grid that `model` describes, and asks that each element operation it
//! performs stay within the element type.

pub mod laws;
pub mod matrix;
pub mod model;
pub mod ops;
pub mod scalar;
pub mod vector;

pub use matrix::Matrix;
pub use scalar::Scalar;
