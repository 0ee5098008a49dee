//! Matrices and small helpers.

pub mod boxed_slice;
pub mod matrix_util;
pub mod orbit_controls;
pub mod simple_axes;

pub use matrix_util::identity_matrix;
pub use matrix_util::MuckableMatrix;
