//! A 4x4 homogeneous-matrix algebra kernel.
//!
//! Matrices are flat `[T; 16]` buffers in column-major layout: the element at
//! (row `r`, column `c`) lives at index `4 * c + r`.  Every routine is a pure
//! function over caller-owned buffers, generic over a scalar capability
//! interface ([`Scalar`]) that supplies the arithmetic, comparisons and
//! transcendental functions of the element type.

pub mod scalar;

pub mod model;

pub mod create;

pub mod set;

pub mod mul;

pub mod sdiv;

pub mod misc;

pub mod transform;

pub mod laws;

mod adjugate;

pub use crate::scalar::Scalar;

pub use crate::create::{new, create, new_identity, new_zero, clone, copy};

pub use crate::set::{zero, identity, from_mat2, from_mat32, from_mat3};

pub use crate::mul::{mul, smul};

pub use crate::sdiv::sdiv;

pub use crate::misc::{inverse, determinant, transpose, eq, ne};

pub use crate::transform::{
    look_at, compose, decompose, set_position, extract_position, extract_rotation, translate,
    scale, rotate_x, rotate_y, rotate_z, rotate, from_quat, frustum, perspective, orthographic,
};
