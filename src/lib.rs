//! Geometric math kernel of a physically-based renderer, generic over its
//! scalar type: semantic vector types, interval bounds, paired forward and
//! inverse affine transforms, shading-frame trigonometry and sampling warps.
//!
//! Every operation is stated over the symbolic arithmetic of the scalar
//! traits in [`num`]: a contract says which expression in the scalar
//! operations a result is, so that it holds for every implementation of
//! those traits, exact or floating point. The scalar traits are implemented
//! here for two's-complement `i32`, over which [`exact`] proves that
//! composition and inversion of transforms hold with equality.

pub mod num;
pub mod dim;
pub mod array;
pub mod vector;
pub mod rotscale3;
pub mod affine3;
pub mod transform;
pub mod bound;
pub mod frame;
pub mod warp;
pub mod interpolate;
pub mod exact;
pub mod ray;
pub mod norm2;
pub mod color;
