//! The numeric kernel of a renderer: scalars, tuples, colors, matrices of any
//! shape and a pixel canvas with its plain-text image format.
//!
//! Every type is generic over its [`scalar::Scalar`], so that the shape and
//! index logic is proved once, for every kind of number.

pub mod canvas;
pub mod color;
pub mod fault;
pub mod grid;
pub mod index;
pub mod integer;
pub mod laws;
pub mod matrix;
pub mod ppm;
pub mod ppm_laws;
pub mod scalar;
pub mod tuple;
