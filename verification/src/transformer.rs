//! Shape and configuration logic of a small typed Transformer encoder.
//!
//! Widths, counts and indices are semantic newtypes; every constructor that
//! combines them checks the shapes and reports a [`error::ModelError`] that
//! names the operation and the dimensions involved.
pub mod architecture;
pub mod error;
pub mod experts;
pub mod layers;
pub mod math;
pub mod types;

pub use error::ModelError;
