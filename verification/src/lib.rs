//! Typed resource accounting, parallel layouts, scaling studies, Transformer
//! configuration checks and token datasets, each with a verified contract.
use vstd::prelude::*;

pub mod neuron;
pub mod parallelism;
pub mod scaling;
pub mod systems;
pub mod transformer;
pub mod text;

verus! {
} // verus!
