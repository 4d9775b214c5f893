//! Frame-pipeline logic of a progressive GPU path tracer.
//!
//! - `scene`: the scene store (meshes, indices, materials, the texture
//!   registry with its deduplication of constants) and the lights buffer.
//! - `texture`: texture entries, IEEE equality on bit patterns, load batches.
//! - `accel`: per-triangle geometry descriptors of the bottom-level
//!   structures and the top-level instance table.
//! - `steps`: dispatch sizes, the denoise buffer layout, and the trace
//!   step's bind-set bookkeeping.
//! - `context`: the GPU context's queue-family choice and resizes.
//! - `controller`: the per-tick pipeline controller and surface faults.
//! - `uniforms`: integer records the kernels read.
//!
//! Floating-point values are held as their IEEE-754 bit patterns.

use vstd::prelude::*;

pub mod accel;
pub mod context;
pub mod controller;
pub mod scene;
pub mod steps;
pub mod texture;
pub mod uniforms;

verus! {

} // verus!
