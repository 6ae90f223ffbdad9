//! Core of a declarative 2D scene renderer: document model, scalar-or-string
//! vector parsing, per-object draw resolution, and fixed-capacity buffer
//! bookkeeping for per-frame GPU submission.
//!
//! Numeric document fields are carried as IEEE-754 bit patterns (`u64` for
//! 64-bit values, `u32` for 32-bit values); evaluating them as floating-point
//! numbers is left to the unverified host around the library.
use vstd::prelude::*;

pub mod text;
pub mod vectors;
pub mod cache;
pub mod texpath;
pub mod model;
pub mod draw;
pub mod buffer;

verus! {

/// Capacity of the per-frame vertex buffer, in vertices.
pub const MAX_VERTEX: u32 = 4096;

/// Capacity of the per-frame index buffer, in 16-bit indices.
/// `MAX_INDEX / 6` quads agree with `MAX_VERTEX / 4` quads.
pub const MAX_INDEX: u32 = 6144;

} // verus!
