//! Core taxonomy of an AV1 encoder: coding-block and transform-block
//! geometry, the default entropy-model tables, and the pure decision logic
//! behind intra-prediction context assembly and kernel dispatch.

use vstd::prelude::*;

pub mod block_size;
pub mod block_unit;
pub mod dispatch;
pub mod entropy;
pub mod entropy_defaults;
pub mod frame;
pub mod intra_edge;
pub mod partition;
pub mod partition_type;
pub mod ref_type;
pub mod transform;
pub mod tx_size;
pub mod tx_type;

verus! {

/// Base-2 logarithm of the smallest codable block dimension (4 pixels).
pub const MI_SIZE_LOG2: usize = 2;

/// The smallest codable block dimension, in pixels.
pub const MI_SIZE: usize = 4;

} // verus!
