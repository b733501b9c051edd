//! The ways a square coding block may be split into smaller blocks.
#![allow(non_camel_case_types)]

use vstd::prelude::*;

verus! {

#[derive(Copy, Clone, Debug, PartialEq, Eq, Structural)]
pub enum PartitionType {
    PARTITION_NONE,
    PARTITION_HORZ,
    PARTITION_VERT,
    PARTITION_SPLIT,
    /// HORZ split and the top partition is split again.
    PARTITION_HORZ_A,
    /// HORZ split and the bottom partition is split again.
    PARTITION_HORZ_B,
    /// VERT split and the left partition is split again.
    PARTITION_VERT_A,
    /// VERT split and the right partition is split again.
    PARTITION_VERT_B,
    /// 4:1 horizontal partition.
    PARTITION_HORZ_4,
    /// 4:1 vertical partition.
    PARTITION_VERT_4,
    /// Sentinel for contexts where the partition is not yet known.
    PARTITION_INVALID,
}

} // verus!
