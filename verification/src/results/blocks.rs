//! Per-crate counts of blocks, and the unsafety sources found in blocks.
use vstd::prelude::*;
use crate::results::unsafety_sources::Source;

verus! {

/// How many blocks a crate has: unsafe blocks written by the user, all
/// unsafe blocks (compiler-generated ones included), and all blocks.
#[derive(Clone, Copy, PartialEq, Eq, Structural, Debug)]
pub struct BlockSummary {
    pub user_unsafe_blocks: usize,
    pub unsafe_blocks: usize,
    pub total: usize,
}

impl BlockSummary {
    pub fn new(user_unsafe_blocks: usize, unsafe_blocks: usize, total: usize) -> (r: Self)
        ensures
            r.user_unsafe_blocks == user_unsafe_blocks,
            r.unsafe_blocks == unsafe_blocks,
            r.total == total,
    {
        BlockSummary { user_unsafe_blocks, unsafe_blocks, total }
    }
}

/// One source of unsafety inside the unsafe block `block_id`.
pub struct BlockUnsafetySource {
    pub block_id: String,
    pub source: Source,
}

} // verus!
