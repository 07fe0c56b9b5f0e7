//! The analysis of the bodies of a crate: counts of blocks, unsafe
//! operations found in unsafe blocks and in unsafe functions, and the
//! decisions that classify each operation.
pub mod blocks;
pub mod functions;
pub mod unsafety_sources;
