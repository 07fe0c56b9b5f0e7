//! Bookkeeping and decision logic of a study of how Rust code uses `unsafe`:
//! the result records written per analysed crate, the propagation of
//! unsafety along call graphs, the classification of unsafety sources, and
//! the tallies computed over the recorded results.
pub mod build_flags;
pub mod call_info;
pub mod call_names;
pub mod collect;
pub mod hidden;
pub mod lints;
pub mod mir_analysis;
pub mod misc;
pub mod results;
pub mod select;
pub mod text;
