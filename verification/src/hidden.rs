//! The implicit-unsafety analysis: call graph, propagation of unsafety along
//! calls, and the results loaded from dependencies.
pub mod analysis;
pub mod fn_info;
pub mod unsafe_blocks;
pub mod fn_unsafety;
pub mod deps;
pub mod print;
pub mod util;
pub mod implicit_unsafe;
pub mod calls;
pub mod unrecorded;
