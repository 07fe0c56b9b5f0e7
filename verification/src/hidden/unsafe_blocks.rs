//! Whether the body of a function holds an unsafe block.
use vstd::prelude::*;
use crate::mir_analysis::blocks::BlockCheckMode;

verus! {

/// Result of the unsafe-in-body analysis of one function: its path and
/// whether unsafe code was found in its body or in what it calls.
pub struct UnsafeInBody {
    pub fn_info: String,
    pub has_unsafe: bool,
}

impl UnsafeInBody {
    /// The result for the function at path `fn_info`, with nothing found yet.
    pub fn new(fn_info: String) -> (r: Self)
        ensures
            r.fn_info == fn_info,
            !r.has_unsafe,
    {
        UnsafeInBody { has_unsafe: false, fn_info }
    }

    /// The result for the function at path `fn_info` whose body holds blocks
    /// with the given modes: it has unsafe code when one of them is an
    /// unsafe block.
    pub fn from_blocks(fn_info: String, blocks: &Vec<BlockCheckMode>) -> (r: Self)
        ensures
            r.fn_info == fn_info,
            r.has_unsafe == exists|i: int| 0 <= i < blocks@.len() && #[trigger] blocks@[i] is UnsafeBlock,
    {
        let mut analysis = Self::new(fn_info);
        let mut i: usize = 0;
        while i < blocks.len()
            invariant
                i <= blocks.len(),
                analysis.fn_info == fn_info,
                analysis.has_unsafe == exists|k: int| 0 <= k < i && #[trigger] blocks@[k] is UnsafeBlock,
            decreases blocks.len() - i,
        {
            match blocks[i] {
                BlockCheckMode::UnsafeBlock(_) => {
                    analysis.has_unsafe = true;
                },
                _ => {},
            }
            i = i + 1;
        }
        analysis
    }

    /// The name of the file into which these results are written.
    pub fn get_output_filename() -> (r: &'static str)
        ensures
            r@ == "10_unsafe_in_call_tree"@,
    {
        "10_unsafe_in_call_tree"
    }
}

} // verus!
