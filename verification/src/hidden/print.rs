//! A printer of analysis results that prints nothing.
use vstd::prelude::*;

verus! {

pub const ROOT_DIR: &'static str = "/tmp/unsafe_analysis/analysis_results/";

/// The printer used where no result is to be printed.
pub struct EmptyPrinter {}

} // verus!
