//! The compiler flags under which a crate is built for the analyses.
use vstd::prelude::*;

verus! {

/// The flags added in front of whatever `RUSTFLAGS` already holds: a
/// non-relocatable, unoptimised build that keeps dead code.
pub const ANALYSIS_RUSTFLAGS: &'static str = " -C relocation-model=dynamic-no-pic -C link-dead-code -C opt-level=0 ";

/// The value of `RUSTFLAGS` for the build: the analysis flags, followed by
/// the value that was set before, if any.
pub fn analysis_rustflags(existing: Option<&str>) -> (r: String)
    ensures
        r@ == ANALYSIS_RUSTFLAGS@ + match existing {
            Some(v) => v@,
            None => Seq::<char>::empty(),
        },
{
    let mut value = String::from_str(ANALYSIS_RUSTFLAGS);
    match existing {
        Some(v) => value.append(v),
        None => {
            assert(value@ + Seq::<char>::empty() =~= value@);
        },
    }
    value
}

} // verus!
