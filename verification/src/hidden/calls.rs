//! Building the call graph: what each call met in a body adds to the node of
//! the calling function.
use vstd::prelude::*;
use crate::hidden::fn_info::{FnInfo, external_call_name};

verus! {

/// The callee of a call met in a body: a local function (with its node id
/// when it has one), a function of another crate (its crate number and
/// name, and its item path), or a callee that is not a known function.
pub enum Callee {
    Local(Option<u32>),
    External { krate: u32, crate_name: String, item_path: String },
    NotAFunction,
}

/// Records in `fn_info` the call of `callee`: a local call by node id, or a
/// call into another crate by crate and path; unknown callees are left out.
pub fn visit_terminator(fn_info: &mut FnInfo, callee: &Callee)
    ensures
        final(fn_info)@.decl_id == old(fn_info)@.decl_id,
        match *callee {
            Callee::Local(Some(n)) => final(fn_info)@.external_calls == old(fn_info)@.external_calls
                && final(fn_info)@.local_calls == if old(fn_info)@.local_calls.contains(n) {
                old(fn_info)@.local_calls
            } else {
                old(fn_info)@.local_calls.push(n)
            },
            Callee::External { krate, crate_name, item_path } => {
                let call = (krate, external_call_name(crate_name@, item_path@));
                final(fn_info)@.local_calls == old(fn_info)@.local_calls
                    && final(fn_info)@.external_calls == if old(fn_info)@.external_calls.contains(
                    call,
                ) {
                    old(fn_info)@.external_calls
                } else {
                    old(fn_info)@.external_calls.push(call)
                }
            },
            _ => final(fn_info)@ == old(fn_info)@,
        },
{
    match callee {
        Callee::Local(Some(n)) => fn_info.push_local_call(*n),
        Callee::Local(None) => {},
        Callee::External { krate, crate_name, item_path } => {
            fn_info.push_external_call(*krate, crate_name.as_str(), item_path.as_str());
        },
        Callee::NotAFunction => {},
    }
}

} // verus!
