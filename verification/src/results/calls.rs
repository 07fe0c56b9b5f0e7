//! Calls of unsafe functions of other crates.
use vstd::prelude::*;
use crate::results::Abi;

verus! {

/// A call of an unsafe function: its calling convention, path, name, crate,
/// and whether the unsafe block around it was written by the user.
pub struct ExternalCall {
    pub abi: Abi,
    pub def_path: String,
    pub name: String,
    pub crate_name: String,
    pub user_provided: bool,
}

} // verus!
