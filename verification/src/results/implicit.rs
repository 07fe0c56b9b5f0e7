//! Functions that are safe to call but hold unsafe code in what they run.
use vstd::prelude::*;

verus! {

/// How a function stands with respect to unsafety.
#[derive(Clone, Copy, PartialEq, Eq, Structural, Debug)]
pub enum FnType {
    Safe,
    Unsafe,
    NormalNotSafe,
    Parametric,
}

/// A function by path and name, and how it stands.
#[derive(Clone)]
pub struct UnsafeInBody {
    pub def_path: String,
    pub fn_type: FnType,
    pub name: String,
}

impl UnsafeInBody {
    pub fn new(def_path: String, fn_type: FnType, name: String) -> (r: Self)
        ensures
            r.def_path == def_path,
            r.fn_type == fn_type,
            r.name == name,
    {
        UnsafeInBody { def_path, fn_type, name }
    }
}

/// A safe method of an unsafe trait, and whether its body holds unsafe code.
pub struct UnsafeTraitSafeMethodInBody {
    pub fn_name: String,
    pub has_unsafe: bool,
}

/// A trait bound on a generic parameter.
pub struct TraitBound {
    pub trait_def_path: String,
    pub generic: String,
}

} // verus!
