//! Unsafe traits and their implementations.
use vstd::prelude::*;

verus! {

/// An unsafe trait, or an implementation of one, by name.
pub struct UnsafeTrait {
    pub name: String,
}

impl UnsafeTrait {
    pub fn new(name: String) -> (r: Self)
        ensures
            r.name == name,
    {
        UnsafeTrait { name }
    }
}

} // verus!
