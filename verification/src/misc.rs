//! A point and a safety tag, with equality written out field by field.
use vstd::prelude::*;

verus! {

/// A point of the plane with natural coordinates.
#[derive(Clone, Copy, Debug)]
pub struct Point {
    pub x: u32,
    pub y: u32,
}

impl PartialEq for Point {
    fn eq(&self, other: &Point) -> (r: bool) {
        self.x == other.x && self.y == other.y
    }
}

impl vstd::std_specs::cmp::PartialEqSpecImpl for Point {
    open spec fn obeys_eq_spec() -> bool {
        true
    }

    open spec fn eq_spec(&self, other: &Point) -> bool {
        self.x == other.x && self.y == other.y
    }
}

impl Eq for Point {}

/// Whether something is safe or unsafe.
#[derive(Clone, Copy, Debug)]
pub enum Type {
    Safe,
    Unsafe,
}

impl PartialEq for Type {
    fn eq(&self, other: &Type) -> (r: bool) {
        match (self, other) {
            (Type::Safe, Type::Safe) => true,
            (Type::Unsafe, Type::Unsafe) => true,
            _ => false,
        }
    }
}

impl vstd::std_specs::cmp::PartialEqSpecImpl for Type {
    open spec fn obeys_eq_spec() -> bool {
        true
    }

    open spec fn eq_spec(&self, other: &Type) -> bool {
        (*self is Safe && *other is Safe) || (*self is Unsafe && *other is Unsafe)
    }
}

impl Eq for Type {}

} // verus!
