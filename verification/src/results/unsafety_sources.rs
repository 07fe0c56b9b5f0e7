//! The operations that make code unsafe.
use vstd::prelude::*;
use crate::results::Abi;

verus! {

/// A called function: local (name, calling convention) or of another crate
/// (crate name, function name, calling convention).
pub enum FnCallInfo {
    Local(String, Abi),
    External(String, String, Abi),
}

/// One unsafe operation: where it is, what it is, and whether the unsafe
/// context around it was written by the user.
pub struct Source {
    pub loc: String,
    pub kind: SourceKind,
    pub user_provided: bool,
}

/// The kinds of unsafe operations.
#[derive(Clone, Copy, PartialEq, Eq, Structural, Debug)]
pub enum SourceKind {
    UnsafeFnCall(Abi),
    DerefRawPointer,
    Asm,
    Static,
    BorrowPacked,
    AssignmentToNonCopyUnionField,
    AccessToUnionField,
    ExternStatic,
    /// A mutation, or a borrow with interior mutability, of a field of a type
    /// whose scalar values are restricted.
    ConstantFn,
}

/// The text under which a kind of unsafe operation is reported.
pub open spec fn kind_description(kind: SourceKind) -> Seq<char> {
    match kind {
        SourceKind::BorrowPacked => "Borrow Packed"@,
        SourceKind::AssignmentToNonCopyUnionField => "Assign to Union"@,
        SourceKind::AccessToUnionField => "Access to Union"@,
        SourceKind::ExternStatic => "Extern Static Variable"@,
        SourceKind::UnsafeFnCall(_) => "Unsafe Function Call"@,
        SourceKind::DerefRawPointer => "Derefence Raw Pointer"@,
        SourceKind::Asm => "Assembly"@,
        SourceKind::Static => "Global Variable"@,
        SourceKind::ConstantFn => "Layout Constrained Field"@,
    }
}

impl SourceKind {
    /// The text under which this kind of unsafe operation is reported.
    pub fn description(&self) -> (r: &'static str)
        ensures
            r@ == kind_description(*self),
    {
        match self {
            SourceKind::BorrowPacked => "Borrow Packed",
            SourceKind::AssignmentToNonCopyUnionField => "Assign to Union",
            SourceKind::AccessToUnionField => "Access to Union",
            SourceKind::ExternStatic => "Extern Static Variable",
            SourceKind::UnsafeFnCall(_) => "Unsafe Function Call",
            SourceKind::DerefRawPointer => "Derefence Raw Pointer",
            SourceKind::Asm => "Assembly",
            SourceKind::Static => "Global Variable",
            SourceKind::ConstantFn => "Layout Constrained Field",
        }
    }
}

} // verus!
