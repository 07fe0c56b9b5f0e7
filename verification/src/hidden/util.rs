//! Crates that the analysis leaves out.
use vstd::prelude::*;

verus! {

/// The crates of the Rust distribution itself, which are never analysed.
pub open spec fn excluded(name: Seq<char>) -> bool {
    name == "alloc"@ || name == "std"@ || name == "core"@
}

/// Whether `crate_name` is one of the crates of the Rust distribution.
pub fn is_excluded_crate(crate_name: &String) -> (r: bool)
    ensures
        r == excluded(crate_name@),
{
    let a = String::from_str("alloc");
    let s = String::from_str("std");
    let c = String::from_str("core");
    *crate_name == a || *crate_name == s || *crate_name == c
}

/// What a node of the crate's syntax tree is, as far as the analysis asks.
#[derive(Clone, Copy, PartialEq, Eq, Structural, Debug)]
pub enum HirNode {
    /// An item: a function (declared unsafe or not) or another item.
    Item(ItemKind),
    /// An item of an `impl` block: a method (declared unsafe or not) or
    /// another associated item.
    ImplItem(ImplItemKind),
    /// An expression (a closure owning a body).
    Expr,
    /// An anonymous constant (an array length, for instance).
    AnonConst,
    Other,
}

#[derive(Clone, Copy, PartialEq, Eq, Structural, Debug)]
pub enum ItemKind {
    Fn { is_unsafe: bool },
    Other,
}

#[derive(Clone, Copy, PartialEq, Eq, Structural, Debug)]
pub enum ImplItemKind {
    Method { is_unsafe: bool },
    Other,
}

/// The node is a function item declared `unsafe`.
pub fn is_unsafe_fn(node: HirNode) -> (r: bool)
    ensures
        r == (node matches HirNode::Item(ItemKind::Fn { is_unsafe }) && is_unsafe),
{
    match node {
        HirNode::Item(ItemKind::Fn { is_unsafe }) => is_unsafe,
        _ => false,
    }
}

/// The node is a method of an `impl` block declared `unsafe`.
pub fn is_unsafe_method(node: HirNode) -> (r: bool)
    ensures
        r == (node matches HirNode::ImplItem(ImplItemKind::Method { is_unsafe }) && is_unsafe),
{
    match node {
        HirNode::ImplItem(ImplItemKind::Method { is_unsafe }) => is_unsafe,
        _ => false,
    }
}

/// The body owned by the node is that of a stand-alone function or method:
/// the node is an item or an `impl` item (closures and anonymous constants
/// are analysed with the function around them).
pub fn is_fn_or_method(node: HirNode) -> (r: bool)
    ensures
        r == (node is Item || node is ImplItem),
{
    match node {
        HirNode::Item(_) => true,
        HirNode::ImplItem(_) => true,
        HirNode::Expr => false,
        HirNode::AnonConst => false,
        HirNode::Other => false,
    }
}

} // verus!
