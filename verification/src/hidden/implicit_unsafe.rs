//! The lint pass that sorts the functions of a crate into those declared
//! unsafe and the others, as their bodies are met.
use vstd::prelude::*;
use crate::hidden::fn_info::{FnInfo, FnInfoView};
use crate::hidden::util::{HirNode, ImplItemKind, ItemKind, is_fn_or_method, is_unsafe_fn, is_unsafe_method};
use crate::results::functions::Summary;

verus! {

/// The functions met so far: those not declared unsafe and those declared
/// unsafe, as call-graph nodes in the order met.
pub struct ImplicitUnsafe {
    pub normal_functions: Vec<FnInfo>,
    pub unsafe_functions: Vec<FnInfo>,
}

/// The contents of a list of nodes.
pub open spec fn node_views(v: Seq<FnInfo>) -> Seq<FnInfoView> {
    v.map_values(|f: FnInfo| f@)
}

/// A node for the function declared at `id`, with no call recorded.
pub open spec fn fresh_node(id: u32) -> FnInfoView {
    FnInfoView { decl_id: id, local_calls: Seq::empty(), external_calls: Seq::empty() }
}

/// Where the owner of a body goes: nowhere when it is not a function or
/// method, among the unsafe functions when declared unsafe, among the others
/// otherwise. The first component says whether it is kept at all.
pub open spec fn body_owner_class(node: HirNode) -> (bool, bool) {
    (
        node is Item || node is ImplItem,
        (node matches HirNode::Item(crate::hidden::util::ItemKind::Fn { is_unsafe }) && is_unsafe)
            || (node matches HirNode::ImplItem(
            crate::hidden::util::ImplItemKind::Method { is_unsafe },
        ) && is_unsafe),
    )
}

/// Where the owner of a body goes: a function or a method declared unsafe
/// (an `unsafe fn` item, or an `unsafe fn` in an `impl` block) among the
/// unsafe functions; any other function, method or item among the others;
/// an expression (closure), an anonymous constant or anything else nowhere.
pub proof fn body_owners_are_sorted_by_declared_unsafety(node: HirNode)
    ensures
        node == HirNode::Item(ItemKind::Fn { is_unsafe: true }) ==> body_owner_class(node) == (true, true),
        node == HirNode::ImplItem(ImplItemKind::Method { is_unsafe: true }) ==> body_owner_class(node)
            == (true, true),
        node == HirNode::Item(ItemKind::Fn { is_unsafe: false }) ==> body_owner_class(node) == (true, false),
        node == HirNode::ImplItem(ImplItemKind::Method { is_unsafe: false }) ==> body_owner_class(node)
            == (true, false),
        node == HirNode::Item(ItemKind::Other) ==> body_owner_class(node) == (true, false),
        node == HirNode::ImplItem(ImplItemKind::Other) ==> body_owner_class(node) == (true, false),
        node == HirNode::Expr || node == HirNode::AnonConst || node == HirNode::Other
            ==> !body_owner_class(node).0,
{
}

impl ImplicitUnsafe {
    pub fn new() -> (r: Self)
        ensures
            r.normal_functions@.len() == 0,
            r.unsafe_functions@.len() == 0,
    {
        Self { normal_functions: Vec::new(), unsafe_functions: Vec::new() }
    }

    pub fn push_normal_fn_info(&mut self, node_id: u32)
        ensures
            node_views(final(self).normal_functions@) == node_views(old(self).normal_functions@).push(
                fresh_node(node_id),
            ),
            final(self).unsafe_functions@ == old(self).unsafe_functions@,
    {
        let ghost before = self.normal_functions@;
        let f = FnInfo::new(node_id);
        assert(f@ == fresh_node(node_id));
        self.normal_functions.push(f);
        assert(node_views(self.normal_functions@) =~= node_views(before).push(fresh_node(node_id)));
    }

    pub fn push_unsafe_fn_info(&mut self, node_id: u32)
        ensures
            node_views(final(self).unsafe_functions@) == node_views(old(self).unsafe_functions@).push(
                fresh_node(node_id),
            ),
            final(self).normal_functions@ == old(self).normal_functions@,
    {
        let ghost before = self.unsafe_functions@;
        let f = FnInfo::new(node_id);
        assert(f@ == fresh_node(node_id));
        self.unsafe_functions.push(f);
        assert(node_views(self.unsafe_functions@) =~= node_views(before).push(fresh_node(node_id)));
    }

    /// Records the owner `owner_node_id` of a body, of kind `node`: a
    /// function or method goes among the unsafe functions when declared
    /// unsafe and among the others otherwise; any other owner is left out.
    pub fn check_body(&mut self, owner_node_id: u32, node: HirNode)
        ensures
            ({
                let (kept, declared_unsafe) = body_owner_class(node);
                if !kept {
                    final(self).normal_functions@ == old(self).normal_functions@
                        && final(self).unsafe_functions@ == old(self).unsafe_functions@
                } else if declared_unsafe {
                    node_views(final(self).unsafe_functions@) == node_views(
                        old(self).unsafe_functions@,
                    ).push(fresh_node(owner_node_id)) && final(self).normal_functions@
                        == old(self).normal_functions@
                } else {
                    node_views(final(self).normal_functions@) == node_views(
                        old(self).normal_functions@,
                    ).push(fresh_node(owner_node_id)) && final(self).unsafe_functions@
                        == old(self).unsafe_functions@
                }
            }),
    {
        if is_fn_or_method(node) {
            if is_unsafe_fn(node) {
                self.push_unsafe_fn_info(owner_node_id);
            } else {
                if is_unsafe_method(node) {
                    self.push_unsafe_fn_info(owner_node_id);
                } else {
                    self.push_normal_fn_info(owner_node_id);
                }
            }
        }
    }

    /// The count of unsafe functions out of all functions met.
    pub fn summary(&self) -> (r: Summary)
        requires
            self.unsafe_functions@.len() + self.normal_functions@.len() <= usize::MAX,
        ensures
            r.spec_unsafe_no() == self.unsafe_functions@.len(),
            r.spec_total() == self.unsafe_functions@.len() + self.normal_functions@.len(),
    {
        Summary::new(
            self.unsafe_functions.len(),
            self.unsafe_functions.len() + self.normal_functions.len(),
        )
    }
}

} // verus!
