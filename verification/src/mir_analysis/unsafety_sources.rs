//! The decisions that classify the operations met in a body: which
//! operations are unsafe, in which unsafe context they stand, and whether
//! the user wrote that context.
use vstd::prelude::*;
use crate::mir_analysis::blocks::{BlockCheckMode, UnsafeSource, BlockUnsafetySourcesAnalysis};
use crate::results::Abi;
use crate::results::blocks::BlockUnsafetySource;
use crate::results::functions::UnsafeFnUsafetySources;
use crate::results::unsafety_sources::{Source, SourceKind};
use crate::text::decimal;

verus! {

/// The safety of the scope an operation stands in.
#[derive(Clone, Copy, PartialEq, Eq, Structural, Debug)]
pub enum Safety {
    Safe,
    /// Unsafe because of code the compiler inserted.
    BuiltinUnsafe,
    /// The body of a function declared unsafe.
    FnUnsafe,
    /// An unsafe block, by node id.
    ExplicitUnsafe(u32),
}

/// The scope of an operation: its safety and, for an unsafe block, the mode
/// of that block.
#[derive(Clone, Copy, PartialEq, Eq, Structural, Debug)]
pub struct Site {
    pub safety: Safety,
    pub explicit_block: Option<BlockCheckMode>,
}

/// A site is well formed when an unsafe block's node is a block.
pub open spec fn site_wf(site: Site) -> bool {
    site.safety is ExplicitUnsafe ==> site.explicit_block is Some
}

/// Whether the user wrote the unsafe context of a site: the body of a
/// function declared unsafe, or an unsafe block the user wrote.
pub open spec fn user_provided(site: Site) -> bool {
    match site.safety {
        Safety::Safe => false,
        Safety::BuiltinUnsafe => false,
        Safety::FnUnsafe => true,
        Safety::ExplicitUnsafe(_) => match site.explicit_block {
            Some(b) => match b {
                BlockCheckMode::DefaultBlock => false,
                BlockCheckMode::UnsafeBlock(s) => s is UserProvided,
                BlockCheckMode::PushUnsafeBlock(s) => s is UserProvided,
                BlockCheckMode::PopUnsafeBlock(s) => s is UserProvided,
            },
            None => false,
        },
    }
}

/// The node of the unsafe context of a site: the function for the body of
/// an unsafe function or compiler-inserted unsafety, the block for an unsafe
/// block, none in a safe scope.
pub open spec fn unsafety_node(site: Site, fn_node_id: u32) -> Option<u32> {
    match site.safety {
        Safety::Safe => None,
        Safety::BuiltinUnsafe => Some(fn_node_id),
        Safety::FnUnsafe => Some(fn_node_id),
        Safety::ExplicitUnsafe(h) => Some(h),
    }
}

/// Whether the user wrote the unsafe context of `site`.
pub fn is_unsafety_user_provided(site: Site) -> (r: bool)
    requires
        site_wf(site),
    ensures
        r == user_provided(site),
{
    match site.safety {
        Safety::Safe => false,
        Safety::BuiltinUnsafe => false,
        Safety::FnUnsafe => true,
        Safety::ExplicitUnsafe(_) => match site.explicit_block {
            Some(b) => match b {
                BlockCheckMode::DefaultBlock => false,
                BlockCheckMode::UnsafeBlock(s)
                | BlockCheckMode::PushUnsafeBlock(s)
                | BlockCheckMode::PopUnsafeBlock(s) => match s {
                    UnsafeSource::UserProvided => true,
                    UnsafeSource::CompilerGenerated => false,
                },
            },
            None => false,
        },
    }
}

/// The node of the unsafe context of `site` in the function `fn_node_id`.
pub fn get_unsafety_node_id(site: Site, fn_node_id: u32) -> (r: Option<u32>)
    ensures
        r == unsafety_node(site, fn_node_id),
{
    match site.safety {
        Safety::Safe => None,
        Safety::BuiltinUnsafe => Some(fn_node_id),
        Safety::FnUnsafe => Some(fn_node_id),
        Safety::ExplicitUnsafe(h) => Some(h),
    }
}

/// Who wrote the unsafe context of a site: the user, for the body of a
/// function declared unsafe and for an unsafe block the user wrote; not the
/// user in a safe scope, in code the compiler made unsafe, or in an unsafe
/// block the compiler generated. The node of the context is the function's
/// for the body of an unsafe function or compiler-made unsafety, the block's
/// for an unsafe block, and none in a safe scope.
pub proof fn unsafe_contexts_and_their_authors(site: Site, fn_node_id: u32, block: u32, s: UnsafeSource)
    ensures
        site.safety == Safety::FnUnsafe ==> user_provided(site) && unsafety_node(site, fn_node_id)
            == Some(fn_node_id),
        site.safety == Safety::BuiltinUnsafe ==> !user_provided(site) && unsafety_node(
            site,
            fn_node_id,
        ) == Some(fn_node_id),
        site.safety == Safety::Safe ==> !user_provided(site) && unsafety_node(site, fn_node_id)
            is None,
        site.safety == Safety::ExplicitUnsafe(block) && (site.explicit_block == Some(
            BlockCheckMode::UnsafeBlock(s),
        ) || site.explicit_block == Some(BlockCheckMode::PushUnsafeBlock(s))
            || site.explicit_block == Some(BlockCheckMode::PopUnsafeBlock(s))) ==> (user_provided(site)
            <==> s == UnsafeSource::UserProvided) && unsafety_node(site, fn_node_id) == Some(block),
{
}

/// What the base of a place gives: using a mutable static is using a
/// static; using an immutable foreign static is using an extern static;
/// locals, promoted constants and other statics give nothing.
pub proof fn statics_are_unsafe_to_use(base: PlaceBase, site: Site)
    ensures
        base matches PlaceBase::Static { is_mutable, .. } && is_mutable ==> base_sources(base, site)
            == seq![(SourceKind::Static, site)],
        base == (PlaceBase::Static { is_mutable: false, is_foreign: true }) ==> base_sources(base, site)
            == seq![(SourceKind::ExternStatic, site)],
        base == (PlaceBase::Static { is_mutable: false, is_foreign: false }) || base == PlaceBase::Local
            || base == PlaceBase::Promoted ==> base_sources(base, site).len() == 0,
{
}

/// What a projection through a union gives, for a place with no unaligned
/// borrow and no layout-constrained field: writing, dropping or giving as
/// assembly output a non-`Copy` field is an assignment to a non-`Copy` union
/// field, writing a `Copy` one gives nothing, and any other use is an access
/// to a union field.
pub proof fn union_fields_are_unsafe_to_touch(place: Place, ctx: PlaceContext, p: Projection, site: Site, copy: bool)
    requires
        !(ctx.is_borrow && place.is_disaligned),
        place.layout_constrained_fields == 0,
        p.internal_local_site is None,
        p.base_ty == (ProjectedTy::Union { field_is_copy: Some(copy) }),
    ensures
        ctx.is_store_drop_or_asm_output && !copy ==> projection_sources(place, ctx, p, site) == seq![
            (SourceKind::AssignmentToNonCopyUnionField, site),
        ],
        ctx.is_store_drop_or_asm_output && copy ==> projection_sources(place, ctx, p, site).len() == 0,
        !ctx.is_store_drop_or_asm_output ==> projection_sources(place, ctx, p, site) == seq![
            (SourceKind::AccessToUnionField, site),
        ],
{
    assert(repeated((SourceKind::ConstantFn, site), 0) =~= Seq::<(SourceKind, Site)>::empty());
    assert(Seq::<(SourceKind, Site)>::empty() + Seq::<(SourceKind, Site)>::empty() =~= Seq::<(SourceKind, Site)>::empty());
    assert(Seq::<(SourceKind, Site)>::empty() + Seq::<(SourceKind, Site)>::empty() + seq![(SourceKind::AccessToUnionField, site)] =~= seq![(SourceKind::AccessToUnionField, site)]);
    assert(Seq::<(SourceKind, Site)>::empty() + Seq::<(SourceKind, Site)>::empty() + seq![(SourceKind::AssignmentToNonCopyUnionField, site)] =~= seq![(SourceKind::AssignmentToNonCopyUnionField, site)]);
}

/// An unsafe operation found, with the node of its unsafe context and
/// whether the user wrote that context.
#[derive(Clone, Copy, PartialEq, Eq, Structural, Debug)]
pub struct Found {
    pub kind: SourceKind,
    pub node_id: u32,
    pub user_provided: bool,
}

/// What is recorded for an operation of kind `kind` at `site`: nothing in a
/// safe scope.
pub open spec fn found_at(kind: SourceKind, site: Site, fn_node_id: u32) -> Option<Found> {
    match unsafety_node(site, fn_node_id) {
        Some(n) => Some(Found { kind, node_id: n, user_provided: user_provided(site) }),
        None => None,
    }
}

/// What is recorded for an unsafe operation of kind `kind` at `site` in the
/// function `fn_node_id`.
pub fn add_unsafety_source(kind: SourceKind, site: Site, fn_node_id: u32) -> (r: Option<Found>)
    requires
        site_wf(site),
    ensures
        r == found_at(kind, site, fn_node_id),
{
    let user = is_unsafety_user_provided(site);
    match get_unsafety_node_id(site, fn_node_id) {
        Some(n) => Some(Found { kind, node_id: n, user_provided: user }),
        None => None,
    }
}

/// The end of a basic block, as far as unsafety goes: a call, with whether
/// the callee is unsafe and its calling convention, or anything else.
#[derive(Clone, Copy, PartialEq, Eq, Structural, Debug)]
pub enum TerminatorKind {
    Call { fn_is_unsafe: bool, abi: Abi },
    Other,
}

/// The unsafe operation of a terminator: a call of an unsafe function.
pub fn visit_terminator(terminator: TerminatorKind) -> (r: Option<SourceKind>)
    ensures
        r == match terminator {
            TerminatorKind::Call { fn_is_unsafe, abi } => if fn_is_unsafe {
                Some(SourceKind::UnsafeFnCall(abi))
            } else {
                None
            },
            TerminatorKind::Other => None,
        },
{
    match terminator {
        TerminatorKind::Call { fn_is_unsafe, abi } => {
            if fn_is_unsafe {
                Some(SourceKind::UnsafeFnCall(abi))
            } else {
                None
            }
        },
        TerminatorKind::Other => None,
    }
}

/// A statement, as far as unsafety goes: inline assembly or anything else.
#[derive(Clone, Copy, PartialEq, Eq, Structural, Debug)]
pub enum StatementKind {
    InlineAssembly,
    Other,
}

/// The unsafe operation of a statement: inline assembly.
pub fn visit_statement(statement: StatementKind) -> (r: Option<SourceKind>)
    ensures
        r == match statement {
            StatementKind::InlineAssembly => Some(SourceKind::Asm),
            StatementKind::Other => None,
        },
{
    match statement {
        StatementKind::InlineAssembly => Some(SourceKind::Asm),
        StatementKind::Other => None,
    }
}

/// The base of a place: a local, a promoted constant, or a static (mutable
/// or not, foreign or not).
#[derive(Clone, Copy, PartialEq, Eq, Structural, Debug)]
pub enum PlaceBase {
    Local,
    Promoted,
    Static { is_mutable: bool, is_foreign: bool },
}

/// The type of what a projection of a place starts from: a raw pointer, a
/// union (with, when the projection is a field, whether that field's type is
/// `Copy`), or anything else.
#[derive(Clone, Copy, PartialEq, Eq, Structural, Debug)]
pub enum ProjectedTy {
    RawPtr,
    Union { field_is_copy: Option<bool> },
    Other,
}

/// One projection of a place: the type it starts from, whether that type is
/// free of interior mutability, and, when it starts from an internal local,
/// the site of that local.
#[derive(Clone, Copy, PartialEq, Eq, Structural, Debug)]
pub struct Projection {
    pub base_ty: ProjectedTy,
    pub base_is_freeze: bool,
    pub internal_local_site: Option<Site>,
}

/// How a place is used: borrowed, mutated, and whether the use is a store,
/// a drop or an assembly output.
#[derive(Clone, Copy, PartialEq, Eq, Structural, Debug)]
pub struct PlaceContext {
    pub is_borrow: bool,
    pub is_mutating_use: bool,
    pub is_store_drop_or_asm_output: bool,
}

/// A place: its base, its projections in order, whether it is a field of a
/// packed type that may be unaligned, and how many of its field projections
/// are of a type whose scalar values are restricted.
pub struct Place {
    pub base: PlaceBase,
    pub projections: Vec<Projection>,
    pub is_disaligned: bool,
    pub layout_constrained_fields: usize,
}

/// A place is well formed when every projection out of a union that is
/// written, dropped or used as an assembly output is a field projection.
pub open spec fn place_wf(place: Place, ctx: PlaceContext) -> bool {
    forall|i: int|
        0 <= i < place.projections@.len() && ctx.is_store_drop_or_asm_output
            && (#[trigger] place.projections@[i]).base_ty is Union ==> place.projections@[i].base_ty->field_is_copy
            is Some
}

/// The unsafe operations of the base of a place: using a mutable static,
/// or else a foreign static.
pub open spec fn base_sources(base: PlaceBase, site: Site) -> Seq<(SourceKind, Site)> {
    match base {
        PlaceBase::Static { is_mutable, is_foreign } => if is_mutable {
            seq![(SourceKind::Static, site)]
        } else if is_foreign {
            seq![(SourceKind::ExternStatic, site)]
        } else {
            Seq::empty()
        },
        _ => Seq::empty(),
    }
}

/// `n` copies of an operation.
pub open spec fn repeated(x: (SourceKind, Site), n: nat) -> Seq<(SourceKind, Site)> {
    Seq::new(n, |i: int| x)
}

/// The unsafe operations of one projection of a place: a borrow of a
/// possibly unaligned field; for a mutation or a borrow of a type with
/// interior mutability, one operation per layout-constrained field of the
/// place; then, at the site of the internal local the projection starts
/// from if any, a dereference of a raw pointer, or a write of a non-`Copy`
/// field of a union, or another access to a field of a union.
pub open spec fn projection_sources(
    place: Place,
    ctx: PlaceContext,
    p: Projection,
    site: Site,
) -> Seq<(SourceKind, Site)> {
    let packed = if ctx.is_borrow && place.is_disaligned {
        seq![(SourceKind::BorrowPacked, site)]
    } else {
        Seq::empty()
    };
    let interior = ctx.is_borrow && !p.base_is_freeze;
    let constrained = if ctx.is_mutating_use || interior {
        repeated((SourceKind::ConstantFn, site), place.layout_constrained_fields as nat)
    } else {
        Seq::empty()
    };
    let at = match p.internal_local_site {
        Some(s) => s,
        None => site,
    };
    let by_type = match p.base_ty {
        ProjectedTy::RawPtr => seq![(SourceKind::DerefRawPointer, at)],
        ProjectedTy::Union { field_is_copy } => if ctx.is_store_drop_or_asm_output {
            match field_is_copy {
                Some(c) => if !c {
                    seq![(SourceKind::AssignmentToNonCopyUnionField, at)]
                } else {
                    Seq::empty()
                },
                None => Seq::empty(),
            }
        } else {
            seq![(SourceKind::AccessToUnionField, at)]
        },
        ProjectedTy::Other => Seq::empty(),
    };
    packed + constrained + by_type
}

/// The unsafe operations of the first `n` projections of a place, in order.
pub open spec fn projections_sources(place: Place, ctx: PlaceContext, site: Site, n: nat) -> Seq<(SourceKind, Site)>
    decreases n,
{
    if n == 0 {
        Seq::empty()
    } else {
        projections_sources(place, ctx, site, (n - 1) as nat) + projection_sources(
            place,
            ctx,
            place.projections@[n - 1],
            site,
        )
    }
}

/// The unsafe operations of a place used in `ctx` at `site`: those of its
/// base, then those of each projection in order.
pub open spec fn place_sources(place: Place, ctx: PlaceContext, site: Site) -> Seq<(SourceKind, Site)> {
    base_sources(place.base, site) + projections_sources(
        place,
        ctx,
        site,
        place.projections@.len(),
    )
}

/// The unsafe operations of a place used in `ctx` at `site`, each with the
/// site at which it is recorded.
pub fn visit_place(place: &Place, ctx: PlaceContext, site: Site) -> (r: Vec<(SourceKind, Site)>)
    requires
        place_wf(*place, ctx),
    ensures
        r@ == place_sources(*place, ctx, site),
{
    let mut r: Vec<(SourceKind, Site)> = Vec::new();
    match place.base {
        PlaceBase::Local => {},
        PlaceBase::Promoted => {},
        PlaceBase::Static { is_mutable, is_foreign } => {
            if is_mutable {
                r.push((SourceKind::Static, site));
            } else if is_foreign {
                r.push((SourceKind::ExternStatic, site));
            }
        },
    }
    assert(r@ =~= base_sources(place.base, site));
    let mut i: usize = 0;
    while i < place.projections.len()
        invariant
            i <= place.projections@.len(),
            place_wf(*place, ctx),
            r@ == base_sources(place.base, site) + projections_sources(*place, ctx, site, i as nat),
        decreases place.projections.len() - i,
    {
        let proj = place.projections[i];
        let ghost before = r@;
        assert(ctx.is_store_drop_or_asm_output && proj.base_ty is Union ==> proj.base_ty->field_is_copy
            is Some) by {
            assert(place.projections@[i as int] == proj);
        }
        visit_projection(place, ctx, proj, site, &mut r);
        assert(r@ =~= base_sources(place.base, site) + projections_sources(
            *place,
            ctx,
            site,
            (i + 1) as nat,
        ));
        i = i + 1;
    }
    r
}

/// Appends to `r` the unsafe operations of the projection `proj` of `place`.
fn visit_projection(
    place: &Place,
    ctx: PlaceContext,
    proj: Projection,
    site: Site,
    r: &mut Vec<(SourceKind, Site)>,
)
    requires
        ctx.is_store_drop_or_asm_output && proj.base_ty is Union ==> proj.base_ty->field_is_copy is Some,
    ensures
        final(r)@ == old(r)@ + projection_sources(*place, ctx, proj, site),
{
    let ghost before = r@;
    if ctx.is_borrow && place.is_disaligned {
        r.push((SourceKind::BorrowPacked, site));
    }
    let ghost after_packed = r@;
    let is_borrow_of_interior_mut = ctx.is_borrow && !proj.base_is_freeze;
    if ctx.is_mutating_use || is_borrow_of_interior_mut {
        let mut j: usize = 0;
        assert(r@ =~= after_packed + repeated((SourceKind::ConstantFn, site), 0));
        while j < place.layout_constrained_fields
            invariant
                j <= place.layout_constrained_fields,
                r@ == after_packed + repeated((SourceKind::ConstantFn, site), j as nat),
            decreases place.layout_constrained_fields - j,
        {
            r.push((SourceKind::ConstantFn, site));
            assert(r@ =~= after_packed + repeated((SourceKind::ConstantFn, site), (j + 1) as nat));
            j = j + 1;
        }
    } else {
        assert(r@ =~= after_packed + Seq::<(SourceKind, Site)>::empty());
    }
    let ghost after_constrained = r@;
    let at = match proj.internal_local_site {
        Some(s) => s,
        None => site,
    };
    match proj.base_ty {
        ProjectedTy::RawPtr => {
            r.push((SourceKind::DerefRawPointer, at));
        },
        ProjectedTy::Union { field_is_copy } => {
            if ctx.is_store_drop_or_asm_output {
                match field_is_copy {
                    Some(c) => {
                        if !c {
                            r.push((SourceKind::AssignmentToNonCopyUnionField, at));
                        }
                    },
                    None => {},
                }
            } else {
                r.push((SourceKind::AccessToUnionField, at));
            }
        },
        ProjectedTy::Other => {},
    }
    assert(r@ =~= before + projection_sources(*place, ctx, proj, site));
}

/// Something that collects the unsafe operations found in bodies.
pub trait UnsafetySourceCollector {
    fn add_unsafety_source(&mut self, kind: SourceKind, loc: String, node_id: u32, user_provided: bool);
}

impl UnsafetySourceCollector for BlockUnsafetySourcesAnalysis {
    fn add_unsafety_source(&mut self, kind: SourceKind, loc: String, node_id: u32, user_provided: bool)
        ensures
            final(self).spec_sources() == old(self).spec_sources().push(
                final(self).spec_sources().last(),
            ),
            final(self).spec_sources().last().block_id@ == decimal(node_id as nat),
            final(self).spec_sources().last().source == (Source { loc, kind, user_provided }),
    {
        BlockUnsafetySourcesAnalysis::add_unsafety_source(self, kind, loc, node_id, user_provided);
        assert(self.spec_sources() =~= old(self).spec_sources().push(self.spec_sources().last()));
    }
}

impl UnsafetySourceCollector for UnsafeFnUsafetySources {
    fn add_unsafety_source(&mut self, kind: SourceKind, loc: String, node_id: u32, user_provided: bool)
        ensures
            final(self).spec_name() == old(self).spec_name(),
            final(self).spec_from_trait() == old(self).spec_from_trait(),
            final(self).spec_arguments() == old(self).spec_arguments(),
            final(self).spec_sources() == old(self).spec_sources().push(
                Source { kind, loc, user_provided },
            ),
    {
        crate::mir_analysis::functions::add_unsafety_source(self, kind, loc, user_provided);
    }
}

} // verus!
