use unsafe_analysis::hidden::fn_unsafety::{find_unsafe_type, find_unsafe_type_in_list, process_ty_array as hidden_process_ty_array, process_type as hidden_process_type, ArgumentKind as HiddenKind, HirTy, HirTyKind, UnsafeFnUsafetyAnalysis};
use unsafe_analysis::hidden::implicit_unsafe::ImplicitUnsafe;
use unsafe_analysis::hidden::unsafe_blocks::UnsafeInBody;
use unsafe_analysis::hidden::util::{is_excluded_crate, is_fn_or_method, is_unsafe_fn, is_unsafe_method, HirNode, ImplItemKind, ItemKind};
use unsafe_analysis::mir_analysis::blocks::{Block, run_summary_analysis, run_unsafety_sources_analysis, BlockCheckMode, BlockUnsafetySourcesAnalysis, BlockVisitor, UnsafeSource};
use unsafe_analysis::mir_analysis::functions::{add_unsafety_source as add_fn_source, build_short_fn_info, process_fn_decl, process_ty_array, process_type, run_sources_analysis};
use unsafe_analysis::mir_analysis::unsafety_sources::{add_unsafety_source, get_unsafety_node_id, is_unsafety_user_provided, visit_place, visit_statement, visit_terminator, Found, Place, PlaceBase, PlaceContext, ProjectedTy, Projection, Safety, Site, StatementKind, TerminatorKind};
use unsafe_analysis::results::blocks::BlockSummary;
use unsafe_analysis::results::functions::ArgumentKind;
use unsafe_analysis::results::unsafety_sources::SourceKind;
use unsafe_analysis::results::Abi;

fn ty(id: u32, text: &str, kind: HirTyKind) -> HirTy {
    HirTy { id, text: text.to_string(), kind }
}

#[test]
fn block_counts() {
    let blocks = vec![
        BlockCheckMode::DefaultBlock,
        BlockCheckMode::UnsafeBlock(UnsafeSource::UserProvided),
        BlockCheckMode::PushUnsafeBlock(UnsafeSource::CompilerGenerated),
        BlockCheckMode::PopUnsafeBlock(UnsafeSource::UserProvided),
    ];
    assert_eq!(run_summary_analysis(&blocks), BlockSummary::new(2, 3, 4));
    assert_eq!(run_summary_analysis(&Vec::new()), BlockSummary::new(0, 0, 0));
    let mut v = BlockVisitor::new();
    v.count_block(BlockCheckMode::UnsafeBlock(UnsafeSource::CompilerGenerated));
    assert_eq!((v.user_unsafe_blocks, v.unsafe_blocks, v.total_blocks), (0, 1, 1));
    let leaf = |rules: BlockCheckMode| Block { rules, nested: vec![] };
    let tree = Block {
        rules: BlockCheckMode::DefaultBlock,
        nested: vec![
            Block {
                rules: BlockCheckMode::UnsafeBlock(UnsafeSource::UserProvided),
                nested: vec![leaf(BlockCheckMode::DefaultBlock), leaf(BlockCheckMode::UnsafeBlock(UnsafeSource::UserProvided))],
            },
            leaf(BlockCheckMode::PushUnsafeBlock(UnsafeSource::CompilerGenerated)),
        ],
    };
    let mut w = BlockVisitor::new();
    w.visit_block(&tree);
    assert_eq!((w.user_unsafe_blocks, w.unsafe_blocks, w.total_blocks), (2, 3, 5));
    w.visit_block(&leaf(BlockCheckMode::DefaultBlock));
    assert_eq!((w.user_unsafe_blocks, w.unsafe_blocks, w.total_blocks), (2, 3, 6));
}

#[test]
fn unsafe_in_body_from_blocks() {
    let blocks = vec![BlockCheckMode::DefaultBlock, BlockCheckMode::UnsafeBlock(UnsafeSource::CompilerGenerated)];
    assert!(UnsafeInBody::from_blocks("f".to_string(), &blocks).has_unsafe);
    let pushed = vec![BlockCheckMode::PushUnsafeBlock(UnsafeSource::UserProvided)];
    assert!(!UnsafeInBody::from_blocks("g".to_string(), &pushed).has_unsafe);
    assert_eq!(UnsafeInBody::get_output_filename(), "10_unsafe_in_call_tree");
}

#[test]
fn block_sources_in_function_order() {
    let mut a = BlockUnsafetySourcesAnalysis::new();
    a.add_unsafety_source(SourceKind::Static, "l1".to_string(), 5, true);
    let mut b = BlockUnsafetySourcesAnalysis::new();
    b.add_unsafety_source(SourceKind::Asm, "l2".to_string(), 6, false);
    b.add_unsafety_source(SourceKind::ExternStatic, "l3".to_string(), 6, false);
    let all = run_unsafety_sources_analysis(vec![a, BlockUnsafetySourcesAnalysis::new(), b]);
    let ids: Vec<&str> = all.iter().map(|s| s.block_id.as_str()).collect();
    assert_eq!(ids, vec!["5", "6", "6"]);
    let kinds: Vec<SourceKind> = all.iter().map(|s| s.source.kind).collect();
    assert_eq!(kinds, vec![SourceKind::Static, SourceKind::Asm, SourceKind::ExternStatic]);
    assert_eq!(all[1].source.loc, "l2");
    assert!(all[0].source.user_provided);
}

fn site(safety: Safety, block: Option<BlockCheckMode>) -> Site {
    Site { safety, explicit_block: block }
}

#[test]
fn unsafety_context_of_a_site() {
    let user_block = site(Safety::ExplicitUnsafe(9), Some(BlockCheckMode::UnsafeBlock(UnsafeSource::UserProvided)));
    let generated = site(Safety::ExplicitUnsafe(9), Some(BlockCheckMode::UnsafeBlock(UnsafeSource::CompilerGenerated)));
    assert!(is_unsafety_user_provided(user_block));
    assert!(!is_unsafety_user_provided(generated));
    assert!(is_unsafety_user_provided(site(Safety::FnUnsafe, None)));
    assert!(!is_unsafety_user_provided(site(Safety::BuiltinUnsafe, None)));
    assert_eq!(get_unsafety_node_id(user_block, 1), Some(9));
    assert_eq!(get_unsafety_node_id(site(Safety::FnUnsafe, None), 1), Some(1));
    assert_eq!(get_unsafety_node_id(site(Safety::Safe, None), 1), None);
    assert_eq!(
        add_unsafety_source(SourceKind::Asm, user_block, 1),
        Some(Found { kind: SourceKind::Asm, node_id: 9, user_provided: true })
    );
    assert_eq!(add_unsafety_source(SourceKind::Asm, site(Safety::Safe, None), 1), None);
}

#[test]
fn terminators_and_statements() {
    assert_eq!(visit_terminator(TerminatorKind::Call { fn_is_unsafe: true, abi: Abi::C }), Some(SourceKind::UnsafeFnCall(Abi::C)));
    assert_eq!(visit_terminator(TerminatorKind::Call { fn_is_unsafe: false, abi: Abi::Rust }), None);
    assert_eq!(visit_terminator(TerminatorKind::Other), None);
    assert_eq!(visit_statement(StatementKind::InlineAssembly), Some(SourceKind::Asm));
    assert_eq!(visit_statement(StatementKind::Other), None);
}

fn ctx(is_borrow: bool, is_mutating_use: bool, is_store: bool) -> PlaceContext {
    PlaceContext { is_borrow, is_mutating_use, is_store_drop_or_asm_output: is_store }
}

#[test]
fn places_of_statics_and_pointers() {
    let s = site(Safety::FnUnsafe, None);
    let inner = site(Safety::BuiltinUnsafe, None);
    let static_place = Place { base: PlaceBase::Static { is_mutable: true, is_foreign: true }, projections: vec![], is_disaligned: false, layout_constrained_fields: 0 };
    assert_eq!(visit_place(&static_place, ctx(false, false, false), s), vec![(SourceKind::Static, s)]);
    let foreign = Place { base: PlaceBase::Static { is_mutable: false, is_foreign: true }, projections: vec![], is_disaligned: false, layout_constrained_fields: 0 };
    assert_eq!(visit_place(&foreign, ctx(false, false, false), s), vec![(SourceKind::ExternStatic, s)]);
    let deref = Place {
        base: PlaceBase::Local,
        projections: vec![Projection { base_ty: ProjectedTy::RawPtr, base_is_freeze: true, internal_local_site: Some(inner) }],
        is_disaligned: false,
        layout_constrained_fields: 0,
    };
    assert_eq!(visit_place(&deref, ctx(false, false, false), s), vec![(SourceKind::DerefRawPointer, inner)]);
}

#[test]
fn places_of_unions_and_packed_fields() {
    let s = site(Safety::FnUnsafe, None);
    let union_field = |copy: Option<bool>| Place {
        base: PlaceBase::Local,
        projections: vec![Projection { base_ty: ProjectedTy::Union { field_is_copy: copy }, base_is_freeze: true, internal_local_site: None }],
        is_disaligned: false,
        layout_constrained_fields: 0,
    };
    assert_eq!(visit_place(&union_field(Some(false)), ctx(false, true, true), s), vec![(SourceKind::AssignmentToNonCopyUnionField, s)]);
    assert!(visit_place(&union_field(Some(true)), ctx(false, true, true), s).is_empty());
    assert_eq!(visit_place(&union_field(None), ctx(false, false, false), s), vec![(SourceKind::AccessToUnionField, s)]);
    let packed = Place {
        base: PlaceBase::Local,
        projections: vec![Projection { base_ty: ProjectedTy::Other, base_is_freeze: false, internal_local_site: None }],
        is_disaligned: true,
        layout_constrained_fields: 2,
    };
    assert_eq!(
        visit_place(&packed, ctx(true, false, false), s),
        vec![(SourceKind::BorrowPacked, s), (SourceKind::ConstantFn, s), (SourceKind::ConstantFn, s)]
    );
    assert!(visit_place(&packed, ctx(false, false, false), s).is_empty());
}

#[test]
fn unsafe_types_in_signatures() {
    let ptr = ty(3, "*const u8", HirTyKind::Ptr);
    let slice = ty(2, "[*const u8]", HirTyKind::Slice(Box::new(ptr)));
    assert_eq!(find_unsafe_type(&slice).map(|t| t.id), Some(3));
    let unsafe_fn = ty(7, "unsafe fn()", HirTyKind::BareFn { is_unsafe: true, inputs: vec![], output: None });
    let safe_fn = ty(8, "fn(*mut i32)", HirTyKind::BareFn { is_unsafe: false, inputs: vec![ty(9, "*mut i32", HirTyKind::Ptr)], output: None });
    assert_eq!(find_unsafe_type(&safe_fn).map(|t| t.id), Some(9));
    let plain = ty(1, "u32", HirTyKind::PathResolved(None, vec![]));
    assert!(find_unsafe_type(&plain).is_none());
    let u8_ty = ty(10, "u8", HirTyKind::PathResolved(None, vec![]));
    assert!(find_unsafe_type(&ty(4, "&u8", HirTyKind::Rptr(Box::new(u8_ty)))).is_none());
    let behind_ref = ty(11, "&*const u8", HirTyKind::Rptr(Box::new(ty(12, "*const u8", HirTyKind::Ptr))));
    assert_eq!(find_unsafe_type(&behind_ref).map(|t| t.id), Some(12));
    let in_vec = ty(13, "Vec<*const u8>", HirTyKind::PathResolved(None, vec![ty(14, "*const u8", HirTyKind::Ptr)]));
    assert_eq!(find_unsafe_type(&in_vec).map(|t| t.id), Some(14));
    let returning = ty(15, "fn() -> *const u8", HirTyKind::BareFn { is_unsafe: false, inputs: vec![], output: Some(Box::new(ty(16, "*const u8", HirTyKind::Ptr))) });
    assert_eq!(find_unsafe_type(&returning).map(|t| t.id), Some(16));
    let dyn_ty = ty(17, "dyn Fn(*mut u8)", HirTyKind::TraitObject(vec![ty(18, "*mut u8", HirTyKind::Ptr)]));
    assert_eq!(find_unsafe_type(&dyn_ty).map(|t| t.id), Some(18));
    let relative = ty(19, "<T>::A<*mut u8>", HirTyKind::PathTypeRelative(Box::new(ty(20, "T", HirTyKind::Infer)), vec![ty(21, "*mut u8", HirTyKind::Ptr)]));
    assert_eq!(find_unsafe_type(&relative).map(|t| t.id), Some(21));
    let list = vec![ty(1, "u32", HirTyKind::PathResolved(None, vec![])), unsafe_fn, safe_fn];
    assert_eq!(find_unsafe_type_in_list(&list).map(|t| t.id), Some(7));
    let a = hidden_process_ty_array(&list).unwrap();
    assert_eq!((a.ty_node_id, a.kind), (7, HiddenKind::UnsafeFunction));
    let p = hidden_process_type(&ty(5, "(u8, *mut u8)", HirTyKind::Tup(vec![ty(6, "*mut u8", HirTyKind::Ptr)]))).unwrap();
    assert_eq!((p.ty_node_id, p.kind), (6, HiddenKind::RawPointer));
    let behind = process_type(&ty(30, "&*const u8", HirTyKind::Rptr(Box::new(ty(31, "*const u8", HirTyKind::Ptr))))).unwrap();
    assert_eq!((behind.type_info().as_str(), behind.kind()), ("*const u8", ArgumentKind::RawPointer));
    let r = process_type(&ty(6, "*mut u8", HirTyKind::Ptr)).unwrap();
    assert_eq!((r.type_info().as_str(), r.kind()), ("*mut u8", ArgumentKind::RawPointer));
    assert!(process_ty_array(&vec![plain]).is_none());
}

#[test]
fn unsafe_function_declarations() {
    let inputs = vec![
        ty(1, "u32", HirTyKind::PathResolved(None, vec![])),
        ty(2, "*const u8", HirTyKind::Ptr),
        ty(3, "unsafe fn()", HirTyKind::BareFn { is_unsafe: true, inputs: vec![], output: None }),
    ];
    let method = HirNode::ImplItem(ImplItemKind::Method { is_unsafe: true });
    let d = process_fn_decl("m".to_string(), method, Some(&inputs));
    assert!(d.from_trait());
    let args: Vec<(&str, ArgumentKind)> = d.arguments().iter().map(|a| (a.type_info().as_str(), a.kind())).collect();
    assert_eq!(args, vec![("*const u8", ArgumentKind::RawPointer), ("unsafe fn()", ArgumentKind::UnsafeFunction)]);
    let f = process_fn_decl("f".to_string(), HirNode::Item(ItemKind::Fn { is_unsafe: true }), None);
    assert!(!f.from_trait() && f.arguments().is_empty() && f.sources().is_empty());
    assert!(f.has_no_reason());

    let mut analysis = UnsafeFnUsafetyAnalysis::new(11);
    analysis.process_fn_decl(Some(&inputs));
    let ids: Vec<u32> = analysis.arguments.iter().map(|a| a.ty_node_id).collect();
    assert_eq!(ids, vec![2, 3]);
    analysis.process_fn_decl(None);
    assert_eq!(analysis.arguments.len(), 2);
}

#[test]
fn functions_without_a_reason() {
    let mut with_source = process_fn_decl("a".to_string(), HirNode::Item(ItemKind::Fn { is_unsafe: true }), None);
    add_fn_source(&mut with_source, SourceKind::DerefRawPointer, "x".to_string(), true);
    assert_eq!(with_source.sources().len(), 1);
    let bare = process_fn_decl("b".to_string(), HirNode::Item(ItemKind::Fn { is_unsafe: true }), None);
    let fns = vec![
        (Some(with_source), build_short_fn_info("a".to_string(), 1, "l1".to_string())),
        (None, build_short_fn_info("c".to_string(), 3, "l3".to_string())),
        (Some(bare), build_short_fn_info("b".to_string(), 20, "l2".to_string())),
    ];
    let (analysed, no_reason) = run_sources_analysis(fns);
    let names: Vec<&str> = analysed.iter().map(|d| d.name().as_str()).collect();
    assert_eq!(names, vec!["a", "b"]);
    assert_eq!(no_reason.len(), 1);
    assert_eq!(no_reason[0].name(), "b");
    assert_eq!(no_reason[0].node_id(), "20");
}

#[test]
fn hir_nodes() {
    assert!(is_unsafe_fn(HirNode::Item(ItemKind::Fn { is_unsafe: true })));
    assert!(!is_unsafe_fn(HirNode::Item(ItemKind::Fn { is_unsafe: false })));
    assert!(!is_unsafe_fn(HirNode::ImplItem(ImplItemKind::Method { is_unsafe: true })));
    assert!(is_unsafe_method(HirNode::ImplItem(ImplItemKind::Method { is_unsafe: true })));
    assert!(is_fn_or_method(HirNode::Item(ItemKind::Other)));
    assert!(!is_fn_or_method(HirNode::Expr));
    assert!(is_excluded_crate(&"std".to_string()));
    assert!(is_excluded_crate(&"core".to_string()));
    assert!(!is_excluded_crate(&"libc".to_string()));
}

#[test]
fn implicit_unsafe_bodies() {
    let mut iu = ImplicitUnsafe::new();
    iu.check_body(1, HirNode::Item(ItemKind::Fn { is_unsafe: true }));
    iu.check_body(2, HirNode::Item(ItemKind::Fn { is_unsafe: false }));
    iu.check_body(3, HirNode::ImplItem(ImplItemKind::Method { is_unsafe: false }));
    iu.check_body(4, HirNode::AnonConst);
    let s = iu.summary();
    assert_eq!((s.unsafe_no(), s.total()), (1, 3));
    assert_eq!(iu.unsafe_functions[0].decl_id(), 1);
    assert_eq!(iu.normal_functions[1].decl_id(), 3);
}
