use unsafe_analysis::collect::dependencies::{combine_dependencies, count_dependencies, dependencies_per_crate, tally_classes, CrateClass, CrateUnsafety};
use unsafe_analysis::collect::rows::{block_call_row, block_source_row, function_source_rows};
use unsafe_analysis::collect::source_summary::SourceSummary;
use unsafe_analysis::collect::tallies::{count_records, count_unsafe_functions, sum_block_summaries, sum_fn_summaries, unsafe_function_counts};
use unsafe_analysis::results::blocks::{BlockSummary, BlockUnsafetySource};
use unsafe_analysis::results::functions::{Argument, ArgumentKind, Summary, UnsafeFnUsafetySources};
use unsafe_analysis::results::implicit::{FnType, UnsafeInBody};
use unsafe_analysis::results::unsafety_sources::{Source, SourceKind};
use unsafe_analysis::results::Abi;

fn source(kind: SourceKind, user_provided: bool) -> Source {
    Source { loc: "src/lib.rs:1".to_string(), kind, user_provided }
}

#[test]
fn records_are_the_nonempty_lines() {
    let lines = vec!["{}".to_string(), "".to_string(), "x".to_string(), "".to_string()];
    assert_eq!(count_records(&lines), 2);
    assert_eq!(count_records(&Vec::new()), 0);
}

#[test]
fn unsafe_functions_counted_by_type() {
    let records = vec![
        UnsafeInBody::new("a".to_string(), FnType::Safe, "a".to_string()),
        UnsafeInBody::new("b".to_string(), FnType::Unsafe, "b".to_string()),
        UnsafeInBody::new("c".to_string(), FnType::NormalNotSafe, "c".to_string()),
        UnsafeInBody::new("d".to_string(), FnType::Parametric, "d".to_string()),
    ];
    assert_eq!(count_unsafe_functions(&records), 2);
}

#[test]
fn summaries_without_functions_are_left_out() {
    let s = vec![Summary::new(1, 4), Summary::new(0, 0), Summary::new(0, 3)];
    assert_eq!(unsafe_function_counts(&s), vec![1, 0]);
}

#[test]
fn sums_of_counts() {
    let b = vec![BlockSummary::new(1, 2, 10), BlockSummary::new(0, 3, 5)];
    assert_eq!(sum_block_summaries(&b), BlockSummary::new(1, 5, 15));
    assert_eq!(sum_block_summaries(&Vec::new()), BlockSummary::new(0, 0, 0));
    let f = vec![Summary::new(2, 7), Summary::new(1, 1)];
    let t = sum_fn_summaries(&f);
    assert_eq!((t.unsafe_no(), t.total()), (3, 8));
}

fn entry(name: &str, user: usize, unsafe_blocks: usize, total: usize, unsafe_fns: usize, fns: usize) -> (String, BlockSummary, Summary) {
    (name.to_string(), BlockSummary::new(user, unsafe_blocks, total), Summary::new(unsafe_fns, fns))
}

#[test]
fn own_counts_and_dependency_sums() {
    let entries = vec![
        entry("dep1", 1, 2, 3, 1, 4),
        entry("me", 5, 5, 9, 0, 2),
        entry("dep2", 0, 1, 6, 2, 3),
    ];
    let u = combine_dependencies(&"me".to_string(), &entries);
    assert_eq!(u.current_blocks, BlockSummary::new(5, 5, 9));
    assert_eq!((u.current_fns.unsafe_no(), u.current_fns.total()), (0, 2));
    assert_eq!(u.dependencies_blocks, BlockSummary::new(1, 3, 9));
    assert_eq!((u.dependencies_fns.unsafe_no(), u.dependencies_fns.total()), (3, 7));
    let c = u.classify();
    assert_eq!(c, CrateClass { counted: true, from_dependency_only: false, both: true });
}

#[test]
fn the_last_own_entry_wins() {
    let entries = vec![entry("me", 1, 1, 1, 1, 1), entry("me", 0, 0, 4, 0, 2)];
    let u = combine_dependencies(&"me".to_string(), &entries);
    assert_eq!(u.current_blocks, BlockSummary::new(0, 0, 4));
    assert_eq!(u.dependencies_blocks, BlockSummary::new(0, 0, 0));
    assert!(!u.classify().counted);
}

#[test]
fn classes_of_crates() {
    let zero = BlockSummary::new(0, 0, 0);
    let only_deps = CrateUnsafety {
        current_blocks: zero,
        dependencies_blocks: BlockSummary::new(2, 2, 8),
        current_fns: Summary::new(0, 3),
        dependencies_fns: Summary::new(0, 5),
    };
    assert_eq!(only_deps.classify(), CrateClass { counted: true, from_dependency_only: true, both: false });
    let nothing = CrateUnsafety {
        current_blocks: zero,
        dependencies_blocks: zero,
        current_fns: Summary::new(0, 3),
        dependencies_fns: Summary::new(0, 0),
    };
    assert_eq!(nothing.classify(), CrateClass { counted: false, from_dependency_only: false, both: false });
    let own_only = CrateUnsafety {
        current_blocks: BlockSummary::new(1, 1, 2),
        dependencies_blocks: zero,
        current_fns: Summary::new(0, 1),
        dependencies_fns: Summary::new(0, 0),
    };
    assert_eq!(own_only.classify(), CrateClass { counted: true, from_dependency_only: false, both: false });
    let tallies = tally_classes(&vec![only_deps.classify(), nothing.classify(), own_only.classify()]);
    assert_eq!(tallies, (1, 0, 2));
}

#[test]
fn dependency_counts() {
    let names = vec!["me".to_string(), "a".to_string(), "b".to_string(), "me".to_string()];
    assert_eq!(count_dependencies(&"me".to_string(), &names), 2);
    assert_eq!(dependencies_per_crate(&vec![2, 3, 5]), 3);
    assert_eq!(dependencies_per_crate(&vec![0]), 0);
}

fn unsafe_fn(from_trait: bool, kinds: &[SourceKind], args: usize) -> UnsafeFnUsafetySources {
    let mut f = UnsafeFnUsafetySources::new("f".to_string(), from_trait);
    for k in kinds {
        f.add_source(source(*k, true));
    }
    for _ in 0..args {
        f.add_argument(Argument::new("*const u8".to_string(), ArgumentKind::RawPointer));
    }
    f
}

#[test]
fn reasons_of_a_function() {
    let f = unsafe_fn(false, &[SourceKind::DerefRawPointer, SourceKind::Static], 0);
    let s = SourceSummary::of_function(&f);
    assert!(s.raw_pointer && s.static_access);
    assert!(!s.unsafe_fn_calls && !s.argument && !s.from_trait);
    assert!(s.has_reason());
    assert_eq!(s.row().as_str(), "true\tfalse\ttrue\tfalse\ttrue\tfalse\tfalse\tfalse\tfalse\tfalse\tfalse");
    let none = SourceSummary::of_function(&unsafe_fn(false, &[], 0));
    assert!(!none.has_reason());
    assert_eq!(none, SourceSummary::new());
    let arg = SourceSummary::of_function(&unsafe_fn(true, &[], 2));
    assert!(arg.argument && arg.from_trait);
}

#[test]
fn rows_of_a_function() {
    let f = unsafe_fn(true, &[SourceKind::UnsafeFnCall(Abi::C), SourceKind::Asm], 1);
    let rows = function_source_rows(&f, "mycrate");
    assert_eq!(
        rows,
        vec![
            "Unsafe Function Call,true,mycrate".to_string(),
            "Assembly,true,mycrate".to_string(),
            "From Trait,true,mycrate".to_string(),
            "Raw Pointer Argument,true,mycrate".to_string(),
        ]
    );
    assert!(function_source_rows(&unsafe_fn(false, &[], 0), "c").is_empty());
}

#[test]
fn rows_of_a_block() {
    let call = BlockUnsafetySource { block_id: "17".to_string(), source: source(SourceKind::UnsafeFnCall(Abi::SysV64), false) };
    assert_eq!(block_source_row(&call, "k").as_str(), "17,Unsafe Function Call,false,k");
    assert_eq!(block_call_row(&call), Some("SysV64\t17\tfalse".to_string()));
    let deref = BlockUnsafetySource { block_id: "3".to_string(), source: source(SourceKind::DerefRawPointer, true) };
    assert_eq!(block_source_row(&deref, "k").as_str(), "3,Derefence Raw Pointer,true,k");
    assert_eq!(block_call_row(&deref), None);
}

#[test]
fn summary_reason_matches_record_reason() {
    for f in [
        unsafe_fn(false, &[], 0),
        unsafe_fn(true, &[], 0),
        unsafe_fn(false, &[], 1),
        unsafe_fn(false, &[SourceKind::BorrowPacked], 0),
    ] {
        assert_eq!(SourceSummary::of_function(&f).has_reason(), !f.has_no_reason());
        assert_eq!(function_source_rows(&f, "c").is_empty(), f.has_no_reason());
    }
    // an operation that the summary has no flag for
    let layout = unsafe_fn(false, &[SourceKind::ConstantFn], 0);
    assert!(!layout.has_no_reason());
    assert!(!SourceSummary::of_function(&layout).has_reason());
}
