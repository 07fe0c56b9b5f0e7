use unsafe_analysis::hidden::deps::{external_calls_to, find_crate_num, load_all_analyses, load_analysis, match_external_results, CrateInfo};
use unsafe_analysis::hidden::fn_info::FnInfo;
use unsafe_analysis::hidden::unsafe_blocks::UnsafeInBody;
use unsafe_analysis::misc::{Point, Type};
use unsafe_analysis::results::file_ops::{max_name, select_analysis_files, select_files_with_prefix, FileOps};
use unsafe_analysis::results::functions::{ExternalCallsSummary, LongFnInfo, ShortFnInfo, Summary};
use unsafe_analysis::results::traits::UnsafeTrait;
use unsafe_analysis::results::unsafety_sources::SourceKind;
use unsafe_analysis::results::util::{FileOps as CrateFiles, ROOT_DIR};
use unsafe_analysis::results::{Abi, BLOCK_SUMMARY_BB, FN_UNSAFETY_SOURCES_FILE_NAME};

fn strings(v: &[&str]) -> Vec<String> {
    v.iter().map(|s| s.to_string()).collect()
}

#[test]
fn path_components() {
    let name = "serde".to_string();
    let version = "1.0.2".to_string();
    let root = "/data".to_string();
    let ops = FileOps::new(&name, &version, &root);
    assert_eq!(ops.get_root_path_components(), ["/data".to_string(), name.clone(), version.clone()]);
    assert_eq!(
        ops.get_analysis_path_components("30_unsafe_fn_0".to_string()),
        ["/data".to_string(), name.clone(), version.clone(), "30_unsafe_fn_0".to_string()]
    );
    let files = CrateFiles::new(name.clone(), version.clone(), BLOCK_SUMMARY_BB);
    assert_eq!(files.analysis_name(), "41_blocks_summary");
    assert_eq!(files.get_root_path_components()[0], ROOT_DIR);
    assert_eq!(files.get_analysis_path_components("x".to_string())[3], "x");
}

#[test]
fn files_of_an_analysis() {
    let names = strings(&["30_unsafe_fn_a", "40_unsafe_blocks", "30_unsafe_fn", "30_unsafe_fnx", "30_unsafe_fn_b", "3"]);
    assert_eq!(select_analysis_files(&names, FN_UNSAFETY_SOURCES_FILE_NAME), strings(&["30_unsafe_fn_a", "30_unsafe_fn_b"]));
    assert!(select_analysis_files(&names, "99").is_empty());
    assert_eq!(
        select_files_with_prefix(&names, FN_UNSAFETY_SOURCES_FILE_NAME),
        strings(&["30_unsafe_fn_a", "30_unsafe_fn", "30_unsafe_fnx", "30_unsafe_fn_b"])
    );
}

#[test]
fn most_recent_version() {
    let versions = strings(&["0.1.0", "0.10.0", "0.9.3", "0.2.1"]);
    assert_eq!(max_name(&versions), Some("0.9.3".to_string()));
    assert_eq!(max_name(&strings(&["1.0"])), Some("1.0".to_string()));
    assert_eq!(max_name(&Vec::new()), None);
}

#[test]
fn descriptions_and_calling_conventions() {
    assert_eq!(SourceKind::BorrowPacked.description(), "Borrow Packed");
    assert_eq!(SourceKind::DerefRawPointer.description(), "Derefence Raw Pointer");
    assert_eq!(SourceKind::UnsafeFnCall(Abi::C).description(), "Unsafe Function Call");
    assert_eq!(SourceKind::ExternStatic.description(), "Extern Static Variable");
    assert_eq!(SourceKind::ConstantFn.description(), "Layout Constrained Field");
    assert_eq!(Abi::RustIntrinsic.name(), "RustIntrinsic");
    assert_eq!(Abi::Msp430Interrupt.name(), "Msp430Interrupt");
    assert_eq!(Abi::C.name(), "C");
}

#[test]
fn records() {
    let s = Summary::new(2, 9);
    assert_eq!((s.unsafe_no(), s.total()), (2, 9));
    let short = ShortFnInfo::new("f".to_string(), "12".to_string(), "a.rs:1".to_string());
    assert_eq!((short.name().as_str(), short.node_id().as_str(), short.location().as_str()), ("f", "12", "a.rs:1"));
    let long = LongFnInfo::new("g".to_string(), "3".to_string(), "b.rs".to_string(), vec![], vec![("libc".to_string(), vec!["free".to_string()])]);
    assert_eq!(long.external_calls().len(), 1);
    let mut calls = ExternalCallsSummary::new();
    calls.push("free".to_string(), 3);
    calls.push("malloc".to_string(), 1);
    assert_eq!(calls.calls(), &vec![("free".to_string(), 3), ("malloc".to_string(), 1)]);
    assert_eq!(UnsafeTrait::new("Send".to_string()).name, "Send");
    let info = CrateInfo::new("libc".to_string(), "0.2".to_string());
    assert_eq!((info.name().as_str(), info.version().as_str()), ("libc", "0.2"));
}

#[test]
fn equality_by_fields() {
    assert_eq!(Point { x: 1, y: 2 }, Point { x: 1, y: 2 });
    assert_ne!(Point { x: 1, y: 2 }, Point { x: 2, y: 1 });
    assert_eq!(Type::Safe, Type::Safe);
    assert_ne!(Type::Safe, Type::Unsafe);
}

fn calling(id: u32, calls: &[(u32, &str, &str)]) -> FnInfo {
    let mut f = FnInfo::new(id);
    for (k, c, p) in calls {
        f.push_external_call(*k, c, p);
    }
    f
}

fn dependency_records() -> Vec<UnsafeInBody> {
    vec![
        UnsafeInBody { fn_info: "malloc".to_string(), has_unsafe: true },
        UnsafeInBody { fn_info: "realloc".to_string(), has_unsafe: true },
        UnsafeInBody { fn_info: "free".to_string(), has_unsafe: false },
    ]
}

#[test]
fn dependency_results_matched_to_calls() {
    let data = vec![
        calling(1, &[(5, "libc", "libc::free"), (6, "log", "log::info")]),
        calling(2, &[(5, "libc", "libc::unix::malloc")]),
    ];
    assert_eq!(external_calls_to(&data, 5), strings(&["free", "unix::malloc"]));
    let records = dependency_records();
    let calls = external_calls_to(&data, 5);
    let matched = match_external_results(&calls, &records);
    let m: Vec<(&str, bool)> = matched.iter().map(|u| (u.fn_info.as_str(), u.has_unsafe)).collect();
    assert_eq!(m, vec![("unix::malloc", true), ("free", false)]);

    let crates = vec![(6, "log".to_string()), (5, "libc".to_string()), (9, "libc".to_string())];
    assert_eq!(find_crate_num(&crates, &"libc".to_string()), Some(5));
    assert_eq!(find_crate_num(&crates, &"serde".to_string()), None);
    let missing = CrateInfo::new("serde".to_string(), "1.0".to_string());
    assert!(load_analysis(&crates, &missing, &data, &records).is_none());
    let libc = CrateInfo::new("libc".to_string(), "0.2".to_string());
    let (k, loaded) = load_analysis(&crates, &libc, &data, &records).unwrap();
    assert_eq!(k, 5);
    assert_eq!(loaded.len(), 2);

    let deps = vec![
        CrateInfo::new("log".to_string(), "0.4".to_string()),
        CrateInfo::new("serde".to_string(), "1.0".to_string()),
        CrateInfo::new("libc".to_string(), "0.2".to_string()),
    ];
    let all = load_all_analyses(&crates, &deps, &data, &vec![vec![], dependency_records(), dependency_records()]);
    let keys: Vec<(u32, usize)> = all.iter().map(|p| (p.0, p.1.len())).collect();
    assert_eq!(keys, vec![(6, 0), (5, 2)]);
}
