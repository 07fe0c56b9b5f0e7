use unsafe_analysis::call_info::{FnInfo as CallInfo, Safety};
use unsafe_analysis::hidden::calls::{visit_terminator, Callee};
use unsafe_analysis::hidden::fn_info::{calls_to_crate, crates_of_calls, group_by_crate, FnInfo};
use unsafe_analysis::lints::{find_called_def, ArgDef, Callee as LintCallee, CalleeDef, DefPath, Expr, ExternalCalls, MethodArg, LOCAL_CRATE};

#[test]
fn external_calls_are_recorded_once_without_the_crate_prefix() {
    let mut f = FnInfo::new(4);
    f.push_external_call(2, "core", "core::ptr::read");
    f.push_external_call(2, "core", "core::ptr::read");
    f.push_external_call(3, "libc", "libc::malloc");
    f.push_external_call(2, "core", "core::mem::swap");
    assert_eq!(f.decl_id(), 4);
    let calls: Vec<(u32, &str)> = f.external_calls().iter().map(|c| (c.0, c.1.as_str())).collect();
    assert_eq!(calls, vec![(2, "ptr::read"), (3, "malloc"), (2, "mem::swap")]);
    assert!(f.local_calls().is_empty());
}

#[test]
fn local_calls_are_recorded_once() {
    let mut f = FnInfo::new(1);
    f.push_local_call(5);
    f.push_local_call(6);
    f.push_local_call(5);
    assert_eq!(f.local_calls(), &vec![5, 6]);
}

#[test]
fn calls_grouped_by_crate() {
    let calls: Vec<(u32, String)> = vec![
        (2, "a".to_string()),
        (3, "b".to_string()),
        (2, "c".to_string()),
    ];
    assert_eq!(crates_of_calls(&calls), vec![2, 3]);
    assert_eq!(calls_to_crate(&calls, 2), vec!["a".to_string(), "c".to_string()]);
    assert!(calls_to_crate(&calls, 9).is_empty());
    let groups = group_by_crate(&calls);
    assert_eq!(groups.len(), 2);
    assert_eq!(groups[0], (2, vec!["a".to_string(), "c".to_string()]));
    assert_eq!(groups[1], (3, vec!["b".to_string()]));
}

#[test]
fn terminators_fill_the_call_graph() {
    let mut f = FnInfo::new(1);
    visit_terminator(&mut f, &Callee::Local(Some(8)));
    visit_terminator(&mut f, &Callee::Local(None));
    visit_terminator(&mut f, &Callee::NotAFunction);
    visit_terminator(
        &mut f,
        &Callee::External { krate: 4, crate_name: "alloc".to_string(), item_path: "alloc::vec::Vec::new".to_string() },
    );
    assert_eq!(f.local_calls(), &vec![8]);
    assert_eq!(f.external_calls(), &vec![(4, "vec::Vec::new".to_string())]);
    let by_crate = f.external_calls_by_crate();
    assert_eq!(by_crate, vec![(4, vec!["vec::Vec::new".to_string()])]);
}

#[test]
fn safety_does_not_split_a_call() {
    let mut f = CallInfo::new(12);
    f.push_external_call(2, "std", "std::ptr::write", Safety::Unsafe);
    f.push_external_call(2, "std", "std::ptr::write", Safety::Normal);
    f.push_external_call(5, "libc", "libc::free", Safety::Unsafe);
    assert_eq!(f.external_calls().len(), 1 + 1);
    assert_eq!(f.external_calls()[0], (2, "ptr::write".to_string(), Safety::Unsafe));
    assert_eq!(f.external_crates(), vec![2, 5]);
}

#[test]
fn long_and_short_records() {
    let mut f = CallInfo::new(42);
    f.push_local_call(7);
    f.push_external_call(5, "libc", "libc::free", Safety::Unsafe);
    f.push_external_call(2, "std", "std::mem::drop", Safety::Normal);
    f.push_external_call(5, "libc", "libc::malloc", Safety::Unsafe);
    let long = f.build_long_fn_info(
        "run".to_string(),
        "src/main.rs:3".to_string(),
        &vec!["helper".to_string()],
        &vec!["libc".to_string(), "std".to_string()],
    );
    assert_eq!(long.name(), "run");
    assert_eq!(long.node_id(), "42");
    assert_eq!(long.location(), "src/main.rs:3");
    assert_eq!(long.local_calls(), &vec![("helper".to_string(), "7".to_string())]);
    assert_eq!(
        long.external_calls(),
        &vec![
            ("libc".to_string(), vec!["free".to_string(), "malloc".to_string()]),
            ("std".to_string(), vec!["mem::drop".to_string()]),
        ]
    );
    let short = f.build_short_fn_info("run".to_string(), "here".to_string());
    assert_eq!(short.node_id(), "42");
    assert_eq!(short.location(), "here");
}

fn path(krate: u32, data: &str) -> DefPath {
    DefPath { krate, data: data.to_string() }
}

#[test]
fn called_definitions() {
    let call = Expr::Call(LintCallee::Path(CalleeDef::Fn(path(3, "libc::free"))));
    let found = find_called_def(&call).unwrap();
    assert_eq!(found.0.krate, 3);
    assert_eq!(found.0.data, "libc::free");
    assert!(found.1.is_none());
    assert!(find_called_def(&Expr::Call(LintCallee::Path(CalleeDef::VariantCtor))).is_none());
    assert!(find_called_def(&Expr::Call(LintCallee::NotPath)).is_none());
    let m = Expr::MethodCall { method: Some(path(2, "Vec::push")), first_arg: MethodArg::Path(ArgDef::Local("v".to_string())) };
    let found = find_called_def(&m).unwrap();
    assert_eq!(found.1, Some("v".to_string()));
    let m = Expr::MethodCall { method: Some(path(2, "Vec::push")), first_arg: MethodArg::Path(ArgDef::Other) };
    assert!(find_called_def(&m).is_none());
    assert!(find_called_def(&Expr::Other).is_none());
}

#[test]
fn lint_collects_external_calls() {
    let mut lint = ExternalCalls::new();
    lint.check_expr(&Expr::Call(LintCallee::Path(CalleeDef::Fn(path(LOCAL_CRATE, "helper")))));
    lint.check_expr(&Expr::Call(LintCallee::Path(CalleeDef::Fn(path(3, "libc::free")))));
    lint.check_expr(&Expr::Call(LintCallee::Path(CalleeDef::Method(path(2, "Vec::len")))));
    lint.check_expr(&Expr::Call(LintCallee::Path(CalleeDef::Fn(path(3, "libc::free")))));
    lint.check_expr(&Expr::Call(LintCallee::Path(CalleeDef::Fn(path(3, "libc::malloc")))));
    assert_eq!(lint.external_crates(), &vec![3, 2]);
    let into3 = lint.calls_into(3);
    assert_eq!(into3, vec![("libc::free".to_string(), None), ("libc::malloc".to_string(), None)]);
    assert_eq!(lint.calls_into(2), vec![("Vec::len".to_string(), None)]);
    assert!(lint.calls_into(LOCAL_CRATE).is_empty());
}

#[test]
fn lint_sets_are_deduplicated() {
    let mut lint = ExternalCalls::new();
    lint.add_crate(4);
    lint.add_crate(4);
    lint.add_def_id(path(4, "a"), Some("x".to_string()));
    lint.add_def_id(path(4, "a"), Some("x".to_string()));
    lint.add_def_id(path(4, "a"), None);
    assert_eq!(lint.external_crates(), &vec![4]);
    assert_eq!(lint.calls_into(4), vec![("a".to_string(), Some("x".to_string())), ("a".to_string(), None)]);
}
