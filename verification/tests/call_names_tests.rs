use unsafe_analysis::call_names::{CallCallee, CallDef, Expr, ExternalCalls, QPath, ReceiverTy};

fn call(krate: u32, is_local: bool, qpath: QPath) -> Expr {
    Expr::Call(CallCallee::Path { def: CallDef::FnOrMethod { krate, is_local }, qpath })
}

#[test]
fn calls_are_named_by_path_type_or_receiver() {
    let mut lint = ExternalCalls::new();
    lint.check_expr(call(3, false, QPath::Resolved { has_qself: false, path: "libc::free".to_string() }));
    lint.check_expr(call(2, false, QPath::TypeRelative { ty: "Vec<u8>".to_string(), segment: "new".to_string() }));
    lint.check_expr(Expr::MethodCall { method: Some((2, false)), receiver: ReceiverTy::Ref("String".to_string()), segment: "len".to_string() });
    lint.check_expr(Expr::MethodCall { method: Some((4, false)), receiver: ReceiverTy::Plain("Rc<u8>".to_string()), segment: "clone".to_string() });
    assert_eq!(lint.external_crates(), &vec![3, 2, 4]);
    assert_eq!(lint.calls_into(3), vec!["libc::free".to_string()]);
    assert_eq!(lint.calls_into(2), vec!["Vec<u8>::new".to_string(), "String::len".to_string()]);
    assert_eq!(lint.calls_into(4), vec!["Rc<u8>::clone".to_string()]);
}

#[test]
fn local_qualified_and_other_calls_are_not_recorded() {
    let mut lint = ExternalCalls::new();
    lint.check_expr(call(0, true, QPath::Resolved { has_qself: false, path: "helper".to_string() }));
    lint.check_expr(call(3, false, QPath::Resolved { has_qself: true, path: "<T as A>::f".to_string() }));
    lint.check_expr(Expr::Call(CallCallee::Path { def: CallDef::VariantCtor, qpath: QPath::Resolved { has_qself: false, path: "Some".to_string() } }));
    lint.check_expr(Expr::Call(CallCallee::NotPath));
    lint.check_expr(Expr::MethodCall { method: None, receiver: ReceiverTy::Plain("u8".to_string()), segment: "f".to_string() });
    lint.check_expr(Expr::Other);
    assert!(lint.external_crates().is_empty());
    assert!(lint.calls_into(3).is_empty());
}

#[test]
fn a_name_is_recorded_once() {
    let mut lint = ExternalCalls::new();
    lint.add_call(3, "f".to_string());
    lint.add_call(5, "f".to_string());
    lint.add_call(3, "g".to_string());
    lint.add_crate(3);
    assert_eq!(lint.external_crates(), &vec![3, 5]);
    assert_eq!(lint.calls_into(3), vec!["f".to_string(), "g".to_string()]);
    assert!(lint.calls_into(5).is_empty());
}
