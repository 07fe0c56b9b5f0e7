use unsafe_analysis::hidden::fn_unsafety::UnsafeFnUsafetyAnalysis;
use unsafe_analysis::hidden::unrecorded::unrecorded_external_calls;
use unsafe_analysis::results::implicit::UnsafeTraitSafeMethodInBody;
use unsafe_analysis::call_info::FnInfo as SafetyNode;
use unsafe_analysis::hidden::analysis::{id_in, propagate_external, propagate_flags, propagate_predicate, run_all};
use unsafe_analysis::hidden::fn_info::FnInfo;
use unsafe_analysis::hidden::unsafe_blocks::UnsafeInBody;

fn node(id: u32, local: &[u32]) -> FnInfo {
    let mut f = FnInfo::new(id);
    for c in local {
        f.push_local_call(*c);
    }
    f
}

#[test]
fn membership() {
    let v: Vec<u32> = vec![3, 5, 8];
    assert!(id_in(&v, 5));
    assert!(!id_in(&v, 4));
    assert!(!id_in(&Vec::new(), 0));
}

#[test]
fn flags_spread_to_callers_transitively() {
    // 1 -> 2 -> 3, 4 -> 1, 5 alone; 3 has unsafe code
    let ids: Vec<u32> = vec![1, 2, 3, 4, 5];
    let calls: Vec<Vec<u32>> = vec![vec![2], vec![3], vec![], vec![1], vec![]];
    let mut flags = vec![false, false, true, false, false];
    propagate_flags(&ids, &calls, &mut flags);
    assert_eq!(flags, vec![true, true, true, true, false]);
}

#[test]
fn flags_through_a_cycle() {
    // 1 <-> 2, 2 -> 3 flagged; 4 calls an unknown function
    let ids: Vec<u32> = vec![1, 2, 3, 4];
    let calls: Vec<Vec<u32>> = vec![vec![2], vec![1, 3], vec![], vec![99]];
    let mut flags = vec![false, false, true, false];
    propagate_flags(&ids, &calls, &mut flags);
    assert_eq!(flags, vec![true, true, true, false]);
}

#[test]
fn propagating_twice_changes_nothing() {
    let ids: Vec<u32> = vec![1, 2, 3];
    let calls: Vec<Vec<u32>> = vec![vec![2], vec![], vec![1]];
    let mut flags = vec![false, true, false];
    propagate_flags(&ids, &calls, &mut flags);
    let once = flags.clone();
    propagate_flags(&ids, &calls, &mut flags);
    assert_eq!(flags, once);
    assert_eq!(once, vec![true, true, true]);
}

#[test]
fn nothing_flagged_stays_unflagged() {
    let ids: Vec<u32> = vec![1, 2];
    let calls: Vec<Vec<u32>> = vec![vec![2], vec![1]];
    let mut flags = vec![false, false];
    propagate_flags(&ids, &calls, &mut flags);
    assert_eq!(flags, vec![false, false]);
}

#[test]
fn run_all_with_and_without_propagation() {
    let data = vec![node(10, &[11]), node(11, &[]), node(12, &[])];
    let results = vec![
        UnsafeInBody::new("a".to_string()),
        UnsafeInBody { fn_info: "b".to_string(), has_unsafe: true },
        UnsafeInBody::new("c".to_string()),
    ];
    let plain = run_all(&data, results, false);
    let flags: Vec<bool> = plain.iter().map(|p| p.1.has_unsafe).collect();
    assert_eq!(flags, vec![false, true, false]);
    assert_eq!(plain[0].0.decl_id(), 10);

    let results = vec![
        UnsafeInBody::new("a".to_string()),
        UnsafeInBody { fn_info: "b".to_string(), has_unsafe: true },
        UnsafeInBody::new("c".to_string()),
    ];
    let spread = run_all(&data, results, true);
    let flags: Vec<bool> = spread.iter().map(|p| p.1.has_unsafe).collect();
    assert_eq!(flags, vec![true, true, false]);
    let names: Vec<&str> = spread.iter().map(|p| p.1.fn_info.as_str()).collect();
    assert_eq!(names, vec!["a", "b", "c"]);
}

#[test]
fn predicate_keeps_the_nodes() {
    let data = vec![node(1, &[2]), node(2, &[])];
    let mut graph = vec![
        (&data[0], UnsafeInBody::new("f".to_string())),
        (&data[1], UnsafeInBody { fn_info: "g".to_string(), has_unsafe: true }),
    ];
    propagate_predicate(&mut graph);
    assert!(graph[0].1.has_unsafe);
    assert_eq!(graph[0].1.fn_info, "f");
    assert_eq!(graph[1].0.decl_id(), 2);
}

#[test]
fn external_results_are_taken_in() {
    let mut caller = node(1, &[2]);
    caller.push_local_call(2);
    let mut direct = FnInfo::new(2);
    direct.push_external_call(7, "libc", "libc::free");
    let other = FnInfo::new(3);
    let data = vec![caller, direct, other];
    let mut graph = vec![
        (&data[0], UnsafeInBody::new("main".to_string())),
        (&data[1], UnsafeInBody::new("wrapper".to_string())),
        (&data[2], UnsafeInBody::new("other".to_string())),
    ];
    let ext = vec![
        UnsafeInBody { fn_info: "free".to_string(), has_unsafe: true },
        UnsafeInBody { fn_info: "free".to_string(), has_unsafe: false },
    ];
    propagate_external(&mut graph, &ext);
    let flags: Vec<bool> = graph.iter().map(|p| p.1.has_unsafe).collect();
    assert_eq!(flags, vec![true, true, false]);
    assert_eq!(graph[1].1.fn_info, "wrapper");
}

#[test]
fn only_the_first_external_record_counts() {
    let mut f = FnInfo::new(1);
    f.push_external_call(7, "libc", "libc::free");
    let data = vec![f];
    let mut graph = vec![(&data[0], UnsafeInBody::new("f".to_string()))];
    let ext = vec![
        UnsafeInBody { fn_info: "free".to_string(), has_unsafe: false },
        UnsafeInBody { fn_info: "free".to_string(), has_unsafe: true },
    ];
    propagate_external(&mut graph, &ext);
    assert!(!graph[0].1.has_unsafe);
}

#[test]
fn more_initial_flags_never_unmark() {
    let ids: Vec<u32> = vec![1, 2, 3, 4];
    let calls: Vec<Vec<u32>> = vec![vec![2], vec![], vec![4], vec![]];
    let mut fewer = vec![false, true, false, false];
    let mut more = vec![false, true, false, true];
    propagate_flags(&ids, &calls, &mut fewer);
    propagate_flags(&ids, &calls, &mut more);
    assert_eq!(fewer, vec![true, true, false, false]);
    assert_eq!(more, vec![true, true, true, true]);
    for i in 0..ids.len() {
        assert!(!fewer[i] || more[i]);
    }
}

#[test]
fn no_external_results_is_plain_propagation() {
    let mut direct = FnInfo::new(2);
    direct.push_external_call(7, "libc", "libc::free");
    let data = vec![node(1, &[2]), direct];
    let mut graph = vec![
        (&data[0], UnsafeInBody::new("a".to_string())),
        (&data[1], UnsafeInBody::new("b".to_string())),
    ];
    propagate_external(&mut graph, &Vec::new());
    assert!(!graph[0].1.has_unsafe && !graph[1].1.has_unsafe);
}

#[test]
fn propagation_over_nodes_with_call_safety() {
    let mut a = SafetyNode::new(1);
    a.push_local_call(2);
    let mut b = SafetyNode::new(2);
    b.push_local_call(3);
    let c = SafetyNode::new(3);
    let data = vec![a, b, c];
    let results = vec![
        UnsafeInBody::new("a".to_string()),
        UnsafeInBody::new("b".to_string()),
        UnsafeInBody { fn_info: "c".to_string(), has_unsafe: true },
    ];
    let graph = run_all(&data, results, true);
    let flags: Vec<bool> = graph.iter().map(|p| p.1.has_unsafe).collect();
    assert_eq!(flags, vec![true, true, true]);
    assert_eq!(graph[1].0.decl_id(), 2);
}

#[test]
fn unset_results_are_left_as_they_were() {
    let data = vec![node(1, &[]), node(2, &[]), node(3, &[1])];
    let mut graph = vec![
        (&data[0], UnsafeInBody { fn_info: "a".to_string(), has_unsafe: true }),
        (&data[1], UnsafeInBody::new("b".to_string())),
        (&data[2], UnsafeInBody::new("c".to_string())),
    ];
    propagate_predicate(&mut graph);
    let seen: Vec<(String, bool)> = graph.iter().map(|p| (p.1.fn_info.clone(), p.1.has_unsafe)).collect();
    assert_eq!(seen, vec![("a".to_string(), true), ("b".to_string(), false), ("c".to_string(), true)]);
    propagate_predicate(&mut graph);
    let again: Vec<(String, bool)> = graph.iter().map(|p| (p.1.fn_info.clone(), p.1.has_unsafe)).collect();
    assert_eq!(again, seen);
}

#[test]
fn trait_method_results_propagate() {
    let data = vec![node(1, &[2]), node(2, &[])];
    let results = vec![
        UnsafeTraitSafeMethodInBody { fn_name: "m".to_string(), has_unsafe: false },
        UnsafeTraitSafeMethodInBody { fn_name: "n".to_string(), has_unsafe: true },
    ];
    let graph = run_all(&data, results, true);
    assert!(graph[0].1.has_unsafe);
    assert_eq!(graph[0].1.fn_name, "m");
    let reasons = vec![UnsafeFnUsafetyAnalysis::new(1), UnsafeFnUsafetyAnalysis::new(2)];
    let graph = run_all(&data, reasons, true);
    assert_eq!(graph[0].1.decl_id, 1);
    assert_eq!(graph[1].1.decl_id, 2);
}

#[test]
fn unrecorded_calls_outside_the_distribution() {
    let mut f = FnInfo::new(1);
    f.push_external_call(7, "libc", "libc::free");
    f.push_external_call(7, "libc", "libc::malloc");
    f.push_external_call(2, "std", "std::mem::drop");
    let mut g = FnInfo::new(2);
    g.push_external_call(8, "log", "log::info");
    let data = vec![f, g];
    let graph = vec![
        (&data[0], UnsafeInBody::new("f".to_string())),
        (&data[1], UnsafeInBody::new("g".to_string())),
    ];
    let ext = vec![UnsafeInBody { fn_info: "free".to_string(), has_unsafe: false }];
    let names = vec![(7, "libc".to_string()), (2, "std".to_string()), (8, "log".to_string())];
    assert_eq!(unrecorded_external_calls(&graph, &ext, &names), vec!["malloc".to_string(), "info".to_string()]);
}
