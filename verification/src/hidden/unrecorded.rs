//! The calls into other crates for which no result was recorded, outside
//! the crates of the Rust distribution: those the analysis reports as not
//! found.
use vstd::prelude::*;
use crate::hidden::fn_info::{FnInfo, external_view};
use crate::hidden::unsafe_blocks::UnsafeInBody;
use crate::hidden::util::{excluded, is_excluded_crate};

verus! {

/// The name of the first entry of `names` for crate `k`, if any.
pub open spec fn crate_name_of(names: Seq<(u32, Seq<char>)>, k: u32) -> Option<Seq<char>>
    decreases names.len(),
{
    if names.len() == 0 {
        None
    } else if names[0].0 == k {
        Some(names[0].1)
    } else {
        crate_name_of(names.skip(1), k)
    }
}

/// Some result was recorded for the function at path `call`.
pub open spec fn has_record(ext: Seq<UnsafeInBody>, call: Seq<char>) -> bool {
    exists|j: int| 0 <= j < ext.len() && (#[trigger] ext[j]).fn_info@ == call
}

/// A call into crate `call.0` of the function `call.1` is reported: no
/// result is recorded for it and its crate is not one of the Rust
/// distribution.
pub open spec fn reported(
    call: (u32, Seq<char>),
    ext: Seq<UnsafeInBody>,
    names: Seq<(u32, Seq<char>)>,
) -> bool {
    !has_record(ext, call.1) && !(crate_name_of(names, call.0) matches Some(n) && excluded(n))
}

/// The paths of the reported calls of one list, in order.
pub open spec fn reported_calls(
    calls: Seq<(u32, Seq<char>)>,
    ext: Seq<UnsafeInBody>,
    names: Seq<(u32, Seq<char>)>,
) -> Seq<Seq<char>>
    decreases calls.len(),
{
    if calls.len() == 0 {
        Seq::empty()
    } else {
        let prev = reported_calls(calls.drop_last(), ext, names);
        if reported(calls.last(), ext, names) {
            prev.push(calls.last().1)
        } else {
            prev
        }
    }
}

/// The paths of the reported calls of the functions of a call graph, function
/// by function, each in call order.
pub open spec fn reported_in_graph(
    g: Seq<(&FnInfo, UnsafeInBody)>,
    ext: Seq<UnsafeInBody>,
    names: Seq<(u32, Seq<char>)>,
) -> Seq<Seq<char>>
    decreases g.len(),
{
    if g.len() == 0 {
        Seq::empty()
    } else {
        reported_in_graph(g.drop_last(), ext, names) + reported_calls(
            g.last().0@.external_calls,
            ext,
            names,
        )
    }
}

/// The character content of a list of (crate, name) pairs.
pub open spec fn names_view(v: Seq<(u32, String)>) -> Seq<(u32, Seq<char>)> {
    v.map_values(|p: (u32, String)| (p.0, p.1@))
}

fn find_crate_name(names: &Vec<(u32, String)>, k: u32) -> (r: Option<&String>)
    ensures
        match r {
            Some(s) => crate_name_of(names_view(names@), k) == Some(s@),
            None => crate_name_of(names_view(names@), k) is None,
        },
{
    let ghost all = names_view(names@);
    let mut i: usize = 0;
    assert(all.skip(0) =~= all);
    while i < names.len()
        invariant
            i <= names.len(),
            all == names_view(names@),
            crate_name_of(all, k) == crate_name_of(all.skip(i as int), k),
        decreases names.len() - i,
    {
        assert(all.skip(i as int)[0] == (names@[i as int].0, names@[i as int].1@));
        if names[i].0 == k {
            return Some(&names[i].1);
        }
        assert(all.skip(i as int).skip(1) =~= all.skip(i + 1));
        i = i + 1;
    }
    None
}

fn find_record(ext: &Vec<UnsafeInBody>, call: &String) -> (r: bool)
    ensures
        r == has_record(ext@, call@),
{
    let mut j: usize = 0;
    while j < ext.len()
        invariant
            j <= ext.len(),
            forall|k: int| 0 <= k < j ==> (#[trigger] ext@[k]).fn_info@ != call@,
        decreases ext.len() - j,
    {
        if ext[j].fn_info == *call {
            return true;
        }
        j = j + 1;
    }
    false
}

/// The paths of the calls into other crates, function by function and in
/// call order, for which `external_unsafety` records no result, leaving out
/// calls into `alloc`, `std` and `core` (`crate_names` gives each crate's
/// name by number).
pub fn unrecorded_external_calls(
    graph: &Vec<(&FnInfo, UnsafeInBody)>,
    external_unsafety: &Vec<UnsafeInBody>,
    crate_names: &Vec<(u32, String)>,
) -> (r: Vec<String>)
    ensures
        r@.map_values(|s: String| s@) == reported_in_graph(
            graph@,
            external_unsafety@,
            names_view(crate_names@),
        ),
{
    let ghost ext = external_unsafety@;
    let ghost names = names_view(crate_names@);
    let mut r: Vec<String> = Vec::new();
    let mut i: usize = 0;
    while i < graph.len()
        invariant
            i <= graph.len(),
            ext == external_unsafety@,
            names == names_view(crate_names@),
            r@.map_values(|s: String| s@) == reported_in_graph(graph@.take(i as int), ext, names),
        decreases graph.len() - i,
    {
        assert(graph@.take(i + 1).drop_last() =~= graph@.take(i as int));
        assert(graph@.take(i + 1).last() == graph@[i as int]);
        let calls = graph[i].0.external_calls();
        let ghost ev = graph@[i as int].0@.external_calls;
        let ghost base = r@.map_values(|s: String| s@);
        assert(ev.take(0) =~= Seq::<(u32, Seq<char>)>::empty());
        assert(base + reported_calls(ev.take(0), ext, names) =~= base);
        let mut j: usize = 0;
        while j < calls.len()
            invariant
                j <= calls.len(),
                ext == external_unsafety@,
                names == names_view(crate_names@),
                external_view(calls@) == ev,
                r@.map_values(|s: String| s@) == base + reported_calls(ev.take(j as int), ext, names),
            decreases calls.len() - j,
        {
            assert(ev.take(j + 1).drop_last() =~= ev.take(j as int));
            assert(ev.take(j + 1).last() == ev[j as int]);
            assert(ev[j as int] == (calls@[j as int].0, calls@[j as int].1@));
            let recorded = find_record(external_unsafety, &calls[j].1);
            let in_distribution = match find_crate_name(crate_names, calls[j].0) {
                Some(n) => is_excluded_crate(n),
                None => false,
            };
            if !recorded && !in_distribution {
                let ghost before = r@;
                r.push(calls[j].1.clone());
                assert(r@.map_values(|s: String| s@) =~= before.map_values(|s: String| s@).push(
                    calls@[j as int].1@,
                ));
            }
            j = j + 1;
        }
        assert(ev.take(calls.len() as int) =~= ev);
        i = i + 1;
    }
    assert(graph@.take(graph.len() as int) =~= graph@);
    r
}

} // verus!
