//! Propagation of a per-function predicate ("has unsafe in its body") along
//! the local call graph: a function is marked when it calls a marked one,
//! until nothing changes.
use vstd::prelude::*;
use crate::hidden::fn_info::FnInfo;
use crate::hidden::unsafe_blocks::UnsafeInBody;
use crate::hidden::fn_unsafety::UnsafeFnUsafetyAnalysis;
use crate::results::implicit::UnsafeTraitSafeMethodInBody;

verus! {

/// A per-function analysis result that holds a predicate which can be set.
/// An analysis that never holds its predicate (whose `set` changes nothing)
/// is one too.
pub trait Analysis: Sized {
    spec fn spec_is_set(&self) -> bool;

    /// The result once its predicate has been set.
    spec fn spec_set(&self) -> Self;

    fn is_set(&self) -> (r: bool)
        ensures
            r == self.spec_is_set(),
    ;

    fn set(&mut self)
        ensures
            *final(self) == old(self).spec_set(),
    ;
}

/// A node of a local call graph: the declaration id of a function and the
/// ids of the local functions it calls.
pub trait CallGraphNode {
    spec fn spec_decl_id(&self) -> u32;

    spec fn spec_local_calls(&self) -> Seq<u32>;

    fn node_id(&self) -> (r: u32)
        ensures
            r == self.spec_decl_id(),
    ;

    fn node_calls(&self) -> (r: &Vec<u32>)
        ensures
            r@ == self.spec_local_calls(),
    ;
}

impl CallGraphNode for FnInfo {
    open spec fn spec_decl_id(&self) -> u32 {
        self@.decl_id
    }

    open spec fn spec_local_calls(&self) -> Seq<u32> {
        self@.local_calls
    }

    fn node_id(&self) -> (r: u32) {
        self.decl_id()
    }

    fn node_calls(&self) -> (r: &Vec<u32>) {
        self.local_calls()
    }
}

/// The declaration ids of the functions whose flag is set.
pub open spec fn marked_ids(ids: Seq<u32>, flags: Seq<bool>) -> Set<u32> {
    Set::new(|x: u32| exists|i: int| 0 <= i < ids.len() && #[trigger] flags[i] && ids[i] == x)
}

/// Some call in `calls` targets a function of `s`.
pub open spec fn calls_into(calls: Seq<u32>, s: Set<u32>) -> bool {
    exists|j: int| 0 <= j < calls.len() && s.contains(#[trigger] calls[j])
}

/// Every function that calls into `x` is itself in `x`.
pub open spec fn closed_under_calls(ids: Seq<u32>, calls: Seq<Seq<u32>>, x: Set<u32>) -> bool {
    forall|i: int| 0 <= i < ids.len() && #[trigger] calls_into(calls[i], x) ==> x.contains(ids[i])
}

/// Every flagged function is in `x`.
pub open spec fn covers(ids: Seq<u32>, flags: Seq<bool>, x: Set<u32>) -> bool {
    forall|i: int| 0 <= i < ids.len() && #[trigger] flags[i] ==> x.contains(ids[i])
}

/// `fin` is the result of propagating the flags `init` along the calls: it
/// keeps every initial flag, sets a flag only where it was set or the
/// function calls a flagged one, leaves no unflagged function calling a
/// flagged one, and flags nothing outside any call-closed set of ids that
/// holds the initially flagged functions.
pub open spec fn is_propagation(
    ids: Seq<u32>,
    calls: Seq<Seq<u32>>,
    init: Seq<bool>,
    fin: Seq<bool>,
) -> bool {
    &&& init.len() == ids.len()
    &&& fin.len() == ids.len()
    &&& calls.len() == ids.len()
    &&& forall|i: int| 0 <= i < ids.len() && #[trigger] init[i] ==> fin[i]
    &&& forall|i: int|
        0 <= i < ids.len() && #[trigger] fin[i] ==> init[i] || calls_into(
            calls[i],
            marked_ids(ids, fin),
        )
    &&& forall|i: int|
        0 <= i < ids.len() && !#[trigger] fin[i] ==> !calls_into(calls[i], marked_ids(ids, fin))
    &&& forall|x: Set<u32>|
        #![trigger covers(ids, fin, x)]
        covers(ids, init, x) && closed_under_calls(ids, calls, x) ==> covers(ids, fin, x)
}

/// The call lists of the nodes.
pub open spec fn call_lists(calls: Seq<Vec<u32>>) -> Seq<Seq<u32>> {
    calls.map_values(|v: Vec<u32>| v@)
}

/// Whether `x` is in `v`.
pub fn id_in(v: &Vec<u32>, x: u32) -> (r: bool)
    ensures
        r == v@.contains(x),
{
    let mut i: usize = 0;
    while i < v.len()
        invariant
            i <= v.len(),
            forall|k: int| 0 <= k < i ==> v@[k] != x,
        decreases v.len() - i,
    {
        if v[i] == x {
            assert(v@[i as int] == x);
            return true;
        }
        i = i + 1;
    }
    false
}

/// Number of unflagged entries.
pub open spec fn unmarked_count(flags: Seq<bool>) -> nat
    decreases flags.len(),
{
    if flags.len() == 0 {
        0
    } else {
        unmarked_count(flags.drop_last()) + if flags.last() {
            0nat
        } else {
            1nat
        }
    }
}

proof fn lemma_unmarked_set(flags: Seq<bool>, i: int)
    requires
        0 <= i < flags.len(),
        !flags[i],
    ensures
        unmarked_count(flags.update(i, true)) + 1 == unmarked_count(flags),
    decreases flags.len(),
{
    let g = flags.update(i, true);
    if i == flags.len() - 1 {
        assert(g.drop_last() =~= flags.drop_last());
    } else {
        assert(g.drop_last() =~= flags.drop_last().update(i, true));
        lemma_unmarked_set(flags.drop_last(), i);
    }
}

proof fn lemma_marked_insert(ids: Seq<u32>, flags: Seq<bool>, i: int)
    requires
        0 <= i < ids.len(),
        flags.len() == ids.len(),
    ensures
        marked_ids(ids, flags.update(i, true)) == marked_ids(ids, flags).insert(ids[i]),
{
    let g = flags.update(i, true);
    assert forall|x: u32| marked_ids(ids, g).contains(x) implies marked_ids(
        ids,
        flags,
    ).insert(ids[i]).contains(x) by {
        let k = choose|k: int| 0 <= k < ids.len() && #[trigger] g[k] && ids[k] == x;
        if k != i {
            assert(flags[k]);
        }
    }
    assert forall|x: u32| marked_ids(ids, flags).insert(ids[i]).contains(x) implies marked_ids(
        ids,
        g,
    ).contains(x) by {
        if x == ids[i] {
            assert(g[i]);
        } else {
            let k = choose|k: int| 0 <= k < ids.len() && #[trigger] flags[k] && ids[k] == x;
            assert(g[k]);
        }
    }
    assert(marked_ids(ids, g) =~= marked_ids(ids, flags).insert(ids[i]));
}

/// Whether some entry of `calls` is in `set`.
fn calls_any(calls: &Vec<u32>, set: &Vec<u32>) -> (r: bool)
    ensures
        r == exists|j: int| 0 <= j < calls@.len() && set@.contains(#[trigger] calls@[j]),
{
    let mut j: usize = 0;
    while j < calls.len()
        invariant
            j <= calls.len(),
            forall|k: int| 0 <= k < j ==> !set@.contains(#[trigger] calls@[k]),
        decreases calls.len() - j,
    {
        if id_in(set, calls[j]) {
            return true;
        }
        j = j + 1;
    }
    false
}

/// Propagates `flags` along the call lists until no unflagged function calls a
/// flagged one.
pub fn propagate_flags(ids: &Vec<u32>, calls: &Vec<Vec<u32>>, flags: &mut Vec<bool>)
    requires
        old(flags)@.len() == ids@.len(),
        calls@.len() == ids@.len(),
    ensures
        is_propagation(ids@, call_lists(calls@), old(flags)@, final(flags)@),
{
    let n = ids.len();
    let ghost init = flags@;
    let ghost cl = call_lists(calls@);
    let mut with_unsafe: Vec<u32> = Vec::new();
    let mut i: usize = 0;
    while i < n
        invariant
            n == ids@.len(),
            flags@ == init,
            init.len() == n,
            i <= n,
            forall|x: u32|
                with_unsafe@.contains(x) <==> exists|k: int|
                    0 <= k < i && #[trigger] init[k] && ids@[k] == x,
        decreases n - i,
    {
        let ghost old_w = with_unsafe@;
        if flags[i] {
            with_unsafe.push(ids[i]);
        }
        proof {
            assert forall|x: u32|
                with_unsafe@.contains(x) <==> exists|k: int|
                    0 <= k < i + 1 && #[trigger] init[k] && ids@[k] == x by {
                vstd::seq_lib::lemma_seq_contains_after_push(old_w, ids@[i as int], x);
                if exists|k: int| 0 <= k < i + 1 && #[trigger] init[k] && ids@[k] == x {
                    let k = choose|k: int| 0 <= k < i + 1 && #[trigger] init[k] && ids@[k] == x;
                    if k < i {
                        assert(old_w.contains(x));
                    }
                }
            }
        }
        i = i + 1;
    }
    assert forall|x: u32| with_unsafe@.contains(x) <==> marked_ids(ids@, flags@).contains(x) by {}
    let mut changes = true;
    while changes
        invariant
            n == ids@.len(),
            cl == call_lists(calls@),
            cl.len() == n,
            init.len() == n,
            flags@.len() == n,
            forall|x: u32| with_unsafe@.contains(x) <==> marked_ids(ids@, flags@).contains(x),
            forall|k: int| 0 <= k < n && #[trigger] init[k] ==> flags@[k],
            forall|k: int|
                0 <= k < n && #[trigger] flags@[k] ==> init[k] || calls_into(
                    cl[k],
                    marked_ids(ids@, flags@),
                ),
            forall|x: Set<u32>|
                #![trigger covers(ids@, flags@, x)]
                covers(ids@, init, x) && closed_under_calls(ids@, cl, x) ==> covers(
                    ids@,
                    flags@,
                    x,
                ),
            !changes ==> forall|k: int|
                0 <= k < n && !#[trigger] flags@[k] ==> !calls_into(
                    cl[k],
                    marked_ids(ids@, flags@),
                ),
        decreases unmarked_count(flags@), if changes {
            1int
        } else {
            0int
        },
    {
        changes = false;
        let ghost start = flags@;
        let mut i: usize = 0;
        while i < n
            invariant
                n == ids@.len(),
                cl == call_lists(calls@),
                cl.len() == n,
                init.len() == n,
                flags@.len() == n,
                i <= n,
                forall|x: u32| with_unsafe@.contains(x) <==> marked_ids(ids@, flags@).contains(x),
                forall|k: int| 0 <= k < n && #[trigger] init[k] ==> flags@[k],
                forall|k: int|
                    0 <= k < n && #[trigger] flags@[k] ==> init[k] || calls_into(
                        cl[k],
                        marked_ids(ids@, flags@),
                    ),
                forall|x: Set<u32>|
                    #![trigger covers(ids@, flags@, x)]
                    covers(ids@, init, x) && closed_under_calls(ids@, cl, x) ==> covers(
                        ids@,
                        flags@,
                        x,
                    ),
                !changes ==> flags@ == start,
                changes ==> unmarked_count(flags@) < unmarked_count(start),
                !changes ==> forall|k: int|
                    0 <= k < i && !#[trigger] flags@[k] ==> !calls_into(
                        cl[k],
                        marked_ids(ids@, flags@),
                    ),
            decreases n - i,
        {
            if !flags[i] {
                assert(cl[i as int] == calls@[i as int]@);
                if calls_any(&calls[i], &with_unsafe) {
                    let ghost old_flags = flags@;
                    let ghost old_marked = marked_ids(ids@, flags@);
                    let ghost old_w = with_unsafe@;
                    let id = ids[i];
                    with_unsafe.push(id);
                    flags.set(i, true);
                    proof {
                        lemma_marked_insert(ids@, old_flags, i as int);
                        lemma_unmarked_set(old_flags, i as int);
                        let new_marked = marked_ids(ids@, flags@);
                        assert(new_marked == old_marked.insert(id));
                        assert forall|x: u32|
                            with_unsafe@.contains(x) <==> new_marked.contains(x) by {
                            vstd::seq_lib::lemma_seq_contains_after_push(old_w, id, x);
                        }
                        let c = choose|j: int|
                            0 <= j < calls@[i as int]@.len() && old_marked.contains(
                                #[trigger] calls@[i as int]@[j],
                            );
                        assert(calls_into(cl[i as int], new_marked));
                        assert forall|k: int|
                            0 <= k < n && #[trigger] flags@[k] implies init[k] || calls_into(
                                cl[k],
                                new_marked,
                            ) by {
                            if k != i && !init[k] {
                                assert(old_flags[k]);
                                assert(calls_into(cl[k], old_marked));
                                let j = choose|j: int|
                                    0 <= j < cl[k].len() && old_marked.contains(#[trigger] cl[k][j]);
                                assert(new_marked.contains(cl[k][j]));
                            }
                        }
                        assert forall|x: Set<u32>|
                            covers(ids@, init, x) && closed_under_calls(
                                ids@,
                                cl,
                                x,
                            ) implies #[trigger] covers(ids@, flags@, x) by {
                            assert(covers(ids@, old_flags, x));
                            let t = calls@[i as int]@[c];
                            let k = choose|k: int|
                                0 <= k < ids@.len() && #[trigger] old_flags[k] && ids@[k] == t;
                            assert(x.contains(t));
                            assert(calls_into(cl[i as int], x));
                            assert forall|k: int|
                                0 <= k < ids@.len() && #[trigger] flags@[k] implies x.contains(
                                    ids@[k],
                                ) by {
                                if k != i {
                                    assert(old_flags[k]);
                                }
                            }
                        }
                    }
                    changes = true;
                }
            }
            i = i + 1;
        }
    }
}

/// The declaration ids of the functions of a call graph.
pub open spec fn graph_ids<N: CallGraphNode, T>(g: Seq<(&N, T)>) -> Seq<u32> {
    g.map_values(|p: (&N, T)| p.0.spec_decl_id())
}

/// The local calls of the functions of a call graph.
pub open spec fn graph_calls<N: CallGraphNode, T>(g: Seq<(&N, T)>) -> Seq<Seq<u32>> {
    g.map_values(|p: (&N, T)| p.0.spec_local_calls())
}

/// Which results of a call graph hold their predicate.
pub open spec fn graph_flags<N, T: Analysis>(g: Seq<(&N, T)>) -> Seq<bool> {
    g.map_values(|p: (&N, T)| p.1.spec_is_set())
}

/// The results of the functions of a call graph.
pub open spec fn graph_results<N, T>(g: Seq<(&N, T)>) -> Seq<T> {
    g.map_values(|p: (&N, T)| p.1)
}

/// The ids, call lists and flags of a call graph.
fn graph_parts<N: CallGraphNode, T: Analysis>(graph: &Vec<(&N, T)>) -> (r: (Vec<u32>, Vec<Vec<u32>>, Vec<bool>))
    ensures
        r.0@ == graph_ids(graph@),
        call_lists(r.1@) == graph_calls(graph@),
        r.2@ == graph_flags(graph@),
{
    let n = graph.len();
    let mut ids: Vec<u32> = Vec::new();
    let mut calls: Vec<Vec<u32>> = Vec::new();
    let mut flags: Vec<bool> = Vec::new();
    let mut i: usize = 0;
    while i < n
        invariant
            n == graph@.len(),
            i <= n,
            ids@ == graph_ids(graph@).take(i as int),
            call_lists(calls@) == graph_calls(graph@).take(i as int),
            flags@ == graph_flags(graph@).take(i as int),
        decreases n - i,
    {
        ids.push(graph[i].0.node_id());
        let lc = graph[i].0.node_calls();
        let c = lc.clone();
        assert(c@ =~= lc@);
        let ghost oldc = calls@;
        calls.push(c);
        assert(call_lists(calls@) =~= call_lists(oldc).push(c@));
        assert(graph_calls(graph@).take(i + 1) =~= graph_calls(graph@).take(i as int).push(
            graph@[i as int].0.spec_local_calls(),
        ));
        flags.push(graph[i].1.is_set());
        assert(ids@ =~= graph_ids(graph@).take(i + 1));
        assert(call_lists(calls@) =~= graph_calls(graph@).take(i + 1));
        assert(flags@ =~= graph_flags(graph@).take(i + 1));
        i = i + 1;
    }
    assert(ids@ =~= graph_ids(graph@));
    assert(call_lists(calls@) =~= graph_calls(graph@));
    assert(flags@ =~= graph_flags(graph@));
    (ids, calls, flags)
}

/// The flags that propagating `init` along the calls gives: the result of
/// propagation, which is unique (see `propagation_is_unique`).
pub open spec fn propagated(ids: Seq<u32>, calls: Seq<Seq<u32>>, init: Seq<bool>) -> Seq<bool> {
    choose|fin: Seq<bool>| is_propagation(ids, calls, init, fin)
}

/// The results once every function marked by `marks` whose result did not
/// hold the predicate has had it set; the other results stay as they were.
pub open spec fn after_marking<T: Analysis>(results: Seq<T>, marks: Seq<bool>) -> Seq<T> {
    Seq::new(
        results.len(),
        |i: int|
            if marks[i] && !results[i].spec_is_set() {
                results[i].spec_set()
            } else {
                results[i]
            },
    )
}

/// Marks every function that calls, directly or through other local calls, a
/// function whose result holds the predicate.
pub fn propagate_predicate<N: CallGraphNode, T: Analysis>(graph: &mut Vec<(&N, T)>)
    ensures
        final(graph)@.len() == old(graph)@.len(),
        forall|i: int| 0 <= i < old(graph)@.len() ==> #[trigger] final(graph)@[i].0 == old(graph)@[i].0,
        is_propagation(
            graph_ids(old(graph)@),
            graph_calls(old(graph)@),
            graph_flags(old(graph)@),
            propagated(graph_ids(old(graph)@), graph_calls(old(graph)@), graph_flags(old(graph)@)),
        ),
        graph_results(final(graph)@) == after_marking(
            graph_results(old(graph)@),
            propagated(graph_ids(old(graph)@), graph_calls(old(graph)@), graph_flags(old(graph)@)),
        ),
{
    let n = graph.len();
    let ghost g0 = graph@;
    let (ids, calls, mut flags) = graph_parts(graph);
    assert(call_lists(calls@).len() == calls@.len());
    propagate_flags(&ids, &calls, &mut flags);
    let ghost marks = propagated(graph_ids(g0), graph_calls(g0), graph_flags(g0));
    proof {
        assert(is_propagation(graph_ids(g0), graph_calls(g0), graph_flags(g0), flags@));
        propagation_is_unique(graph_ids(g0), graph_calls(g0), graph_flags(g0), flags@, marks);
    }
    assert forall|k: int| 0 <= k < n && g0[k].1.spec_is_set() implies #[trigger] flags@[k] by {
        assert(graph_flags(g0)[k]);
    }
    let mut i: usize = 0;
    while i < n
        invariant
            n == graph@.len(),
            n == g0.len(),
            flags@.len() == n,
            i <= n,
            forall|k: int| 0 <= k < n ==> #[trigger] graph@[k].0 == g0[k].0,
            forall|k: int|
                0 <= k < i ==> #[trigger] graph@[k].1 == (if flags@[k] && !g0[k].1.spec_is_set() {
                    g0[k].1.spec_set()
                } else {
                    g0[k].1
                }),
            forall|k: int| i <= k < n ==> #[trigger] graph@[k].1 == g0[k].1,
        decreases n - i,
    {
        if flags[i] && !graph[i].1.is_set() {
            graph[i].1.set();
        }
        i = i + 1;
    }
    assert(graph_results(graph@) =~= after_marking(graph_results(g0), marks));
}

/// Pairs each function of `data` with the result of its analysis and, when
/// `propagate` is set, propagates the predicate of the results along the
/// local calls.
pub fn run_all<'a, N: CallGraphNode, T: Analysis>(data: &'a Vec<N>, results: Vec<T>, propagate: bool) -> (r: Vec<(&'a N, T)>)
    requires
        results@.len() == data@.len(),
    ensures
        r@.len() == data@.len(),
        forall|i: int| 0 <= i < data@.len() ==> *(#[trigger] r@[i]).0 == data@[i],
        propagate ==> graph_results(r@) == after_marking(
            results@,
            propagated(graph_ids(r@), graph_calls(r@), results@.map_values(|t: T| t.spec_is_set())),
        ),
        propagate ==> is_propagation(
            graph_ids(r@),
            graph_calls(r@),
            results@.map_values(|t: T| t.spec_is_set()),
            propagated(graph_ids(r@), graph_calls(r@), results@.map_values(|t: T| t.spec_is_set())),
        ),
        !propagate ==> graph_results(r@) == results@,
{
    let ghost res0 = results@;
    let mut rest = results;
    let mut result: Vec<(&'a N, T)> = Vec::new();
    let mut i: usize = 0;
    assert(res0.skip(0) =~= res0);
    while i < data.len()
        invariant
            i <= data@.len(),
            res0.len() == data@.len(),
            rest@ == res0.skip(i as int),
            result@.len() == i,
            forall|k: int| 0 <= k < i ==> *(#[trigger] result@[k]).0 == data@[k],
            forall|k: int| 0 <= k < i ==> (#[trigger] result@[k]).1 == res0[k],
        decreases data@.len() - i,
    {
        let t = rest.remove(0);
        assert(rest@ =~= res0.skip(i + 1));
        result.push((&data[i], t));
        i = i + 1;
    }
    if propagate {
        let ghost g0 = result@;
        assert(graph_flags(g0) =~= res0.map_values(|t: T| t.spec_is_set()));
        assert(graph_results(g0) =~= res0);
        propagate_predicate(&mut result);
        assert(graph_ids(result@) =~= graph_ids(g0));
        assert(graph_calls(result@) =~= graph_calls(g0));
    } else {
        assert(graph_results(result@) =~= res0);
    }
    result
}

/// Whether the first entry of `ext` recorded for the function `call` says that
/// function has unsafe code in its body.
pub open spec fn first_match_unsafe(ext: Seq<UnsafeInBody>, call: Seq<char>) -> bool
    decreases ext.len(),
{
    if ext.len() == 0 {
        false
    } else if ext[0].fn_info@ == call {
        ext[0].has_unsafe
    } else {
        first_match_unsafe(ext.skip(1), call)
    }
}

/// Some external call of `f` reaches a function recorded with unsafe code.
pub open spec fn calls_unsafe_external(f: FnInfo, ext: Seq<UnsafeInBody>) -> bool {
    exists|j: int|
        0 <= j < f@.external_calls.len() && first_match_unsafe(
            ext,
            #[trigger] f@.external_calls[j].1,
        )
}

/// The flags of a call graph once the results of other crates are taken in.
pub open spec fn flags_with_external(
    g: Seq<(&FnInfo, UnsafeInBody)>,
    ext: Seq<UnsafeInBody>,
) -> Seq<bool> {
    g.map_values(|p: (&FnInfo, UnsafeInBody)| p.1.has_unsafe || calls_unsafe_external(*p.0, ext))
}

/// The flag of the first entry recorded for `call`.
fn find_external(ext: &Vec<UnsafeInBody>, call: &String) -> (r: bool)
    ensures
        r == first_match_unsafe(ext@, call@),
{
    let mut i: usize = 0;
    assert(ext@.skip(0) =~= ext@);
    while i < ext.len()
        invariant
            i <= ext.len(),
            first_match_unsafe(ext@, call@) == first_match_unsafe(ext@.skip(i as int), call@),
        decreases ext.len() - i,
    {
        assert(ext@.skip(i as int)[0] == ext@[i as int]);
        if ext[i].fn_info == *call {
            return ext[i].has_unsafe;
        }
        assert(ext@.skip(i as int).skip(1) =~= ext@.skip(i + 1));
        i = i + 1;
    }
    false
}

/// Whether some external call of `f` reaches a function recorded with unsafe code.
fn external_unsafe(f: &FnInfo, ext: &Vec<UnsafeInBody>) -> (r: bool)
    ensures
        r == calls_unsafe_external(*f, ext@),
{
    let calls = f.external_calls();
    let mut j: usize = 0;
    while j < calls.len()
        invariant
            j <= calls.len(),
            external_view(calls@) == f@.external_calls,
            forall|k: int| 0 <= k < j ==> !first_match_unsafe(ext@, #[trigger] f@.external_calls[k].1),
        decreases calls.len() - j,
    {
        assert(f@.external_calls[j as int].1 == calls@[j as int].1@);
        if find_external(ext, &calls[j].1) {
            return true;
        }
        j = j + 1;
    }
    false
}

use crate::hidden::fn_info::external_view;

/// `ext[k]` is the first record of the function at path `call`, and says
/// that function has unsafe code.
pub open spec fn first_record_unsafe_at(ext: Seq<UnsafeInBody>, call: Seq<char>, k: int) -> bool {
    &&& 0 <= k < ext.len()
    &&& ext[k].fn_info@ == call
    &&& ext[k].has_unsafe
    &&& forall|m: int| 0 <= m < k ==> (#[trigger] ext[m]).fn_info@ != call
}

proof fn lemma_first_record_unsafe(ext: Seq<UnsafeInBody>, call: Seq<char>, k: int)
    requires
        first_record_unsafe_at(ext, call, k),
    ensures
        first_match_unsafe(ext, call),
    decreases ext.len(),
{
    if k > 0 {
        assert(ext[0].fn_info@ != call);
        let rest = ext.skip(1);
        assert forall|m: int| 0 <= m < k - 1 implies (#[trigger] rest[m]).fn_info@ != call by {
            assert(rest[m] == ext[m + 1]);
        }
        assert(rest[k - 1] == ext[k]);
        lemma_first_record_unsafe(rest, call, k - 1);
    }
}

/// Every external call of a function is looked up, not just the first: a
/// function one of whose calls into another crate is first recorded with
/// unsafe code starts out marked, as does one whose own result is marked.
pub proof fn any_unsafe_external_call_marks(
    g: Seq<(&FnInfo, UnsafeInBody)>,
    ext: Seq<UnsafeInBody>,
    i: int,
    j: int,
    k: int,
)
    requires
        0 <= i < g.len(),
        0 <= j < g[i].0@.external_calls.len(),
        first_record_unsafe_at(ext, g[i].0@.external_calls[j].1, k) || g[i].1.has_unsafe,
    ensures
        flags_with_external(g, ext)[i],
{
    if first_record_unsafe_at(ext, g[i].0@.external_calls[j].1, k) {
        lemma_first_record_unsafe(ext, g[i].0@.external_calls[j].1, k);
        assert(calls_unsafe_external(*g[i].0, ext));
    }
}

proof fn lemma_first_match_has_record(ext: Seq<UnsafeInBody>, call: Seq<char>)
    requires
        first_match_unsafe(ext, call),
    ensures
        exists|k: int| #[trigger] first_record_unsafe_at(ext, call, k),
    decreases ext.len(),
{
    if ext[0].fn_info@ == call {
        assert(first_record_unsafe_at(ext, call, 0));
    } else {
        let rest = ext.skip(1);
        lemma_first_match_has_record(rest, call);
        let k = choose|k: int| #[trigger] first_record_unsafe_at(rest, call, k);
        assert forall|m: int| 0 <= m < k + 1 implies (#[trigger] ext[m]).fn_info@ != call by {
            if m > 0 {
                assert(ext[m] == rest[m - 1]);
            }
        }
        assert(ext[k + 1] == rest[k]);
        assert(first_record_unsafe_at(ext, call, k + 1));
    }
}

/// Only the first record of a called function counts: a function starts
/// out marked only when its own result is marked or one of its calls into
/// another crate is first recorded with unsafe code (a later record of the
/// same function does not count).
pub proof fn only_first_records_mark(g: Seq<(&FnInfo, UnsafeInBody)>, ext: Seq<UnsafeInBody>, i: int)
    requires
        0 <= i < g.len(),
        flags_with_external(g, ext)[i],
    ensures
        g[i].1.has_unsafe || exists|j: int, k: int|
            0 <= j < g[i].0@.external_calls.len() && #[trigger] first_record_unsafe_at(
                ext,
                g[i].0@.external_calls[j].1,
                k,
            ),
{
    if !g[i].1.has_unsafe {
        let f = *g[i].0;
        assert(calls_unsafe_external(f, ext));
        let j = choose|j: int|
            0 <= j < f@.external_calls.len() && first_match_unsafe(ext, #[trigger] f@.external_calls[j].1);
        lemma_first_match_has_record(ext, f@.external_calls[j].1);
    }
}

/// Marks every function that has unsafe code, calls a function of another
/// crate recorded (first entry in `external_unsafety`) with unsafe code, or
/// calls through local calls such a function.
pub fn propagate_external(
    graph: &mut Vec<(&FnInfo, UnsafeInBody)>,
    external_unsafety: &Vec<UnsafeInBody>,
)
    ensures
        final(graph)@.len() == old(graph)@.len(),
        forall|i: int| 0 <= i < old(graph)@.len() ==> #[trigger] final(graph)@[i].0 == old(graph)@[i].0,
        forall|i: int|
            0 <= i < old(graph)@.len() ==> #[trigger] final(graph)@[i].1.fn_info == old(graph)@[i].1.fn_info,
        is_propagation(
            graph_ids(old(graph)@),
            graph_calls(old(graph)@),
            flags_with_external(old(graph)@, external_unsafety@),
            graph_flags(final(graph)@),
        ),
        forall|i: int|
            0 <= i < old(graph)@.len() && (#[trigger] old(graph)@[i]).1.has_unsafe
                ==> final(graph)@[i].1.has_unsafe,
        forall|i: int, j: int, k: int|
            0 <= i < old(graph)@.len() && 0 <= j < old(graph)@[i].0@.external_calls.len()
                && #[trigger] first_record_unsafe_at(
                external_unsafety@,
                old(graph)@[i].0@.external_calls[j].1,
                k,
            ) ==> final(graph)@[i].1.has_unsafe,
{
    let n = graph.len();
    let ghost g0 = graph@;
    let ghost ext_flags = flags_with_external(g0, external_unsafety@);
    let mut i: usize = 0;
    while i < n
        invariant
            n == graph@.len(),
            n == g0.len(),
            i <= n,
            ext_flags == flags_with_external(g0, external_unsafety@),
            forall|k: int| 0 <= k < n ==> #[trigger] graph@[k].0 == g0[k].0,
            forall|k: int| 0 <= k < n ==> #[trigger] graph@[k].1.fn_info == g0[k].1.fn_info,
            forall|k: int| 0 <= k < i ==> #[trigger] graph@[k].1.has_unsafe == ext_flags[k],
            forall|k: int| i <= k < n ==> #[trigger] graph@[k].1 == g0[k].1,
        decreases n - i,
    {
        if external_unsafe(graph[i].0, external_unsafety) {
            graph[i].1.set();
        }
        i = i + 1;
    }
    assert(graph_flags(graph@) =~= ext_flags);
    assert(graph_ids(graph@) =~= graph_ids(g0));
    assert(graph_calls(graph@) =~= graph_calls(g0));
    let ghost g1 = graph@;
    let (ids, calls, mut flags) = graph_parts(graph);
    assert(call_lists(calls@).len() == calls@.len());
    propagate_flags(&ids, &calls, &mut flags);
    let mut i: usize = 0;
    while i < n
        invariant
            n == graph@.len(),
            n == g0.len(),
            n == g1.len(),
            flags@.len() == n,
            i <= n,
            forall|k: int| 0 <= k < n ==> #[trigger] graph@[k].0 == g0[k].0,
            forall|k: int| 0 <= k < n ==> #[trigger] graph@[k].1.fn_info == g0[k].1.fn_info,
            forall|k: int| 0 <= k < i ==> #[trigger] graph@[k].1.has_unsafe == flags@[k],
            forall|k: int| i <= k < n ==> #[trigger] graph@[k].1 == g1[k].1,
            forall|k: int| 0 <= k < n && g1[k].1.has_unsafe ==> #[trigger] flags@[k],
        decreases n - i,
    {
        assert(graph_flags(g1)[i as int] == g1[i as int].1.has_unsafe);
        if flags[i] {
            graph[i].1.set();
        }
        i = i + 1;
    }
    assert(graph_flags(graph@) =~= flags@);
    proof {
        assert forall|i: int, j: int, k: int|
            0 <= i < g0.len() && 0 <= j < g0[i].0@.external_calls.len()
                && #[trigger] first_record_unsafe_at(
                external_unsafety@,
                g0[i].0@.external_calls[j].1,
                k,
            ) implies graph@[i].1.has_unsafe by {
            any_unsafe_external_call_marks(g0, external_unsafety@, i, j, k);
            assert(graph_flags(graph@)[i]);
        }
        assert forall|i: int| 0 <= i < g0.len() && (#[trigger] g0[i]).1.has_unsafe implies graph@[i].1.has_unsafe by {
            assert(flags_with_external(g0, external_unsafety@)[i]);
            assert(graph_flags(graph@)[i]);
        }
    }
}

/// The result of propagation is determined by the call graph and the initial
/// flags: two results of propagating the same flags are equal.
pub proof fn propagation_is_unique(
    ids: Seq<u32>,
    calls: Seq<Seq<u32>>,
    init: Seq<bool>,
    a: Seq<bool>,
    b: Seq<bool>,
)
    requires
        is_propagation(ids, calls, init, a),
        is_propagation(ids, calls, init, b),
    ensures
        a == b,
{
    let ma = marked_ids(ids, a);
    let mb = marked_ids(ids, b);
    assert(covers(ids, init, mb)) by {
        assert forall|i: int| 0 <= i < ids.len() && #[trigger] init[i] implies mb.contains(ids[i]) by {
            assert(b[i]);
        }
    }
    assert(closed_under_calls(ids, calls, mb)) by {
        assert forall|i: int|
            0 <= i < ids.len() && #[trigger] calls_into(calls[i], mb) implies mb.contains(ids[i]) by {
            assert(b[i]);
        }
    }
    assert(covers(ids, init, ma)) by {
        assert forall|i: int| 0 <= i < ids.len() && #[trigger] init[i] implies ma.contains(ids[i]) by {
            assert(a[i]);
        }
    }
    assert(closed_under_calls(ids, calls, ma)) by {
        assert forall|i: int|
            0 <= i < ids.len() && #[trigger] calls_into(calls[i], ma) implies ma.contains(ids[i]) by {
            assert(a[i]);
        }
    }
    assert(covers(ids, a, mb));
    assert(covers(ids, b, ma));
    assert(ma =~= mb) by {
        assert forall|x: u32| ma.contains(x) implies mb.contains(x) by {
            let i = choose|i: int| 0 <= i < ids.len() && #[trigger] a[i] && ids[i] == x;
        }
        assert forall|x: u32| mb.contains(x) implies ma.contains(x) by {
            let i = choose|i: int| 0 <= i < ids.len() && #[trigger] b[i] && ids[i] == x;
        }
    }
    assert forall|i: int| 0 <= i < a.len() implies a[i] == b[i] by {
        if a[i] && !b[i] {
            assert(!init[i]);
        }
        if b[i] && !a[i] {
            assert(!init[i]);
        }
    }
    assert(a =~= b);
}

/// Propagation reaches a fixed point: propagating its result again changes
/// nothing.
pub proof fn propagation_is_idempotent(
    ids: Seq<u32>,
    calls: Seq<Seq<u32>>,
    init: Seq<bool>,
    fin: Seq<bool>,
)
    requires
        is_propagation(ids, calls, init, fin),
    ensures
        is_propagation(ids, calls, fin, fin),
{
}


/// Marking more functions at the start never leaves a function unmarked at
/// the end that was marked before: propagation is monotone in its initial
/// flags.
pub proof fn propagation_is_monotone(
    ids: Seq<u32>,
    calls: Seq<Seq<u32>>,
    init1: Seq<bool>,
    fin1: Seq<bool>,
    init2: Seq<bool>,
    fin2: Seq<bool>,
)
    requires
        is_propagation(ids, calls, init1, fin1),
        is_propagation(ids, calls, init2, fin2),
        forall|i: int| 0 <= i < ids.len() && #[trigger] init1[i] ==> init2[i],
    ensures
        forall|i: int| 0 <= i < ids.len() && #[trigger] fin1[i] ==> fin2[i],
{
    let m2 = marked_ids(ids, fin2);
    assert(covers(ids, init1, m2)) by {
        assert forall|i: int| 0 <= i < ids.len() && #[trigger] init1[i] implies m2.contains(ids[i]) by {
            assert(init2[i]);
            assert(fin2[i]);
        }
    }
    assert(closed_under_calls(ids, calls, m2)) by {
        assert forall|i: int|
            0 <= i < ids.len() && #[trigger] calls_into(calls[i], m2) implies m2.contains(ids[i]) by {
            assert(fin2[i]);
        }
    }
    assert(covers(ids, fin1, m2));
    let m1 = marked_ids(ids, fin1);
    assert forall|i: int| 0 <= i < ids.len() && #[trigger] fin1[i] implies fin2[i] by {
        if !init1[i] {
            assert(calls_into(calls[i], m1));
            let j = choose|j: int| 0 <= j < calls[i].len() && m1.contains(#[trigger] calls[i][j]);
            let k = choose|k: int| 0 <= k < ids.len() && #[trigger] fin1[k] && ids[k] == calls[i][j];
            assert(m2.contains(ids[k]));
            assert(calls_into(calls[i], m2));
        } else {
            assert(init2[i]);
        }
    }
}


/// With no results recorded for other crates, the flags that propagation
/// through external calls starts from are the functions' own flags.
pub proof fn no_external_results_add_nothing(g: Seq<(&FnInfo, UnsafeInBody)>)
    ensures
        flags_with_external(g, Seq::empty()) == graph_flags(g),
{
    assert forall|i: int| 0 <= i < g.len() implies flags_with_external(g, Seq::empty())[i]
        == graph_flags(g)[i] by {
        let f = *g[i].0;
        assert forall|j: int| 0 <= j < f@.external_calls.len() implies !first_match_unsafe(
            Seq::<UnsafeInBody>::empty(),
            #[trigger] f@.external_calls[j].1,
        ) by {}
    }
    assert(flags_with_external(g, Seq::empty()) =~= graph_flags(g));
}

/// For results whose `set` makes the predicate hold, propagating a second
/// time changes no result: the marked functions are exactly those whose
/// result holds the predicate after the first propagation.
pub proof fn propagating_again_changes_nothing<T: Analysis>(
    ids: Seq<u32>,
    calls: Seq<Seq<u32>>,
    results: Seq<T>,
    fin: Seq<bool>,
)
    requires
        is_propagation(ids, calls, results.map_values(|t: T| t.spec_is_set()), fin),
        forall|i: int| 0 <= i < results.len() ==> (#[trigger] results[i]).spec_set().spec_is_set(),
    ensures
        ({
            let marks = propagated(ids, calls, results.map_values(|t: T| t.spec_is_set()));
            let once = after_marking(results, marks);
            &&& once.map_values(|t: T| t.spec_is_set()) == marks
            &&& after_marking(once, propagated(ids, calls, once.map_values(|t: T| t.spec_is_set())))
                == once
        }),
{
    let init = results.map_values(|t: T| t.spec_is_set());
    let marks = propagated(ids, calls, init);
    propagation_is_unique(ids, calls, init, fin, marks);
    let once = after_marking(results, marks);
    let f1 = once.map_values(|t: T| t.spec_is_set());
    assert forall|i: int| 0 <= i < f1.len() implies f1[i] == marks[i] by {
        if marks[i] && !results[i].spec_is_set() {
            assert(once[i] == results[i].spec_set());
        } else {
            assert(once[i] == results[i]);
            if results[i].spec_is_set() {
                assert(init[i]);
            }
        }
    }
    assert(f1 =~= marks);
    propagation_is_idempotent(ids, calls, init, marks);
    let marks2 = propagated(ids, calls, f1);
    propagation_is_unique(ids, calls, f1, marks, marks2);
    assert(after_marking(once, marks2) =~= once);
}

impl Analysis for UnsafeInBody {
    open spec fn spec_is_set(&self) -> bool {
        self.has_unsafe
    }

    open spec fn spec_set(&self) -> Self {
        UnsafeInBody { fn_info: self.fn_info, has_unsafe: true }
    }

    fn is_set(&self) -> (r: bool) {
        self.has_unsafe
    }

    fn set(&mut self)
        ensures
            final(self).fn_info == old(self).fn_info,
    {
        self.has_unsafe = true;
    }
}

impl Analysis for UnsafeTraitSafeMethodInBody {
    open spec fn spec_is_set(&self) -> bool {
        self.has_unsafe
    }

    open spec fn spec_set(&self) -> Self {
        UnsafeTraitSafeMethodInBody { fn_name: self.fn_name, has_unsafe: true }
    }

    fn is_set(&self) -> (r: bool) {
        self.has_unsafe
    }

    fn set(&mut self) {
        self.has_unsafe = true;
    }
}

/// The reasons of an unsafe function hold no predicate: propagation never
/// marks anything through them.
impl Analysis for UnsafeFnUsafetyAnalysis {
    open spec fn spec_is_set(&self) -> bool {
        false
    }

    open spec fn spec_set(&self) -> Self {
        *self
    }

    fn is_set(&self) -> (r: bool) {
        false
    }

    fn set(&mut self) {
    }
}

} // verus!
