//! What the call-graph builder records about one function: its declaration
//! id, the local functions it calls, and the functions of other crates it
//! calls, each call recorded once.
use vstd::prelude::*;
use crate::text::{replace_all, replace_all_str};
use crate::hidden::deps::{calls_of, strings_view};

verus! {

/// The abstract content of a [`FnInfo`].
pub struct FnInfoView {
    pub decl_id: u32,
    pub local_calls: Seq<u32>,
    pub external_calls: Seq<(u32, Seq<char>)>,
}

/// Call-graph node of a function of the crate under analysis.
pub struct FnInfo {
    decl_id: u32,
    local_calls: Vec<u32>,
    external_calls: Vec<(u32, String)>,
}

/// The character content of a list of (crate, path) pairs.
pub open spec fn external_view(v: Seq<(u32, String)>) -> Seq<(u32, Seq<char>)> {
    v.map_values(|p: (u32, String)| (p.0, p.1@))
}

/// The path under which a call into crate `crate_name` is recorded: the item
/// path with every `crate_name::` removed.
pub open spec fn external_call_name(crate_name: Seq<char>, item_path: Seq<char>) -> Seq<char> {
    replace_all(item_path, crate_name + "::"@, Seq::empty())
}

/// The crates called into, in the order of their first call.
pub open spec fn distinct_crates(calls: Seq<(u32, Seq<char>)>) -> Seq<u32>
    decreases calls.len(),
{
    if calls.len() == 0 {
        Seq::empty()
    } else {
        let d = distinct_crates(calls.drop_last());
        if d.contains(calls.last().0) {
            d
        } else {
            d.push(calls.last().0)
        }
    }
}

/// The calls grouped by crate: for each crate called into, in the order of
/// its first call, the paths called in it, in order.
pub open spec fn grouped_calls(calls: Seq<(u32, Seq<char>)>) -> Seq<(u32, Seq<Seq<char>>)> {
    distinct_crates(calls).map_values(|k: u32| (k, calls_of(calls, k)))
}

/// The content of a list of groups.
pub open spec fn groups_view(v: Seq<(u32, Vec<String>)>) -> Seq<(u32, Seq<Seq<char>>)> {
    v.map_values(|p: (u32, Vec<String>)| (p.0, strings_view(p.1@)))
}

/// The crates called into by `calls`, in the order of their first call.
pub fn crates_of_calls(calls: &Vec<(u32, String)>) -> (r: Vec<u32>)
    ensures
        r@ == distinct_crates(external_view(calls@)),
{
    let ghost ev = external_view(calls@);
    let mut r: Vec<u32> = Vec::new();
    let mut i: usize = 0;
    while i < calls.len()
        invariant
            i <= calls.len(),
            ev == external_view(calls@),
            r@ == distinct_crates(ev.take(i as int)),
        decreases calls.len() - i,
    {
        assert(ev.take(i + 1).drop_last() =~= ev.take(i as int));
        assert(ev.take(i + 1).last().0 == calls@[i as int].0);
        if !crate::hidden::analysis::id_in(&r, calls[i].0) {
            r.push(calls[i].0);
        }
        i = i + 1;
    }
    assert(ev.take(calls.len() as int) =~= ev);
    r
}

/// The paths of the calls into crate `krate`, in order.
pub fn calls_to_crate(calls: &Vec<(u32, String)>, krate: u32) -> (r: Vec<String>)
    ensures
        strings_view(r@) == calls_of(external_view(calls@), krate),
{
    let ghost ev = external_view(calls@);
    let mut r: Vec<String> = Vec::new();
    let mut j: usize = 0;
    assert(ev.take(0) =~= Seq::<(u32, Seq<char>)>::empty());
    assert(strings_view(r@) =~= Seq::<Seq<char>>::empty());
    while j < calls.len()
        invariant
            j <= calls.len(),
            ev == external_view(calls@),
            strings_view(r@) == calls_of(ev.take(j as int), krate),
        decreases calls.len() - j,
    {
        assert(ev.take(j + 1).drop_last() =~= ev.take(j as int));
        assert(ev[j as int] == (calls@[j as int].0, calls@[j as int].1@));
        if calls[j].0 == krate {
            let ghost before = r@;
            r.push(calls[j].1.clone());
            assert(strings_view(r@) =~= strings_view(before).push(calls@[j as int].1@));
        }
        j = j + 1;
    }
    assert(ev.take(calls.len() as int) =~= ev);
    r
}

/// The calls grouped by crate, crates in the order of their first call.
pub fn group_by_crate(calls: &Vec<(u32, String)>) -> (r: Vec<(u32, Vec<String>)>)
    ensures
        groups_view(r@) == grouped_calls(external_view(calls@)),
{
    let crates = crates_of_calls(calls);
    let mut r: Vec<(u32, Vec<String>)> = Vec::new();
    let mut i: usize = 0;
    while i < crates.len()
        invariant
            i <= crates.len(),
            crates@ == distinct_crates(external_view(calls@)),
            groups_view(r@) == grouped_calls(external_view(calls@)).take(i as int),
        decreases crates.len() - i,
    {
        let names = calls_to_crate(calls, crates[i]);
        let ghost before = r@;
        r.push((crates[i], names));
        let ghost g = grouped_calls(external_view(calls@));
        assert(g[i as int] == (crates@[i as int], calls_of(external_view(calls@), crates@[i as int])));
        assert(groups_view(r@) =~= groups_view(before).push((crates@[i as int], strings_view(names@))));
        assert(g.take(i + 1) =~= g.take(i as int).push(g[i as int]));
        i = i + 1;
    }
    assert(grouped_calls(external_view(calls@)).take(crates.len() as int) =~= grouped_calls(
        external_view(calls@),
    ));
    r
}

/// Recording an item only when it is not there yet keeps the recorded
/// items distinct.
pub proof fn recording_keeps_items_distinct<A>(v: Seq<A>, x: A)
    requires
        v.no_duplicates(),
    ensures
        (if v.contains(x) {
            v
        } else {
            v.push(x)
        }).no_duplicates(),
{
    if !v.contains(x) {
        let w = v.push(x);
        assert forall|i: int, j: int| 0 <= i < w.len() && 0 <= j < w.len() && i != j implies w[i]
            != w[j] by {
            if j == v.len() {
                assert(w[i] == v[i]);
            } else if i == v.len() {
                assert(w[j] == v[j]);
            } else {
                assert(w[i] == v[i] && w[j] == v[j]);
            }
        }
    }
}

impl View for FnInfo {
    type V = FnInfoView;

    closed spec fn view(&self) -> FnInfoView {
        FnInfoView {
            decl_id: self.decl_id,
            local_calls: self.local_calls@,
            external_calls: external_view(self.external_calls@),
        }
    }
}

impl FnInfo {
    pub fn decl_id(&self) -> (r: u32)
        ensures
            r == self@.decl_id,
    {
        self.decl_id
    }

    pub fn local_calls(&self) -> (r: &Vec<u32>)
        ensures
            r@ == self@.local_calls,
    {
        &self.local_calls
    }

    pub fn external_calls(&self) -> (r: &Vec<(u32, String)>)
        ensures
            external_view(r@) == self@.external_calls,
    {
        &self.external_calls
    }

    /// A node for the function declared at `hir_id`, with no calls yet.
    pub fn new(hir_id: u32) -> (r: Self)
        ensures
            r@.decl_id == hir_id,
            r@.local_calls == Seq::<u32>::empty(),
            r@.external_calls == Seq::<(u32, Seq<char>)>::empty(),
            r@.local_calls.no_duplicates(),
            r@.external_calls.no_duplicates(),
    {
        let r = FnInfo { decl_id: hir_id, local_calls: Vec::new(), external_calls: Vec::new() };
        assert(external_view(r.external_calls@) =~= Seq::<(u32, Seq<char>)>::empty());
        r
    }

    /// Records a call into crate `krate` (named `crate_name`) of the item at
    /// `item_path`, unless the same call was recorded before.
    pub fn push_external_call(&mut self, krate: u32, crate_name: &str, item_path: &str)
        ensures
            final(self)@.decl_id == old(self)@.decl_id,
            final(self)@.local_calls == old(self)@.local_calls,
            ({
                let call = (krate, external_call_name(crate_name@, item_path@));
                if old(self)@.external_calls.contains(call) {
                    final(self)@.external_calls == old(self)@.external_calls
                } else {
                    final(self)@.external_calls == old(self)@.external_calls.push(call)
                }
            }),
            old(self)@.external_calls.no_duplicates() ==> final(self)@.external_calls.no_duplicates(),
    {
        let mut prefix = String::from_str(crate_name);
        prefix.append("::");
        proof {
            reveal_strlit("::");
        }
        let func = replace_all_str(item_path, prefix.as_str(), "");
        proof {
            reveal_strlit("");
            assert(""@ =~= Seq::<char>::empty());
        }
        let ghost call = (krate, external_call_name(crate_name@, item_path@));
        let mut found = false;
        let mut i: usize = 0;
        while i < self.external_calls.len()
            invariant
                i <= self.external_calls.len(),
                func@ == call.1,
                call.0 == krate,
                found <==> exists|k: int|
                    0 <= k < i && #[trigger] external_view(self.external_calls@)[k] == call,
            decreases self.external_calls.len() - i,
        {
            let ghost ev = external_view(self.external_calls@);
            assert(ev[i as int] == (self.external_calls@[i as int].0, self.external_calls@[i as int].1@));
            let same_name = self.external_calls[i].1 == func;
            assert(same_name == (self.external_calls@[i as int].1@ == func@));
            let same = same_name && self.external_calls[i].0 == krate;
            assert(same == (ev[i as int] == call));
            if same {
                found = true;
            }
            proof {
                assert forall|k: int| 0 <= k < i + 1 && #[trigger] ev[k] == call implies (k < i || same) by {}
            }
            i = i + 1;
        }
        let ghost before = external_view(self.external_calls@);
        if !found {
            self.external_calls.push((krate, func));
            assert(external_view(self.external_calls@) =~= before.push(call));
        } else {
            proof {
                let k = choose|k: int| 0 <= k < i && #[trigger] before[k] == call;
                assert(before.contains(call));
            }
        }
        proof {
            if before.contains(call) {
                let k = choose|k: int| 0 <= k < before.len() && before[k] == call;
                assert(external_view(old(self).external_calls@)[k] == call);
            }
            if before.no_duplicates() {
                recording_keeps_items_distinct(before, call);
            }
        }
    }

    /// The calls into other crates grouped by crate, crates in the order of
    /// their first call: what is printed for the function.
    pub fn external_calls_by_crate(&self) -> (r: Vec<(u32, Vec<String>)>)
        ensures
            groups_view(r@) == grouped_calls(self@.external_calls),
    {
        group_by_crate(&self.external_calls)
    }

    /// Records a call of the local function `node_id`, unless recorded before.
    pub fn push_local_call(&mut self, node_id: u32)
        ensures
            final(self)@.decl_id == old(self)@.decl_id,
            final(self)@.external_calls == old(self)@.external_calls,
            if old(self)@.local_calls.contains(node_id) {
                final(self)@.local_calls == old(self)@.local_calls
            } else {
                final(self)@.local_calls == old(self)@.local_calls.push(node_id)
            },
            old(self)@.local_calls.no_duplicates() ==> final(self)@.local_calls.no_duplicates(),
    {
        proof {
            if self.local_calls@.no_duplicates() {
                recording_keeps_items_distinct(self.local_calls@, node_id);
            }
        }
        let found = crate::hidden::analysis::id_in(&self.local_calls, node_id);
        if !found {
            self.local_calls.push(node_id);
        }
    }
}

} // verus!
