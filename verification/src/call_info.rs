//! Call-graph nodes that also record, for each call into another crate,
//! whether the called function is declared unsafe; and the descriptions of
//! functions built from them.
use vstd::prelude::*;
use crate::hidden::analysis::CallGraphNode;
use crate::hidden::deps::{calls_of, strings_view};
use crate::hidden::fn_info::{
    distinct_crates, external_call_name, external_view, group_by_crate, recording_keeps_items_distinct,
};
use crate::results::functions::{LongFnInfo, ShortFnInfo, groups_view, pairs_view};
use crate::text::{decimal, replace_all_str, u32_to_decimal};

verus! {

/// Whether a called function is declared unsafe.
#[derive(Clone, Copy, PartialEq, Eq, Structural, Debug)]
pub enum Safety {
    Unsafe,
    Normal,
}

/// The abstract content of a [`FnInfo`].
pub struct FnInfoView {
    pub decl_id: u32,
    pub local_calls: Seq<u32>,
    pub external_calls: Seq<(u32, Seq<char>, Safety)>,
}

/// Call-graph node of a function: its declaration id, the local functions
/// it calls, and the functions of other crates it calls with their safety,
/// each call recorded once.
pub struct FnInfo {
    decl_id: u32,
    local_calls: Vec<u32>,
    external_calls: Vec<(u32, String, Safety)>,
}

/// The character content of a list of calls.
pub open spec fn calls_view(v: Seq<(u32, String, Safety)>) -> Seq<(u32, Seq<char>, Safety)> {
    v.map_values(|p: (u32, String, Safety)| (p.0, p.1@, p.2))
}

/// The calls without their safety.
pub open spec fn unsafety_free(v: Seq<(u32, Seq<char>, Safety)>) -> Seq<(u32, Seq<char>)> {
    v.map_values(|p: (u32, Seq<char>, Safety)| (p.0, p.1))
}

impl View for FnInfo {
    type V = FnInfoView;

    closed spec fn view(&self) -> FnInfoView {
        FnInfoView {
            decl_id: self.decl_id,
            local_calls: self.local_calls@,
            external_calls: calls_view(self.external_calls@),
        }
    }
}

/// The local calls described by their names and decimal node ids.
pub open spec fn local_pairs(names: Seq<Seq<char>>, ids: Seq<u32>) -> Seq<(Seq<char>, Seq<char>)> {
    Seq::new(ids.len(), |i: int| (names[i], decimal(ids[i] as nat)))
}

/// The calls grouped by crate, each crate under its name.
pub open spec fn named_groups(
    calls: Seq<(u32, Seq<char>)>,
    crate_names: Seq<Seq<char>>,
) -> Seq<(Seq<char>, Seq<Seq<char>>)> {
    Seq::new(
        distinct_crates(calls).len(),
        |i: int| (crate_names[i], calls_of(calls, distinct_crates(calls)[i])),
    )
}

impl FnInfo {
    pub fn decl_id(&self) -> (r: u32)
        ensures
            r == self@.decl_id,
    {
        self.decl_id
    }

    pub fn local_calls(&self) -> (r: &Vec<u32>)
        ensures
            r@ == self@.local_calls,
    {
        &self.local_calls
    }

    pub fn external_calls(&self) -> (r: &Vec<(u32, String, Safety)>)
        ensures
            calls_view(r@) == self@.external_calls,
    {
        &self.external_calls
    }

    pub fn new(hir_id: u32) -> (r: Self)
        ensures
            r@.decl_id == hir_id,
            r@.local_calls.len() == 0,
            r@.external_calls.len() == 0,
            r@.local_calls.no_duplicates(),
            unsafety_free(r@.external_calls).no_duplicates(),
    {
        FnInfo { decl_id: hir_id, local_calls: Vec::new(), external_calls: Vec::new() }
    }

    /// Records a call into crate `krate` (named `crate_name`) of the item at
    /// `item_path`, whose safety is `safety`, unless a call of the same path
    /// into the same crate was recorded before.
    pub fn push_external_call(&mut self, krate: u32, crate_name: &str, item_path: &str, safety: Safety)
        ensures
            final(self)@.decl_id == old(self)@.decl_id,
            final(self)@.local_calls == old(self)@.local_calls,
            ({
                let func = external_call_name(crate_name@, item_path@);
                if unsafety_free(old(self)@.external_calls).contains((krate, func)) {
                    final(self)@.external_calls == old(self)@.external_calls
                } else {
                    final(self)@.external_calls == old(self)@.external_calls.push(
                        (krate, func, safety),
                    )
                }
            }),
            unsafety_free(old(self)@.external_calls).no_duplicates() ==> unsafety_free(
                final(self)@.external_calls,
            ).no_duplicates(),
    {
        let mut prefix = String::from_str(crate_name);
        prefix.append("::");
        proof {
            reveal_strlit("::");
            reveal_strlit("");
            assert(""@ =~= Seq::<char>::empty());
        }
        let func = replace_all_str(item_path, prefix.as_str(), "");
        let ghost call = (krate, external_call_name(crate_name@, item_path@));
        let ghost ev = unsafety_free(calls_view(self.external_calls@));
        let mut found = false;
        let mut i: usize = 0;
        while i < self.external_calls.len()
            invariant
                i <= self.external_calls.len(),
                ev == unsafety_free(calls_view(self.external_calls@)),
                func@ == call.1,
                call.0 == krate,
                found <==> exists|k: int| 0 <= k < i && #[trigger] ev[k] == call,
            decreases self.external_calls.len() - i,
        {
            assert(ev[i as int] == (self.external_calls@[i as int].0, self.external_calls@[i as int].1@));
            let same_name = self.external_calls[i].1 == func;
            let same = same_name && self.external_calls[i].0 == krate;
            assert(same == (ev[i as int] == call));
            if same {
                found = true;
            }
            i = i + 1;
        }
        let ghost before = calls_view(self.external_calls@);
        if !found {
            self.external_calls.push((krate, func, safety));
            assert(calls_view(self.external_calls@) =~= before.push((krate, call.1, safety)));
            assert(unsafety_free(calls_view(self.external_calls@)) =~= ev.push(call));
            proof {
                if ev.no_duplicates() {
                    recording_keeps_items_distinct(ev, call);
                }
                if ev.contains(call) {
                    let k = choose|k: int| 0 <= k < ev.len() && ev[k] == call;
                    assert(ev[k] == call);
                }
            }
        } else {
            proof {
                let k = choose|k: int| 0 <= k < i && #[trigger] ev[k] == call;
                assert(ev.contains(call));
            }
        }
    }

    /// Records a call of the local function `node_id`, unless recorded before.
    pub fn push_local_call(&mut self, node_id: u32)
        ensures
            final(self)@.decl_id == old(self)@.decl_id,
            final(self)@.external_calls == old(self)@.external_calls,
            if old(self)@.local_calls.contains(node_id) {
                final(self)@.local_calls == old(self)@.local_calls
            } else {
                final(self)@.local_calls == old(self)@.local_calls.push(node_id)
            },
            old(self)@.local_calls.no_duplicates() ==> final(self)@.local_calls.no_duplicates(),
    {
        proof {
            if self.local_calls@.no_duplicates() {
                recording_keeps_items_distinct(self.local_calls@, node_id);
            }
        }
        let found = crate::hidden::analysis::id_in(&self.local_calls, node_id);
        if !found {
            self.local_calls.push(node_id);
        }
    }

    /// The crates this function calls into, in the order of their first call.
    pub fn external_crates(&self) -> (r: Vec<u32>)
        ensures
            r@ == distinct_crates(unsafety_free(self@.external_calls)),
    {
        let pairs = self.call_pairs();
        crate::hidden::fn_info::crates_of_calls(&pairs)
    }

    fn call_pairs(&self) -> (r: Vec<(u32, String)>)
        ensures
            external_view(r@) == unsafety_free(self@.external_calls),
    {
        let mut r: Vec<(u32, String)> = Vec::new();
        let mut i: usize = 0;
        while i < self.external_calls.len()
            invariant
                i <= self.external_calls.len(),
                external_view(r@) == unsafety_free(calls_view(self.external_calls@)).take(i as int),
            decreases self.external_calls.len() - i,
        {
            let ghost before = r@;
            let ghost all = unsafety_free(calls_view(self.external_calls@));
            let s = self.external_calls[i].1.clone();
            r.push((self.external_calls[i].0, s));
            assert(all[i as int] == (self.external_calls@[i as int].0, self.external_calls@[i as int].1@));
            assert(external_view(r@) =~= external_view(before).push((self.external_calls@[i as int].0, s@)));
            assert(all.take(i + 1) =~= all.take(i as int).push(all[i as int]));
            i = i + 1;
        }
        assert(unsafety_free(calls_view(self.external_calls@)).take(self.external_calls.len() as int)
            =~= unsafety_free(calls_view(self.external_calls@)));
        r
    }

    /// The long description of this function, given its name and location,
    /// the names of the local functions it calls (in the order of its local
    /// calls) and the names of the crates it calls into (in the order of
    /// their first call): the local calls by name and decimal node id, the
    /// calls into other crates grouped by crate under the crate's name.
    pub fn build_long_fn_info(
        &self,
        name: String,
        location: String,
        local_call_names: &Vec<String>,
        crate_names: &Vec<String>,
    ) -> (r: LongFnInfo)
        requires
            local_call_names@.len() == self@.local_calls.len(),
            crate_names@.len() == distinct_crates(unsafety_free(self@.external_calls)).len(),
        ensures
            r.spec_name() == name@,
            r.spec_node_id() == decimal(self@.decl_id as nat),
            r.spec_location() == location@,
            r.spec_local_calls() == local_pairs(strings_view(local_call_names@), self@.local_calls),
            r.spec_external_calls() == named_groups(
                unsafety_free(self@.external_calls),
                strings_view(crate_names@),
            ),
    {
        let node_id = u32_to_decimal(self.decl_id);
        let mut local_calls: Vec<(String, String)> = Vec::new();
        let mut i: usize = 0;
        while i < self.local_calls.len()
            invariant
                i <= self.local_calls.len(),
                local_call_names@.len() == self.local_calls@.len(),
                pairs_view(local_calls@) == local_pairs(strings_view(local_call_names@), self.local_calls@).take(i as int),
            decreases self.local_calls.len() - i,
        {
            let id = u32_to_decimal(self.local_calls[i]);
            let nm = local_call_names[i].clone();
            let ghost before = local_calls@;
            let ghost lp = local_pairs(strings_view(local_call_names@), self.local_calls@);
            local_calls.push((nm, id));
            assert(lp[i as int] == (local_call_names@[i as int]@, decimal(self.local_calls@[i as int] as nat)));
            assert(pairs_view(local_calls@) =~= pairs_view(before).push((nm@, id@)));
            assert(lp.take(i + 1) =~= lp.take(i as int).push(lp[i as int]));
            i = i + 1;
        }
        assert(local_pairs(strings_view(local_call_names@), self.local_calls@).take(self.local_calls.len() as int)
            =~= local_pairs(strings_view(local_call_names@), self.local_calls@));
        let pairs = self.call_pairs();
        let groups = group_by_crate(&pairs);
        let ghost calls = unsafety_free(self@.external_calls);
        let mut external_calls: Vec<(String, Vec<String>)> = Vec::new();
        let mut j: usize = 0;
        assert(groups@.len() == crate::hidden::fn_info::groups_view(groups@).len());
        while j < groups.len()
            invariant
                j <= groups.len(),
                groups@.len() == distinct_crates(calls).len(),
                crate_names@.len() == distinct_crates(calls).len(),
                crate::hidden::fn_info::groups_view(groups@) == crate::hidden::fn_info::grouped_calls(calls),
                groups_view(external_calls@) == named_groups(calls, strings_view(crate_names@)).take(j as int),
            decreases groups.len() - j,
        {
            let ghost g = crate::hidden::fn_info::grouped_calls(calls);
            assert(g[j as int] == crate::hidden::fn_info::groups_view(groups@)[j as int]);
            let names = groups[j].1.clone();
            assert(names@ =~= groups@[j as int].1@);
            let cn = crate_names[j].clone();
            let ghost before = external_calls@;
            let ghost ng = named_groups(calls, strings_view(crate_names@));
            external_calls.push((cn, names));
            assert(ng[j as int] == (crate_names@[j as int]@, calls_of(calls, distinct_crates(calls)[j as int])));
            assert(groups_view(external_calls@) =~= groups_view(before).push((cn@, names@.map_values(|s: String| s@))));
            assert(names@.map_values(|s: String| s@) =~= strings_view(groups@[j as int].1@));
            assert(ng.take(j + 1) =~= ng.take(j as int).push(ng[j as int]));
            j = j + 1;
        }
        assert(named_groups(calls, strings_view(crate_names@)).take(groups.len() as int)
            =~= named_groups(calls, strings_view(crate_names@)));
        LongFnInfo::new(name, node_id, location, local_calls, external_calls)
    }

    /// The short description of this function, given its name and location.
    pub fn build_short_fn_info(&self, name: String, location: String) -> (r: ShortFnInfo)
        ensures
            r.spec_name() == name@,
            r.spec_node_id() == decimal(self@.decl_id as nat),
            r.spec_location() == location@,
    {
        let node_id = u32_to_decimal(self.decl_id);
        ShortFnInfo::new(name, node_id, location)
    }
}

impl CallGraphNode for FnInfo {
    open spec fn spec_decl_id(&self) -> u32 {
        self@.decl_id
    }

    open spec fn spec_local_calls(&self) -> Seq<u32> {
        self@.local_calls
    }

    fn node_id(&self) -> (r: u32) {
        self.decl_id()
    }

    fn node_calls(&self) -> (r: &Vec<u32>) {
        self.local_calls()
    }
}

} // verus!
