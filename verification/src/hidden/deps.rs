//! The dependencies of the crate under analysis, and how the unsafety
//! results recorded for a dependency are matched to the calls into it.
use vstd::prelude::*;
use crate::hidden::fn_info::FnInfo;
use crate::hidden::unsafe_blocks::UnsafeInBody;
use crate::text::{ends_with, is_suffix};
use crate::hidden::unrecorded::names_view;

verus! {

/// A crate by name and version.
#[derive(Clone)]
pub struct CrateInfo {
    name: String,
    version: String,
}

impl CrateInfo {
    pub closed spec fn spec_name(&self) -> Seq<char> {
        self.name@
    }

    pub closed spec fn spec_version(&self) -> Seq<char> {
        self.version@
    }

    pub fn new(name: String, version: String) -> (r: Self)
        ensures
            r.spec_name() == name@,
            r.spec_version() == version@,
    {
        CrateInfo { name, version }
    }

    pub fn name(&self) -> (r: &String)
        ensures
            r@ == self.spec_name(),
    {
        &self.name
    }

    pub fn version(&self) -> (r: &String)
        ensures
            r@ == self.spec_version(),
    {
        &self.version
    }
}

/// The paths of the calls of the functions of `data` into crate `krate`, in
/// order.
pub open spec fn calls_into_crate(data: Seq<FnInfo>, krate: u32) -> Seq<Seq<char>>
    decreases data.len(),
{
    if data.len() == 0 {
        Seq::empty()
    } else {
        calls_into_crate(data.drop_last(), krate) + calls_of(data.last()@.external_calls, krate)
    }
}

/// The paths of the calls of one list into crate `krate`, in order.
pub open spec fn calls_of(calls: Seq<(u32, Seq<char>)>, krate: u32) -> Seq<Seq<char>>
    decreases calls.len(),
{
    if calls.len() == 0 {
        Seq::empty()
    } else if calls.last().0 == krate {
        calls_of(calls.drop_last(), krate).push(calls.last().1)
    } else {
        calls_of(calls.drop_last(), krate)
    }
}

/// The character content of a list of texts.
pub open spec fn strings_view(v: Seq<String>) -> Seq<Seq<char>> {
    v.map_values(|s: String| s@)
}

/// The calls of the functions of `data` into crate `krate`.
pub fn external_calls_to(data: &Vec<FnInfo>, krate: u32) -> (r: Vec<String>)
    ensures
        strings_view(r@) == calls_into_crate(data@, krate),
{
    let mut r: Vec<String> = Vec::new();
    let mut i: usize = 0;
    while i < data.len()
        invariant
            i <= data.len(),
            strings_view(r@) == calls_into_crate(data@.take(i as int), krate),
        decreases data.len() - i,
    {
        assert(data@.take(i + 1).drop_last() =~= data@.take(i as int));
        let calls = data[i].external_calls();
        let ghost ev = data@[i as int]@.external_calls;
        let ghost base = strings_view(r@);
        let mut j: usize = 0;
        assert(ev.take(0) =~= Seq::<(u32, Seq<char>)>::empty());
        assert(base + calls_of(ev.take(0), krate) =~= base);
        while j < calls.len()
            invariant
                j <= calls.len(),
                crate::hidden::fn_info::external_view(calls@) == ev,
                strings_view(r@) == base + calls_of(ev.take(j as int), krate),
            decreases calls.len() - j,
        {
            assert(ev.take(j + 1).drop_last() =~= ev.take(j as int));
            assert(ev[j as int] == (calls@[j as int].0, calls@[j as int].1@));
            if calls[j].0 == krate {
                let ghost before = r@;
                r.push(calls[j].1.clone());
                assert(strings_view(r@) =~= strings_view(before).push(calls@[j as int].1@));
            }
            j = j + 1;
        }
        assert(ev.take(calls.len() as int) =~= ev);
        i = i + 1;
    }
    assert(data@.take(data.len() as int) =~= data@);
    r
}

/// The first of `calls` whose path ends with `name`.
pub open spec fn first_suffix_match(calls: Seq<Seq<char>>, name: Seq<char>) -> Option<Seq<char>>
    decreases calls.len(),
{
    if calls.len() == 0 {
        None
    } else if is_suffix(name, calls[0]) {
        Some(calls[0])
    } else {
        first_suffix_match(calls.skip(1), name)
    }
}

/// For each recorded result, in order, that matches a call: the call's path
/// and the recorded flag.
pub open spec fn matched_results(calls: Seq<Seq<char>>, records: Seq<UnsafeInBody>) -> Seq<(Seq<char>, bool)>
    decreases records.len(),
{
    if records.len() == 0 {
        Seq::empty()
    } else {
        let prev = matched_results(calls, records.drop_last());
        match first_suffix_match(calls, records.last().fn_info@) {
            Some(c) => prev.push((c, records.last().has_unsafe)),
            None => prev,
        }
    }
}

/// The character content of a list of results.
pub open spec fn results_view(v: Seq<UnsafeInBody>) -> Seq<(Seq<char>, bool)> {
    v.map_values(|u: UnsafeInBody| (u.fn_info@, u.has_unsafe))
}

proof fn lemma_first_suffix_match(calls: Seq<Seq<char>>, name: Seq<char>)
    ensures
        first_suffix_match(calls, name) matches Some(c) ==> calls.contains(c) && is_suffix(name, c),
    decreases calls.len(),
{
    if calls.len() > 0 && !is_suffix(name, calls[0]) {
        lemma_first_suffix_match(calls.skip(1), name);
        match first_suffix_match(calls, name) {
            Some(c) => {
                let j = choose|j: int| 0 <= j < calls.skip(1).len() && calls.skip(1)[j] == c;
                assert(calls[j + 1] == c);
            },
            None => {},
        }
    } else if calls.len() > 0 {
        assert(calls[0] == calls[0]);
    }
}

/// Each result matched to the calls into a dependency is kept under one of
/// those calls, whose path ends with the path of a recorded function, and
/// keeps that record's flag; there are no more matched results than
/// records.
pub proof fn matched_results_name_calls(calls: Seq<Seq<char>>, records: Seq<UnsafeInBody>)
    ensures
        matched_results(calls, records).len() <= records.len(),
        forall|k: int|
            0 <= k < matched_results(calls, records).len() ==> {
                let m = #[trigger] matched_results(calls, records)[k];
                &&& calls.contains(m.0)
                &&& exists|j: int|
                    0 <= j < records.len() && is_suffix(#[trigger] records[j].fn_info@, m.0)
                        && m.1 == records[j].has_unsafe
            },
    decreases records.len(),
{
    if records.len() > 0 {
        let prev = records.drop_last();
        matched_results_name_calls(calls, prev);
        lemma_first_suffix_match(calls, records.last().fn_info@);
        let m = matched_results(calls, records);
        let mp = matched_results(calls, prev);
        assert forall|k: int| 0 <= k < m.len() implies {
            let e = #[trigger] m[k];
            &&& calls.contains(e.0)
            &&& exists|j: int|
                0 <= j < records.len() && is_suffix(#[trigger] records[j].fn_info@, e.0) && e.1
                    == records[j].has_unsafe
        } by {
            if k < mp.len() {
                assert(m[k] == mp[k]);
                let j = choose|j: int|
                    0 <= j < prev.len() && is_suffix(#[trigger] prev[j].fn_info@, mp[k].0) && mp[k].1
                        == prev[j].has_unsafe;
                assert(records[j] == prev[j]);
            } else {
                let last = records.len() - 1;
                assert(records[last] == records.last());
            }
        }
    }
}

fn first_suffix(calls: &Vec<String>, name: &String) -> (r: Option<usize>)
    ensures
        match r {
            Some(k) => k < calls@.len() && first_suffix_match(strings_view(calls@), name@) == Some(
                calls@[k as int]@,
            ),
            None => first_suffix_match(strings_view(calls@), name@) is None,
        },
{
    let ghost all = strings_view(calls@);
    let mut k: usize = 0;
    assert(all.skip(0) =~= all);
    while k < calls.len()
        invariant
            k <= calls.len(),
            all == strings_view(calls@),
            first_suffix_match(all, name@) == first_suffix_match(all.skip(k as int), name@),
        decreases calls.len() - k,
    {
        assert(all.skip(k as int)[0] == calls@[k as int]@);
        if ends_with(calls[k].as_str(), name.as_str()) {
            return Some(k);
        }
        assert(all.skip(k as int).skip(1) =~= all.skip(k + 1));
        k = k + 1;
    }
    None
}

/// Matches the results recorded for a dependency with the calls into it: a
/// result is kept, under the path of the first call whose path ends with the
/// recorded one, when there is such a call.
pub fn match_external_results(calls: &Vec<String>, records: &Vec<UnsafeInBody>) -> (r: Vec<UnsafeInBody>)
    ensures
        results_view(r@) == matched_results(strings_view(calls@), records@),
{
    let mut r: Vec<UnsafeInBody> = Vec::new();
    let mut i: usize = 0;
    while i < records.len()
        invariant
            i <= records.len(),
            results_view(r@) == matched_results(strings_view(calls@), records@.take(i as int)),
        decreases records.len() - i,
    {
        assert(records@.take(i + 1).drop_last() =~= records@.take(i as int));
        assert(records@.take(i + 1).last() == records@[i as int]);
        match first_suffix(calls, &records[i].fn_info) {
            Some(k) => {
                let ghost before = r@;
                r.push(UnsafeInBody { fn_info: calls[k].clone(), has_unsafe: records[i].has_unsafe });
                assert(results_view(r@) =~= results_view(before).push(
                    (calls@[k as int]@, records@[i as int].has_unsafe),
                ));
            },
            None => {},
        }
        i = i + 1;
    }
    assert(records@.take(records.len() as int) =~= records@);
    r
}

/// The number of the first crate of `crates` named `name`, if any.
pub open spec fn first_crate_named(crates: Seq<(u32, Seq<char>)>, name: Seq<char>) -> Option<u32>
    decreases crates.len(),
{
    if crates.len() == 0 {
        None
    } else if crates[0].1 == name {
        Some(crates[0].0)
    } else {
        first_crate_named(crates.skip(1), name)
    }
}

/// The number of the first crate of the build (given by number and name)
/// named `name`, if any.
pub fn find_crate_num(crates: &Vec<(u32, String)>, name: &String) -> (r: Option<u32>)
    ensures
        r == first_crate_named(names_view(crates@), name@),
{
    let ghost all = names_view(crates@);
    let mut i: usize = 0;
    assert(all.skip(0) =~= all);
    while i < crates.len()
        invariant
            i <= crates.len(),
            all == names_view(crates@),
            first_crate_named(all, name@) == first_crate_named(all.skip(i as int), name@),
        decreases crates.len() - i,
    {
        assert(all.skip(i as int)[0] == (crates@[i as int].0, crates@[i as int].1@));
        if crates[i].1 == *name {
            return Some(crates[i].0);
        }
        assert(all.skip(i as int).skip(1) =~= all.skip(i + 1));
        i = i + 1;
    }
    None
}

/// The results of one dependency: none when no crate of the build
/// (`crates`, by number and name) has its name; otherwise the number of the
/// first such crate and the recorded results matched to the calls of `data`
/// into it.
pub fn load_analysis(
    crates: &Vec<(u32, String)>,
    crate_info: &CrateInfo,
    data: &Vec<FnInfo>,
    records: &Vec<UnsafeInBody>,
) -> (r: Option<(u32, Vec<UnsafeInBody>)>)
    ensures
        match first_crate_named(names_view(crates@), crate_info.spec_name()) {
            None => r is None,
            Some(k) => r matches Some(p) && p.0 == k && results_view(p.1@) == matched_results(
                calls_into_crate(data@, k),
                records@,
            ),
        },
{
    let num = find_crate_num(crates, crate_info.name());
    load_for_crate(num, data, records)
}

/// The results of one dependency: when the dependency was found among the
/// crates of the build (as crate `crate_num`), its number and the recorded
/// results matched to the calls of `data` into it.
fn load_for_crate(crate_num: Option<u32>, data: &Vec<FnInfo>, records: &Vec<UnsafeInBody>) -> (r: Option<(u32, Vec<UnsafeInBody>)>)
    ensures
        match crate_num {
            None => r is None,
            Some(k) => r matches Some(p) && p.0 == k && results_view(p.1@) == matched_results(
                calls_into_crate(data@, k),
                records@,
            ),
        },
{
    match crate_num {
        None => None,
        Some(k) => {
            let calls = external_calls_to(data, k);
            Some((k, match_external_results(&calls, records)))
        },
    }
}

/// The results found for the dependencies that are among the crates of the
/// build, in order.
pub open spec fn found_results(v: Seq<Option<(u32, Seq<(Seq<char>, bool)>)>>) -> Seq<(u32, Seq<(Seq<char>, bool)>)>
    decreases v.len(),
{
    if v.len() == 0 {
        Seq::empty()
    } else {
        match v.last() {
            Some(x) => found_results(v.drop_last()).push(x),
            None => found_results(v.drop_last()),
        }
    }
}

/// The content of a loaded result.
pub open spec fn result_entry(p: (u32, Vec<UnsafeInBody>)) -> (u32, Seq<(Seq<char>, bool)>) {
    (p.0, results_view(p.1@))
}

/// The crate numbers of the dependencies, looked up by name among the
/// crates of the build.
fn crate_numbers(crates: &Vec<(u32, String)>, external_crates: &Vec<CrateInfo>) -> (r: Vec<Option<u32>>)
    ensures
        r@.len() == external_crates@.len(),
        forall|i: int|
            0 <= i < r@.len() ==> #[trigger] r@[i] == first_crate_named(
                names_view(crates@),
                external_crates@[i].spec_name(),
            ),
{
    let mut r: Vec<Option<u32>> = Vec::new();
    let mut i: usize = 0;
    while i < external_crates.len()
        invariant
            i <= external_crates.len(),
            r@.len() == i,
            forall|k: int|
                0 <= k < i ==> #[trigger] r@[k] == first_crate_named(
                    names_view(crates@),
                    external_crates@[k].spec_name(),
                ),
        decreases external_crates.len() - i,
    {
        r.push(find_crate_num(crates, external_crates[i].name()));
        i = i + 1;
    }
    r
}

/// The results of all the dependencies (`external_crates`, with the
/// results recorded for each in `records`): for each dependency named by
/// some crate of the build (`crates`, by number and name), the number of
/// the first such crate and the results recorded for it, matched to the
/// calls of `data` into it; dependencies not found are left out.
pub fn load_all_analyses(
    crates: &Vec<(u32, String)>,
    external_crates: &Vec<CrateInfo>,
    data: &Vec<FnInfo>,
    records: &Vec<Vec<UnsafeInBody>>,
) -> (r: Vec<(u32, Vec<UnsafeInBody>)>)
    requires
        records@.len() == external_crates@.len(),
    ensures
        r@.map_values(|p: (u32, Vec<UnsafeInBody>)| result_entry(p)) == found_results(
            Seq::new(
                external_crates@.len(),
                |i: int|
                    match first_crate_named(names_view(crates@), external_crates@[i].spec_name()) {
                        Some(k) => Some((k, matched_results(calls_into_crate(data@, k), records@[i]@))),
                        None => None,
                    },
            ),
        ),
{
    let crate_nums = crate_numbers(crates, external_crates);
    let ghost wanted = Seq::new(
        external_crates@.len(),
        |i: int|
            match first_crate_named(names_view(crates@), external_crates@[i].spec_name()) {
                Some(k) => Some((k, matched_results(calls_into_crate(data@, k), records@[i]@))),
                None => None,
            },
    );
    let ghost expected = Seq::new(
        crate_nums@.len(),
        |i: int|
            match crate_nums@[i] {
                Some(k) => Some((k, matched_results(calls_into_crate(data@, k), records@[i]@))),
                None => None,
            },
    );
    let mut r: Vec<(u32, Vec<UnsafeInBody>)> = Vec::new();
    let mut i: usize = 0;
    while i < crate_nums.len()
        invariant
            i <= crate_nums.len(),
            records@.len() == crate_nums@.len(),
            expected.len() == crate_nums@.len(),
            forall|k: int| 0 <= k < expected.len() ==> #[trigger] expected[k] == match crate_nums@[k] {
                Some(n) => Some((n, matched_results(calls_into_crate(data@, n), records@[k]@))),
                None => None,
            },
            r@.map_values(|p: (u32, Vec<UnsafeInBody>)| result_entry(p)) == found_results(expected.take(i as int)),
        decreases crate_nums.len() - i,
    {
        assert(expected.take(i + 1).drop_last() =~= expected.take(i as int));
        assert(expected.take(i + 1).last() == expected[i as int]);
        let loaded = load_for_crate(crate_nums[i], data, &records[i]);
        match loaded {
            Some(p) => {
                let ghost before = r@;
                assert(crate_nums@[i as int] is Some);
                assert(expected[i as int] == Some(result_entry(p)));
                r.push(p);
                assert(r@.map_values(|p: (u32, Vec<UnsafeInBody>)| result_entry(p)) =~= before.map_values(|p: (u32, Vec<UnsafeInBody>)| result_entry(p)).push(result_entry(p)));
            },
            None => {
                assert(crate_nums@[i as int] is None);
                assert(expected[i as int] is None);
            },
        }
        i = i + 1;
    }
    assert(expected.take(crate_nums.len() as int) =~= expected);
    assert forall|k: int| 0 <= k < expected.len() implies expected[k] == wanted[k] by {
        assert(crate_nums@[k] == first_crate_named(
            names_view(crates@),
            external_crates@[k].spec_name(),
        ));
    }
    assert(expected =~= wanted);
    r
}

} // verus!
