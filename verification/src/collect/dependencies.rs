//! How the unsafe code a crate runs splits between the crate itself and its
//! dependencies.
use vstd::prelude::*;
use crate::results::blocks::BlockSummary;
use crate::results::functions::Summary;

verus! {

/// The counts of one entry of a crate's directory of results: the name of
/// the crate the entry is for (the crate itself or a dependency), its block
/// counts and its function counts.
pub type DependencyEntry = (String, BlockSummary, Summary);

/// A crate's own counts and the counts of all its dependencies together.
pub struct CrateUnsafety {
    pub current_blocks: BlockSummary,
    pub dependencies_blocks: BlockSummary,
    pub current_fns: Summary,
    pub dependencies_fns: Summary,
}

/// Whether a crate is counted, and how its unsafe code splits.
#[derive(Clone, Copy, PartialEq, Eq, Structural, Debug)]
pub struct CrateClass {
    /// The crate or its dependencies hold some unsafe code.
    pub counted: bool,
    /// Only the dependencies hold unsafe code.
    pub from_dependency_only: bool,
    /// Both the crate and its dependencies hold unsafe code.
    pub both: bool,
}

/// The counts of the last entry for the crate itself (zero when none).
pub open spec fn own_entry(name: Seq<char>, e: Seq<DependencyEntry>) -> (BlockSummary, (usize, usize))
    decreases e.len(),
{
    if e.len() == 0 {
        (BlockSummary { user_unsafe_blocks: 0, unsafe_blocks: 0, total: 0 }, (0, 0))
    } else if e.last().0@ == name {
        (e.last().1, (e.last().2.spec_unsafe_no(), e.last().2.spec_total()))
    } else {
        own_entry(name, e.drop_last())
    }
}

/// The sums, over the entries of the dependencies, of the user unsafe
/// blocks, unsafe blocks, blocks, unsafe functions and functions.
pub open spec fn dependency_sums(name: Seq<char>, e: Seq<DependencyEntry>) -> (int, int, int, int, int)
    decreases e.len(),
{
    if e.len() == 0 {
        (0, 0, 0, 0, 0)
    } else {
        let s = dependency_sums(name, e.drop_last());
        let x = e.last();
        if x.0@ == name {
            s
        } else {
            (
                s.0 + x.1.user_unsafe_blocks,
                s.1 + x.1.unsafe_blocks,
                s.2 + x.1.total,
                s.3 + x.2.spec_unsafe_no(),
                s.4 + x.2.spec_total(),
            )
        }
    }
}

/// All the dependency sums fit in a machine word, for every prefix.
pub open spec fn sums_fit(name: Seq<char>, e: Seq<DependencyEntry>) -> bool {
    forall|i: int|
        0 <= i <= e.len() ==> {
            let s = #[trigger] dependency_sums(name, e.take(i));
            s.0 <= usize::MAX && s.1 <= usize::MAX && s.2 <= usize::MAX && s.3 <= usize::MAX && s.4
                <= usize::MAX
        }
}

/// Splits the entries of a crate's results into its own counts (those of
/// the last entry named after the crate) and the sums of the counts of its
/// dependencies.
pub fn combine_dependencies(crate_name: &String, entries: &Vec<DependencyEntry>) -> (r: CrateUnsafety)
    requires
        sums_fit(crate_name@, entries@),
    ensures
        r.current_blocks == own_entry(crate_name@, entries@).0,
        r.current_fns.spec_unsafe_no() == own_entry(crate_name@, entries@).1.0,
        r.current_fns.spec_total() == own_entry(crate_name@, entries@).1.1,
        r.dependencies_blocks.user_unsafe_blocks == dependency_sums(crate_name@, entries@).0,
        r.dependencies_blocks.unsafe_blocks == dependency_sums(crate_name@, entries@).1,
        r.dependencies_blocks.total == dependency_sums(crate_name@, entries@).2,
        r.dependencies_fns.spec_unsafe_no() == dependency_sums(crate_name@, entries@).3,
        r.dependencies_fns.spec_total() == dependency_sums(crate_name@, entries@).4,
{
    let mut current_blocks = BlockSummary::new(0, 0, 0);
    let mut dependencies_blocks = BlockSummary::new(0, 0, 0);
    let mut cur_unsafe: usize = 0;
    let mut cur_total: usize = 0;
    let mut dep_unsafe: usize = 0;
    let mut dep_total: usize = 0;
    let mut i: usize = 0;
    while i < entries.len()
        invariant
            i <= entries.len(),
            sums_fit(crate_name@, entries@),
            current_blocks == own_entry(crate_name@, entries@.take(i as int)).0,
            (cur_unsafe, cur_total) == own_entry(crate_name@, entries@.take(i as int)).1,
            ({
                let s = dependency_sums(crate_name@, entries@.take(i as int));
                &&& dependencies_blocks.user_unsafe_blocks == s.0
                &&& dependencies_blocks.unsafe_blocks == s.1
                &&& dependencies_blocks.total == s.2
                &&& dep_unsafe == s.3
                &&& dep_total == s.4
            }),
        decreases entries.len() - i,
    {
        assert(entries@.take(i + 1).drop_last() =~= entries@.take(i as int));
        assert(entries@.take(i + 1).last() == entries@[i as int]);
        let ghost next = dependency_sums(crate_name@, entries@.take(i + 1));
        assert(next.0 <= usize::MAX && next.1 <= usize::MAX && next.2 <= usize::MAX && next.3
            <= usize::MAX && next.4 <= usize::MAX);
        let entry = &entries[i];
        if entry.0 == *crate_name {
            current_blocks = entry.1;
            cur_unsafe = entry.2.unsafe_no();
            cur_total = entry.2.total();
        } else {
            dependencies_blocks.user_unsafe_blocks = dependencies_blocks.user_unsafe_blocks
                + entry.1.user_unsafe_blocks;
            dependencies_blocks.unsafe_blocks = dependencies_blocks.unsafe_blocks
                + entry.1.unsafe_blocks;
            dependencies_blocks.total = dependencies_blocks.total + entry.1.total;
            dep_unsafe = dep_unsafe + entry.2.unsafe_no();
            dep_total = dep_total + entry.2.total();
        }
        i = i + 1;
    }
    assert(entries@.take(entries.len() as int) =~= entries@);
    CrateUnsafety {
        current_blocks,
        dependencies_blocks,
        current_fns: Summary::new(cur_unsafe, cur_total),
        dependencies_fns: Summary::new(dep_unsafe, dep_total),
    }
}

/// The class of a crate from its own counts and those of its dependencies.
pub open spec fn class_of(u: CrateUnsafety) -> CrateClass {
    let own = u.current_blocks.user_unsafe_blocks > 0 || u.current_fns.spec_unsafe_no() > 0;
    let deps = u.dependencies_blocks.user_unsafe_blocks > 0 || u.dependencies_fns.spec_unsafe_no() > 0;
    let counted = u.current_blocks.user_unsafe_blocks != 0 || u.current_fns.spec_unsafe_no() != 0
        || u.dependencies_blocks.user_unsafe_blocks != 0 || u.dependencies_fns.spec_total() != 0;
    CrateClass { counted, from_dependency_only: counted && !own && deps, both: counted && own && deps }
}

impl CrateUnsafety {
    /// Whether the crate is counted: it has user-written unsafe blocks or
    /// unsafe functions, or its dependencies have user-written unsafe blocks
    /// or any function; and, for a counted crate, whether only its
    /// dependencies, or both it and its dependencies, hold unsafe code.
    pub fn classify(&self) -> (r: CrateClass)
        ensures
            r == class_of(*self),
    {
        let own = self.current_blocks.user_unsafe_blocks > 0 || self.current_fns.unsafe_no() > 0;
        let deps = self.dependencies_blocks.user_unsafe_blocks > 0
            || self.dependencies_fns.unsafe_no() > 0;
        let counted = self.current_blocks.user_unsafe_blocks != 0 || self.current_fns.unsafe_no()
            != 0 || self.dependencies_blocks.user_unsafe_blocks != 0
            || self.dependencies_fns.total() != 0;
        CrateClass {
            counted,
            from_dependency_only: counted && !own && deps,
            both: counted && own && deps,
        }
    }
}

/// Where a crate's unsafe code is, and how the crate is classed: it is
/// counted when it or its dependencies hold a user-written unsafe block or
/// an unsafe function, or its dependencies hold any function; the dependency
/// side holds unsafe code when the dependencies have a user-written unsafe
/// block or an unsafe function, and likewise the crate's own side; a counted
/// crate is unsafe only through dependencies when its own side holds none
/// and the dependency side holds some (a dependency side with unsafe
/// functions but no function counted at all leaves the crate uncounted), and unsafe on both sides when both
/// hold some.
pub proof fn classes_follow_where_unsafe_code_is(u: CrateUnsafety)
    ensures
        ({
            let own_unsafe = u.current_blocks.user_unsafe_blocks > 0 || u.current_fns.spec_unsafe_no() > 0;
            let deps_unsafe = u.dependencies_blocks.user_unsafe_blocks > 0
                || u.dependencies_fns.spec_unsafe_no() > 0;
            &&& class_of(u).counted <==> (own_unsafe || u.dependencies_blocks.user_unsafe_blocks > 0
                || u.dependencies_fns.spec_total() > 0)
            &&& class_of(u).from_dependency_only <==> (class_of(u).counted && !own_unsafe
                && deps_unsafe)
            &&& class_of(u).both <==> (own_unsafe && deps_unsafe)
        }),
{
}

/// No crate is at once one whose unsafe code comes only from dependencies
/// and one whose unsafe code comes from both sides; each of the two is a
/// counted crate.
pub proof fn dependency_classes_exclusive(u: CrateUnsafety)
    ensures
        !(class_of(u).from_dependency_only && class_of(u).both),
        class_of(u).from_dependency_only ==> class_of(u).counted,
        class_of(u).both ==> class_of(u).counted,
{
}

/// Number of classes with each flag: (only from dependencies, both, counted).
pub open spec fn class_counts(v: Seq<CrateClass>) -> (nat, nat, nat)
    decreases v.len(),
{
    if v.len() == 0 {
        (0, 0, 0)
    } else {
        let c = class_counts(v.drop_last());
        let x = v.last();
        (
            c.0 + if x.from_dependency_only {
                1nat
            } else {
                0nat
            },
            c.1 + if x.both {
                1nat
            } else {
                0nat
            },
            c.2 + if x.counted {
                1nat
            } else {
                0nat
            },
        )
    }
}

proof fn lemma_class_counts_bound(v: Seq<CrateClass>)
    ensures
        class_counts(v).0 <= v.len(),
        class_counts(v).1 <= v.len(),
        class_counts(v).2 <= v.len(),
    decreases v.len(),
{
    if v.len() > 0 {
        lemma_class_counts_bound(v.drop_last());
    }
}

/// Over many crates: how many hold unsafe code only through dependencies,
/// how many both in themselves and through dependencies, and how many are
/// counted at all.
pub fn tally_classes(classes: &Vec<CrateClass>) -> (r: (usize, usize, usize))
    ensures
        r.0 == class_counts(classes@).0,
        r.1 == class_counts(classes@).1,
        r.2 == class_counts(classes@).2,
{
    let mut from_dependency_only: usize = 0;
    let mut both: usize = 0;
    let mut total: usize = 0;
    let mut i: usize = 0;
    while i < classes.len()
        invariant
            i <= classes.len(),
            (from_dependency_only as nat, both as nat, total as nat) == class_counts(
                classes@.take(i as int),
            ),
        decreases classes.len() - i,
    {
        assert(classes@.take(i + 1).drop_last() =~= classes@.take(i as int));
        proof {
            lemma_class_counts_bound(classes@.take(i + 1));
        }
        if classes[i].from_dependency_only {
            from_dependency_only = from_dependency_only + 1;
        }
        if classes[i].both {
            both = both + 1;
        }
        if classes[i].counted {
            total = total + 1;
        }
        i = i + 1;
    }
    assert(classes@.take(classes.len() as int) =~= classes@);
    (from_dependency_only, both, total)
}

/// Over the classes of many crates, the crates with unsafe code only in
/// dependencies and those with it on both sides are disjoint parts of the
/// counted crates.
pub proof fn tally_partition(us: Seq<CrateUnsafety>)
    ensures
        class_counts(us.map_values(|u: CrateUnsafety| class_of(u))).0 + class_counts(
            us.map_values(|u: CrateUnsafety| class_of(u)),
        ).1 <= class_counts(us.map_values(|u: CrateUnsafety| class_of(u))).2,
    decreases us.len(),
{
    if us.len() > 0 {
        let v = us.map_values(|u: CrateUnsafety| class_of(u));
        assert(v.drop_last() =~= us.drop_last().map_values(|u: CrateUnsafety| class_of(u)));
        tally_partition(us.drop_last());
        dependency_classes_exclusive(us.last());
    }
}

/// Number of entries of a crate's results directory that are for other
/// crates.
pub open spec fn other_count(name: Seq<char>, names: Seq<Seq<char>>) -> nat
    decreases names.len(),
{
    if names.len() == 0 {
        0
    } else {
        other_count(name, names.drop_last()) + if names.last() != name {
            1nat
        } else {
            0nat
        }
    }
}

/// How many dependencies a crate's results directory holds: the entries not
/// named after the crate.
pub fn count_dependencies(crate_name: &String, entry_names: &Vec<String>) -> (r: usize)
    ensures
        r == other_count(crate_name@, entry_names@.map_values(|s: String| s@)),
{
    let ghost all = entry_names@.map_values(|s: String| s@);
    let mut n: usize = 0;
    let mut i: usize = 0;
    while i < entry_names.len()
        invariant
            i <= entry_names.len(),
            all == entry_names@.map_values(|s: String| s@),
            n == other_count(crate_name@, all.take(i as int)),
            n <= i,
        decreases entry_names.len() - i,
    {
        assert(all.take(i + 1).drop_last() =~= all.take(i as int));
        assert(all.take(i + 1).last() == entry_names@[i as int]@);
        if entry_names[i] != *crate_name {
            n = n + 1;
        }
        i = i + 1;
    }
    assert(all.take(entry_names.len() as int) =~= all);
    n
}

/// Sum of counts.
pub open spec fn sum_counts(v: Seq<usize>) -> int
    decreases v.len(),
{
    if v.len() == 0 {
        0
    } else {
        sum_counts(v.drop_last()) + v.last()
    }
}

proof fn lemma_sum_counts_monotone(v: Seq<usize>, i: int)
    requires
        0 <= i <= v.len(),
    ensures
        0 <= sum_counts(v.take(i)) <= sum_counts(v),
    decreases v.len(),
{
    if i < v.len() {
        assert(v.take(i) =~= v.drop_last().take(i));
        lemma_sum_counts_monotone(v.drop_last(), i);
    } else {
        assert(v.take(i) =~= v);
        if v.len() > 0 {
            lemma_sum_counts_monotone(v.drop_last(), v.len() - 1);
            assert(v.drop_last().take(v.len() - 1) =~= v.drop_last());
        }
    }
}

/// The average number of dependencies per crate, rounded down.
pub fn dependencies_per_crate(dependency_counts: &Vec<usize>) -> (r: usize)
    requires
        dependency_counts@.len() > 0,
        sum_counts(dependency_counts@) <= usize::MAX,
    ensures
        r == sum_counts(dependency_counts@) / (dependency_counts@.len() as int),
{
    let mut sum: usize = 0;
    let mut i: usize = 0;
    while i < dependency_counts.len()
        invariant
            i <= dependency_counts.len(),
            sum_counts(dependency_counts@) <= usize::MAX,
            sum == sum_counts(dependency_counts@.take(i as int)),
        decreases dependency_counts.len() - i,
    {
        assert(dependency_counts@.take(i + 1).drop_last() =~= dependency_counts@.take(i as int));
        proof {
            lemma_sum_counts_monotone(dependency_counts@, i + 1);
        }
        sum = sum + dependency_counts[i];
        i = i + 1;
    }
    assert(dependency_counts@.take(dependency_counts.len() as int) =~= dependency_counts@);
    sum / dependency_counts.len()
}

} // verus!
