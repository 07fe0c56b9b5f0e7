//! Counts and sums over the recorded results of crates and of their
//! dependencies.
use vstd::prelude::*;
use crate::results::blocks::BlockSummary;
use crate::results::functions::Summary;
use crate::results::implicit::{FnType, UnsafeInBody};

verus! {

/// Number of lines that are not empty.
pub open spec fn nonempty_count(lines: Seq<Seq<char>>) -> nat
    decreases lines.len(),
{
    if lines.len() == 0 {
        0
    } else {
        nonempty_count(lines.drop_last()) + if lines.last().len() > 0 {
            1nat
        } else {
            0nat
        }
    }
}

/// The character content of a list of lines.
pub open spec fn lines_view(v: Seq<String>) -> Seq<Seq<char>> {
    v.map_values(|s: String| s@)
}

/// How many of the lines read from a result file hold a record: those that
/// are not empty.
pub fn count_records(lines: &Vec<String>) -> (r: usize)
    ensures
        r == nonempty_count(lines_view(lines@)),
{
    let mut count: usize = 0;
    let mut i: usize = 0;
    while i < lines.len()
        invariant
            i <= lines.len(),
            count == nonempty_count(lines_view(lines@).take(i as int)),
            count <= i,
        decreases lines.len() - i,
    {
        let ghost v = lines_view(lines@);
        assert(v.take(i + 1).drop_last() =~= v.take(i as int));
        if lines[i].as_str().unicode_len() > 0 {
            count = count + 1;
        }
        i = i + 1;
    }
    assert(lines_view(lines@).take(lines.len() as int) =~= lines_view(lines@));
    count
}

/// Whether a function is counted as unsafe: declared unsafe, or safe but not
/// safe to call.
pub open spec fn counts_as_unsafe(t: FnType) -> bool {
    t is NormalNotSafe || t is Unsafe
}

/// Number of records of functions counted as unsafe.
pub open spec fn unsafe_count(v: Seq<UnsafeInBody>) -> nat
    decreases v.len(),
{
    if v.len() == 0 {
        0
    } else {
        unsafe_count(v.drop_last()) + if counts_as_unsafe(v.last().fn_type) {
            1nat
        } else {
            0nat
        }
    }
}

/// The functions counted as unsafe are those declared unsafe and the safe
/// ones that are not safe to call; safe and parametric functions are not
/// counted; and the count never exceeds the number of records, each record
/// counting at most once.
pub proof fn unsafe_count_counts_unsafe_kinds(v: Seq<UnsafeInBody>, x: UnsafeInBody)
    ensures
        unsafe_count(v.push(x)) == unsafe_count(v) + if x.fn_type == FnType::Unsafe
            || x.fn_type == FnType::NormalNotSafe {
            1int
        } else {
            0int
        },
        unsafe_count(v) <= v.len(),
    decreases v.len(),
{
    assert(v.push(x).drop_last() =~= v);
    if v.len() > 0 {
        unsafe_count_counts_unsafe_kinds(v.drop_last(), v.last());
    }
}

/// How many of the records are of functions counted as unsafe.
pub fn count_unsafe_functions(records: &Vec<UnsafeInBody>) -> (r: usize)
    ensures
        r == unsafe_count(records@),
{
    let mut total: usize = 0;
    let mut i: usize = 0;
    while i < records.len()
        invariant
            i <= records.len(),
            total == unsafe_count(records@.take(i as int)),
            total <= i,
        decreases records.len() - i,
    {
        assert(records@.take(i + 1).drop_last() =~= records@.take(i as int));
        match records[i].fn_type {
            FnType::NormalNotSafe | FnType::Unsafe => {
                total = total + 1;
            },
            _ => {},
        }
        i = i + 1;
    }
    assert(records@.take(records.len() as int) =~= records@);
    total
}

/// The unsafe-function counts of the summaries that cover at least one
/// function, in order.
pub open spec fn counted_unsafe(v: Seq<Summary>) -> Seq<usize>
    decreases v.len(),
{
    if v.len() == 0 {
        Seq::empty()
    } else if v.last().spec_total() == 0 {
        counted_unsafe(v.drop_last())
    } else {
        counted_unsafe(v.drop_last()).push(v.last().spec_unsafe_no())
    }
}

/// The counts of unsafe functions reported for a crate: one per summary,
/// leaving out the summaries that cover no function.
pub fn unsafe_function_counts(summaries: &Vec<Summary>) -> (r: Vec<usize>)
    ensures
        r@ == counted_unsafe(summaries@),
{
    let mut r: Vec<usize> = Vec::new();
    let mut i: usize = 0;
    while i < summaries.len()
        invariant
            i <= summaries.len(),
            r@ == counted_unsafe(summaries@.take(i as int)),
        decreases summaries.len() - i,
    {
        assert(summaries@.take(i + 1).drop_last() =~= summaries@.take(i as int));
        if summaries[i].total() != 0 {
            r.push(summaries[i].unsafe_no());
        }
        i = i + 1;
    }
    assert(summaries@.take(summaries.len() as int) =~= summaries@);
    r
}

/// Sum of the user-written unsafe block counts.
pub open spec fn sum_user_unsafe(v: Seq<BlockSummary>) -> int
    decreases v.len(),
{
    if v.len() == 0 {
        0
    } else {
        sum_user_unsafe(v.drop_last()) + v.last().user_unsafe_blocks
    }
}

/// Sum of the unsafe block counts.
pub open spec fn sum_unsafe(v: Seq<BlockSummary>) -> int
    decreases v.len(),
{
    if v.len() == 0 {
        0
    } else {
        sum_unsafe(v.drop_last()) + v.last().unsafe_blocks
    }
}

/// Sum of the block counts.
pub open spec fn sum_total(v: Seq<BlockSummary>) -> int
    decreases v.len(),
{
    if v.len() == 0 {
        0
    } else {
        sum_total(v.drop_last()) + v.last().total
    }
}

proof fn lemma_block_sums_monotone(v: Seq<BlockSummary>, i: int)
    requires
        0 <= i <= v.len(),
    ensures
        sum_user_unsafe(v.take(i)) <= sum_user_unsafe(v),
        sum_unsafe(v.take(i)) <= sum_unsafe(v),
        sum_total(v.take(i)) <= sum_total(v),
    decreases v.len(),
{
    if i < v.len() {
        assert(v.take(i) =~= v.drop_last().take(i));
        lemma_block_sums_monotone(v.drop_last(), i);
    } else {
        assert(v.take(i) =~= v);
    }
}

/// The block counts of the files of a crate added up, each count on its
/// own.
pub fn sum_block_summaries(summaries: &Vec<BlockSummary>) -> (r: BlockSummary)
    requires
        sum_user_unsafe(summaries@) <= usize::MAX,
        sum_unsafe(summaries@) <= usize::MAX,
        sum_total(summaries@) <= usize::MAX,
    ensures
        r.user_unsafe_blocks == sum_user_unsafe(summaries@),
        r.unsafe_blocks == sum_unsafe(summaries@),
        r.total == sum_total(summaries@),
{
    let mut result = BlockSummary::new(0, 0, 0);
    let mut i: usize = 0;
    while i < summaries.len()
        invariant
            i <= summaries.len(),
            sum_user_unsafe(summaries@) <= usize::MAX,
            sum_unsafe(summaries@) <= usize::MAX,
            sum_total(summaries@) <= usize::MAX,
            result.user_unsafe_blocks == sum_user_unsafe(summaries@.take(i as int)),
            result.unsafe_blocks == sum_unsafe(summaries@.take(i as int)),
            result.total == sum_total(summaries@.take(i as int)),
        decreases summaries.len() - i,
    {
        assert(summaries@.take(i + 1).drop_last() =~= summaries@.take(i as int));
        proof {
            lemma_block_sums_monotone(summaries@, i + 1);
        }
        result.user_unsafe_blocks = result.user_unsafe_blocks + summaries[i].user_unsafe_blocks;
        result.unsafe_blocks = result.unsafe_blocks + summaries[i].unsafe_blocks;
        result.total = result.total + summaries[i].total;
        i = i + 1;
    }
    assert(summaries@.take(summaries.len() as int) =~= summaries@);
    result
}

/// Sum of the unsafe function counts.
pub open spec fn sum_fn_unsafe(v: Seq<Summary>) -> int
    decreases v.len(),
{
    if v.len() == 0 {
        0
    } else {
        sum_fn_unsafe(v.drop_last()) + v.last().spec_unsafe_no()
    }
}

/// Sum of the function counts.
pub open spec fn sum_fn_total(v: Seq<Summary>) -> int
    decreases v.len(),
{
    if v.len() == 0 {
        0
    } else {
        sum_fn_total(v.drop_last()) + v.last().spec_total()
    }
}

proof fn lemma_fn_sums_monotone(v: Seq<Summary>, i: int)
    requires
        0 <= i <= v.len(),
    ensures
        sum_fn_unsafe(v.take(i)) <= sum_fn_unsafe(v),
        sum_fn_total(v.take(i)) <= sum_fn_total(v),
    decreases v.len(),
{
    if i < v.len() {
        assert(v.take(i) =~= v.drop_last().take(i));
        lemma_fn_sums_monotone(v.drop_last(), i);
    } else {
        assert(v.take(i) =~= v);
    }
}

/// The function counts of the files of a crate added up.
pub fn sum_fn_summaries(summaries: &Vec<Summary>) -> (r: Summary)
    requires
        sum_fn_unsafe(summaries@) <= usize::MAX,
        sum_fn_total(summaries@) <= usize::MAX,
    ensures
        r.spec_unsafe_no() == sum_fn_unsafe(summaries@),
        r.spec_total() == sum_fn_total(summaries@),
{
    let mut unsafe_no: usize = 0;
    let mut total: usize = 0;
    let mut i: usize = 0;
    while i < summaries.len()
        invariant
            i <= summaries.len(),
            sum_fn_unsafe(summaries@) <= usize::MAX,
            sum_fn_total(summaries@) <= usize::MAX,
            unsafe_no == sum_fn_unsafe(summaries@.take(i as int)),
            total == sum_fn_total(summaries@.take(i as int)),
        decreases summaries.len() - i,
    {
        assert(summaries@.take(i + 1).drop_last() =~= summaries@.take(i as int));
        proof {
            lemma_fn_sums_monotone(summaries@, i + 1);
        }
        unsafe_no = unsafe_no + summaries[i].unsafe_no();
        total = total + summaries[i].total();
        i = i + 1;
    }
    assert(summaries@.take(summaries.len() as int) =~= summaries@);
    Summary::new(unsafe_no, total)
}

} // verus!
