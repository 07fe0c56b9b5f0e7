//! The text rows reported for the unsafety sources of unsafe functions and
//! of unsafe blocks.
use vstd::prelude::*;
use crate::collect::source_summary::bool_text;
use crate::results::abi_name;
use crate::results::blocks::BlockUnsafetySource;
use crate::results::functions::UnsafeFnUsafetySources;
use crate::results::unsafety_sources::{kind_description, Source, SourceKind};

verus! {

/// A row of three comma-separated fields: what makes the code unsafe,
/// whether the user wrote the unsafe context, and the crate.
pub open spec fn source_row(what: Seq<char>, user_provided: bool, crate_name: Seq<char>) -> Seq<
    char,
> {
    what + ","@ + bool_text(user_provided) + ","@ + crate_name
}

/// The rows of an unsafe function: one per unsafe operation of its body, in
/// order, then one if its signature comes from a trait, then one if it has
/// unsafe parameters.
pub open spec fn function_rows(
    from_trait: bool,
    n_arguments: nat,
    sources: Seq<Source>,
    crate_name: Seq<char>,
) -> Seq<Seq<char>> {
    Seq::new(
        sources.len(),
        |i: int| source_row(kind_description(sources[i].kind), sources[i].user_provided, crate_name),
    ) + (if from_trait {
        seq![source_row("From Trait"@, true, crate_name)]
    } else {
        Seq::empty()
    }) + (if n_arguments > 0 {
        seq![source_row("Raw Pointer Argument"@, true, crate_name)]
    } else {
        Seq::empty()
    })
}

/// The row of one unsafety source of a block: the block, then the source's
/// row.
pub open spec fn block_row(block_id: Seq<char>, source: Source, crate_name: Seq<char>) -> Seq<char> {
    block_id + ","@ + source_row(kind_description(source.kind), source.user_provided, crate_name)
}

/// The tab-separated row of a call of an unsafe function from a block: the
/// calling convention, the block, and whether the user wrote the block.
pub open spec fn call_row(abi: Seq<char>, block_id: Seq<char>, user_provided: bool) -> Seq<char> {
    abi + "\t"@ + block_id + "\t"@ + bool_text(user_provided)
}

/// A function is reported with no row exactly when its record shows no
/// reason for its unsafety.
pub proof fn no_rows_iff_no_reason(res: UnsafeFnUsafetySources, crate_name: Seq<char>)
    ensures
        (function_rows(res.spec_from_trait(), res.spec_arguments().len(), res.spec_sources(), crate_name).len()
            == 0) == (res.spec_arguments().len() == 0 && res.spec_sources().len() == 0
            && !res.spec_from_trait()),
{
}

fn append_flag(out: &mut String, b: bool)
    ensures
        final(out)@ == old(out)@ + bool_text(b),
{
    proof {
        reveal_strlit("true");
        reveal_strlit("false");
    }
    if b {
        out.append("true");
    } else {
        out.append("false");
    }
}

fn make_source_row(what: &str, user_provided: bool, crate_name: &str) -> (r: String)
    ensures
        r@ == source_row(what@, user_provided, crate_name@),
{
    proof {
        reveal_strlit(",");
    }
    let mut out = String::from_str(what);
    out.append(",");
    append_flag(&mut out, user_provided);
    out.append(",");
    out.append(crate_name);
    assert(out@ =~= source_row(what@, user_provided, crate_name@));
    out
}

/// The rows reported for an unsafe function of the crate `crate_name`.
pub fn function_source_rows(res: &UnsafeFnUsafetySources, crate_name: &str) -> (r: Vec<String>)
    ensures
        r.len() == function_rows(
            res.spec_from_trait(),
            res.spec_arguments().len(),
            res.spec_sources(),
            crate_name@,
        ).len(),
        forall|i: int|
            0 <= i < r.len() ==> #[trigger] r@[i]@ == function_rows(
                res.spec_from_trait(),
                res.spec_arguments().len(),
                res.spec_sources(),
                crate_name@,
            )[i],
{
    let ghost rows = function_rows(
        res.spec_from_trait(),
        res.spec_arguments().len(),
        res.spec_sources(),
        crate_name@,
    );
    let sources = res.sources();
    let mut out: Vec<String> = Vec::new();
    let mut i: usize = 0;
    while i < sources.len()
        invariant
            i <= sources.len(),
            sources@ == res.spec_sources(),
            out.len() == i,
            rows == function_rows(
                res.spec_from_trait(),
                res.spec_arguments().len(),
                res.spec_sources(),
                crate_name@,
            ),
            forall|j: int| 0 <= j < i ==> #[trigger] out@[j]@ == rows[j],
        decreases sources.len() - i,
    {
        let src = &sources[i];
        let row = make_source_row(src.kind.description(), src.user_provided, crate_name);
        out.push(row);
        i = i + 1;
    }
    let n: usize = out.len();
    if res.from_trait() {
        out.push(make_source_row("From Trait", true, crate_name));
    }
    if res.arguments().len() > 0 {
        out.push(make_source_row("Raw Pointer Argument", true, crate_name));
    }
    assert forall|j: int| 0 <= j < out.len() implies #[trigger] out@[j]@ == rows[j] by {
        if j >= n {
            if res.spec_from_trait() && j == n {
            } else {
            }
        }
    }
    out
}

/// The row reported for one unsafety source of a block of the crate
/// `crate_name`.
pub fn block_source_row(bus: &BlockUnsafetySource, crate_name: &str) -> (r: String)
    ensures
        r@ == block_row(bus.block_id@, bus.source, crate_name@),
{
    proof {
        reveal_strlit(",");
    }
    let mut out = bus.block_id.clone();
    out.append(",");
    let rest = make_source_row(bus.source.kind.description(), bus.source.user_provided, crate_name);
    out.append(rest.as_str());
    assert(out@ =~= block_row(bus.block_id@, bus.source, crate_name@));
    out
}

/// The row of a call of an unsafe function recorded for a block, or `None`
/// where the source is not such a call.
pub fn block_call_row(bus: &BlockUnsafetySource) -> (r: Option<String>)
    ensures
        match bus.source.kind {
            SourceKind::UnsafeFnCall(abi) => r is Some && r->0@ == call_row(
                abi_name(abi),
                bus.block_id@,
                bus.source.user_provided,
            ),
            _ => r is None,
        },
{
    proof {
        reveal_strlit("\t");
    }
    match bus.source.kind {
        SourceKind::UnsafeFnCall(abi) => {
            let mut out = String::from_str(abi.name());
            out.append("\t");
            out.append(bus.block_id.as_str());
            out.append("\t");
            append_flag(&mut out, bus.source.user_provided);
            assert(out@ =~= call_row(abi_name(abi), bus.block_id@, bus.source.user_provided));
            Some(out)
        },
        _ => None,
    }
}

} // verus!
