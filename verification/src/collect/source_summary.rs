//! Which reasons for unsafety a function declared unsafe has.
use vstd::prelude::*;
use crate::results::functions::UnsafeFnUsafetySources;
use crate::results::Abi;
use crate::results::unsafety_sources::{Source, SourceKind};

verus! {

/// The reasons found for the unsafety of a function (or of many), one flag
/// per kind of reason.
#[derive(Clone, Copy, PartialEq, Eq, Structural, Debug)]
pub struct SourceSummary {
    pub unsafe_fn_calls: bool,
    pub raw_pointer: bool,
    pub assembly: bool,
    pub static_access: bool,
    pub borrow_packed: bool,
    pub assignment_union: bool,
    pub union: bool,
    pub extern_static: bool,
    pub argument: bool,
    pub from_trait: bool,
}

/// Some source in `sources` satisfies `p`.
pub open spec fn some_source(sources: Seq<Source>, p: spec_fn(SourceKind) -> bool) -> bool {
    exists|i: int| 0 <= i < sources.len() && #[trigger] p(sources[i].kind)
}

/// The reasons of a function from whether its signature comes from a trait,
/// how many unsafe parameters it has, and the unsafe operations of its body.
pub open spec fn summary_of(from_trait: bool, n_arguments: nat, sources: Seq<Source>) -> SourceSummary {
    SourceSummary {
        unsafe_fn_calls: some_source(sources, |k: SourceKind| k is UnsafeFnCall),
        raw_pointer: some_source(sources, |k: SourceKind| k is DerefRawPointer),
        assembly: some_source(sources, |k: SourceKind| k is Asm),
        static_access: some_source(sources, |k: SourceKind| k is Static),
        borrow_packed: some_source(sources, |k: SourceKind| k is BorrowPacked),
        assignment_union: some_source(sources, |k: SourceKind| k is AssignmentToNonCopyUnionField),
        union: some_source(sources, |k: SourceKind| k is AccessToUnionField),
        extern_static: some_source(sources, |k: SourceKind| k is ExternStatic),
        argument: n_arguments > 0,
        from_trait,
    }
}

/// Whether any flag of `s` is set.
pub open spec fn spec_has_reason(s: SourceSummary) -> bool {
    s.unsafe_fn_calls || s.raw_pointer || s.assembly || s.static_access || s.borrow_packed
        || s.assignment_union || s.union || s.extern_static || s.argument || s.from_trait
}

/// The text of a flag.
pub open spec fn bool_text(b: bool) -> Seq<char> {
    if b {
        "true"@
    } else {
        "false"@
    }
}

/// The tab-separated row of a summary: whether it has a reason, then each
/// flag in declaration order.
pub open spec fn row_text(s: SourceSummary) -> Seq<char> {
    bool_text(spec_has_reason(s)) + "\t"@ + bool_text(s.unsafe_fn_calls) + "\t"@ + bool_text(
        s.raw_pointer,
    ) + "\t"@ + bool_text(s.assembly) + "\t"@ + bool_text(s.static_access) + "\t"@ + bool_text(
        s.borrow_packed,
    ) + "\t"@ + bool_text(s.assignment_union) + "\t"@ + bool_text(s.union) + "\t"@ + bool_text(
        s.extern_static,
    ) + "\t"@ + bool_text(s.argument) + "\t"@ + bool_text(s.from_trait)
}

fn push_flag(out: &mut String, b: bool, tab: bool)
    ensures
        final(out)@ == old(out)@ + (if tab {
            "\t"@
        } else {
            Seq::<char>::empty()
        }) + bool_text(b),
{
    proof {
        reveal_strlit("\t");
        reveal_strlit("true");
        reveal_strlit("false");
    }
    let ghost before = out@;
    if tab {
        out.append("\t");
    } else {
        assert(before + Seq::<char>::empty() =~= before);
    }
    if b {
        out.append("true");
    } else {
        out.append("false");
    }
}

impl SourceSummary {
    /// No reason found yet.
    pub fn new() -> (r: Self)
        ensures
            !spec_has_reason(r),
    {
        Self {
            unsafe_fn_calls: false,
            raw_pointer: false,
            assembly: false,
            static_access: false,
            borrow_packed: false,
            assignment_union: false,
            union: false,
            extern_static: false,
            argument: false,
            from_trait: false,
        }
    }

    /// Whether some reason was found.
    pub fn has_reason(&self) -> (r: bool)
        ensures
            r == spec_has_reason(*self),
    {
        self.unsafe_fn_calls || self.raw_pointer || self.assembly || self.static_access || self.borrow_packed
            || self.assignment_union || self.union || self.extern_static || self.argument
            || self.from_trait
    }

    /// The reasons of one function declared unsafe.
    pub fn of_function(res: &UnsafeFnUsafetySources) -> (r: Self)
        ensures
            r == summary_of(
                res.spec_from_trait(),
                res.spec_arguments().len(),
                res.spec_sources(),
            ),
    {
        let mut s = SourceSummary::new();
        s.from_trait = res.from_trait();
        s.argument = res.arguments().len() > 0;
        let sources = res.sources();
        let mut i: usize = 0;
        while i < sources.len()
            invariant
                i <= sources.len(),
                s.from_trait == res.spec_from_trait(),
                s.argument == (res.spec_arguments().len() > 0),
                sources@ == res.spec_sources(),
                s.unsafe_fn_calls == some_source(sources@.take(i as int), |k: SourceKind| k is UnsafeFnCall),
                s.raw_pointer == some_source(sources@.take(i as int), |k: SourceKind| k is DerefRawPointer),
                s.assembly == some_source(sources@.take(i as int), |k: SourceKind| k is Asm),
                s.static_access == some_source(sources@.take(i as int), |k: SourceKind| k is Static),
                s.borrow_packed == some_source(sources@.take(i as int), |k: SourceKind| k is BorrowPacked),
                s.assignment_union == some_source(
                    sources@.take(i as int),
                    |k: SourceKind| k is AssignmentToNonCopyUnionField,
                ),
                s.union == some_source(sources@.take(i as int), |k: SourceKind| k is AccessToUnionField),
                s.extern_static == some_source(sources@.take(i as int), |k: SourceKind| k is ExternStatic),
            decreases sources.len() - i,
        {
            let ghost pre = sources@.take(i as int);
            let ghost post = sources@.take(i + 1);
            assert(post =~= pre.push(sources@[i as int]));
            match sources[i].kind {
                SourceKind::UnsafeFnCall(_) => {
                    s.unsafe_fn_calls = true;
                },
                SourceKind::DerefRawPointer => {
                    s.raw_pointer = true;
                },
                SourceKind::Asm => {
                    s.assembly = true;
                },
                SourceKind::Static => {
                    s.static_access = true;
                },
                SourceKind::BorrowPacked => {
                    s.borrow_packed = true;
                },
                SourceKind::AssignmentToNonCopyUnionField => {
                    s.assignment_union = true;
                },
                SourceKind::AccessToUnionField => {
                    s.union = true;
                },
                SourceKind::ExternStatic => {
                    s.extern_static = true;
                },
                SourceKind::ConstantFn => {},
            }
            proof {
                lemma_some_source_push(pre, sources@[i as int], |k: SourceKind| k is UnsafeFnCall);
                lemma_some_source_push(pre, sources@[i as int], |k: SourceKind| k is DerefRawPointer);
                lemma_some_source_push(pre, sources@[i as int], |k: SourceKind| k is Asm);
                lemma_some_source_push(pre, sources@[i as int], |k: SourceKind| k is Static);
                lemma_some_source_push(pre, sources@[i as int], |k: SourceKind| k is BorrowPacked);
                lemma_some_source_push(
                    pre,
                    sources@[i as int],
                    |k: SourceKind| k is AssignmentToNonCopyUnionField,
                );
                lemma_some_source_push(pre, sources@[i as int], |k: SourceKind| k is AccessToUnionField);
                lemma_some_source_push(pre, sources@[i as int], |k: SourceKind| k is ExternStatic);
            }
            i = i + 1;
        }
        assert(sources@.take(sources.len() as int) =~= sources@);
        s
    }

    /// The row that records the summary: whether it has a reason, then each
    /// flag, separated by tabs.
    pub fn row(&self) -> (r: String)
        ensures
            r@ == row_text(*self),
    {
        let mut out = String::new();
        push_flag(&mut out, self.has_reason(), false);
        push_flag(&mut out, self.unsafe_fn_calls, true);
        push_flag(&mut out, self.raw_pointer, true);
        push_flag(&mut out, self.assembly, true);
        push_flag(&mut out, self.static_access, true);
        push_flag(&mut out, self.borrow_packed, true);
        push_flag(&mut out, self.assignment_union, true);
        push_flag(&mut out, self.union, true);
        push_flag(&mut out, self.extern_static, true);
        push_flag(&mut out, self.argument, true);
        push_flag(&mut out, self.from_trait, true);
        assert(out@ =~= row_text(*self));
        out
    }
}

/// A function's summary shows a reason exactly when its record does (some
/// unsafe parameter, unsafe operation, or trait signature), for records whose
/// operations are all of the kinds the summary has a flag for.
pub proof fn summary_shows_a_reason_iff_record_does(res: UnsafeFnUsafetySources)
    requires
        forall|i: int|
            0 <= i < res.spec_sources().len() ==> !((#[trigger] res.spec_sources()[i]).kind is ConstantFn),
    ensures
        spec_has_reason(summary_of(res.spec_from_trait(), res.spec_arguments().len(), res.spec_sources()))
            == !(res.spec_arguments().len() == 0 && res.spec_sources().len() == 0
            && !res.spec_from_trait()),
{
    let sources = res.spec_sources();
    if sources.len() > 0 {
        let k = sources[0].kind;
        assert(!(k is ConstantFn));
        match k {
            SourceKind::UnsafeFnCall(_) => {
                let p = |k: SourceKind| k is UnsafeFnCall;
                assert(p(sources[0].kind));
                assert(some_source(sources, p));
            },
            SourceKind::DerefRawPointer => {
                let p = |k: SourceKind| k is DerefRawPointer;
                assert(p(sources[0].kind));
                assert(some_source(sources, p));
            },
            SourceKind::Asm => {
                let p = |k: SourceKind| k is Asm;
                assert(p(sources[0].kind));
                assert(some_source(sources, p));
            },
            SourceKind::Static => {
                let p = |k: SourceKind| k is Static;
                assert(p(sources[0].kind));
                assert(some_source(sources, p));
            },
            SourceKind::BorrowPacked => {
                let p = |k: SourceKind| k is BorrowPacked;
                assert(p(sources[0].kind));
                assert(some_source(sources, p));
            },
            SourceKind::AssignmentToNonCopyUnionField => {
                let p = |k: SourceKind| k is AssignmentToNonCopyUnionField;
                assert(p(sources[0].kind));
                assert(some_source(sources, p));
            },
            SourceKind::AccessToUnionField => {
                let p = |k: SourceKind| k is AccessToUnionField;
                assert(p(sources[0].kind));
                assert(some_source(sources, p));
            },
            SourceKind::ExternStatic => {
                let p = |k: SourceKind| k is ExternStatic;
                assert(p(sources[0].kind));
                assert(some_source(sources, p));
            },
            SourceKind::ConstantFn => {},
        }
    }
}

/// Two kinds of unsafe operation are the same kind, whatever the calling
/// convention of a called function.
pub open spec fn same_kind(a: SourceKind, b: SourceKind) -> bool {
    match (a, b) {
        (SourceKind::UnsafeFnCall(_), SourceKind::UnsafeFnCall(_)) => true,
        (x, y) => !(x is UnsafeFnCall) && x == y,
    }
}

/// Some unsafe operation of `sources` is of the same kind as `kind`.
pub open spec fn has_kind_like(sources: Seq<Source>, kind: SourceKind) -> bool {
    exists|i: int| 0 <= i < sources.len() && #[trigger] same_kind(sources[i].kind, kind)
}

/// Each flag of a function's summary names its own kind of unsafe
/// operation: it is set exactly when some operation of the function's body
/// is of that kind; the argument flag is set exactly when the function has
/// an unsafe parameter, and the trait flag copies the record's.
pub proof fn summary_flags_name_their_kinds(res: UnsafeFnUsafetySources)
    ensures
        ({
            let s = summary_of(res.spec_from_trait(), res.spec_arguments().len(), res.spec_sources());
            let src = res.spec_sources();
            &&& s.unsafe_fn_calls <==> has_kind_like(src, SourceKind::UnsafeFnCall(Abi::Rust))
            &&& s.raw_pointer <==> has_kind_like(src, SourceKind::DerefRawPointer)
            &&& s.assembly <==> has_kind_like(src, SourceKind::Asm)
            &&& s.static_access <==> has_kind_like(src, SourceKind::Static)
            &&& s.borrow_packed <==> has_kind_like(src, SourceKind::BorrowPacked)
            &&& s.assignment_union <==> has_kind_like(src, SourceKind::AssignmentToNonCopyUnionField)
            &&& s.union <==> has_kind_like(src, SourceKind::AccessToUnionField)
            &&& s.extern_static <==> has_kind_like(src, SourceKind::ExternStatic)
            &&& s.argument <==> res.spec_arguments().len() > 0
            &&& s.from_trait == res.spec_from_trait()
        }),
{
    let src = res.spec_sources();
    lemma_flag_kind(src, |k: SourceKind| k is UnsafeFnCall, SourceKind::UnsafeFnCall(Abi::Rust));
    lemma_flag_kind(src, |k: SourceKind| k is DerefRawPointer, SourceKind::DerefRawPointer);
    lemma_flag_kind(src, |k: SourceKind| k is Asm, SourceKind::Asm);
    lemma_flag_kind(src, |k: SourceKind| k is Static, SourceKind::Static);
    lemma_flag_kind(src, |k: SourceKind| k is BorrowPacked, SourceKind::BorrowPacked);
    lemma_flag_kind(
        src,
        |k: SourceKind| k is AssignmentToNonCopyUnionField,
        SourceKind::AssignmentToNonCopyUnionField,
    );
    lemma_flag_kind(src, |k: SourceKind| k is AccessToUnionField, SourceKind::AccessToUnionField);
    lemma_flag_kind(src, |k: SourceKind| k is ExternStatic, SourceKind::ExternStatic);
}

proof fn lemma_flag_kind(sources: Seq<Source>, p: spec_fn(SourceKind) -> bool, kind: SourceKind)
    requires
        forall|k: SourceKind| #[trigger] p(k) == same_kind(k, kind),
    ensures
        some_source(sources, p) <==> has_kind_like(sources, kind),
{
    if some_source(sources, p) {
        let i = choose|i: int| 0 <= i < sources.len() && #[trigger] p(sources[i].kind);
        assert(same_kind(sources[i].kind, kind));
    }
    if has_kind_like(sources, kind) {
        let i = choose|i: int| 0 <= i < sources.len() && #[trigger] same_kind(sources[i].kind, kind);
        assert(p(sources[i].kind));
    }
}

proof fn lemma_some_source_push(s: Seq<Source>, x: Source, p: spec_fn(SourceKind) -> bool)
    ensures
        some_source(s.push(x), p) == (some_source(s, p) || p(x.kind)),
{
    let t = s.push(x);
    if some_source(s, p) {
        let i = choose|i: int| 0 <= i < s.len() && #[trigger] p(s[i].kind);
        assert(t[i] == s[i]);
    }
    if p(x.kind) {
        assert(t[s.len() as int] == x);
    }
    if some_source(t, p) {
        let i = choose|i: int| 0 <= i < t.len() && #[trigger] p(t[i].kind);
        if i < s.len() {
            assert(t[i] == s[i]);
        }
    }
}

} // verus!
