//! Why each function declared unsafe is unsafe, and which of them show no
//! reason at all.
use vstd::prelude::*;
use crate::hidden::fn_unsafety::{
    HirTy, HirTyKind, find_unsafe_type, find_unsafe_type_in_list, unsafe_type_in,
    unsafe_type_in_list,
};
use crate::hidden::util::{HirNode, is_unsafe_method};
use crate::results::functions::{Argument, ArgumentKind, ShortFnInfo, UnsafeFnUsafetySources};
use crate::results::unsafety_sources::{Source, SourceKind};
use crate::text::{decimal, u32_to_decimal};

verus! {

/// The kind of unsafety of an offending parameter type.
pub open spec fn kind_of(ty: HirTy) -> ArgumentKind {
    match ty.kind {
        HirTyKind::Ptr => ArgumentKind::RawPointer,
        _ => ArgumentKind::UnsafeFunction,
    }
}

/// The reason that an offending type gives: its text and kind.
pub open spec fn reason_of(found: Option<HirTy>) -> Option<(Seq<char>, ArgumentKind)> {
    match found {
        Some(t) => Some((t.text@, kind_of(t))),
        None => None,
    }
}

/// The content of an optional reason.
pub open spec fn argument_view(a: Option<Argument>) -> Option<(Seq<char>, ArgumentKind)> {
    match a {
        Some(x) => Some((x.spec_type_info(), x.spec_kind())),
        None => None,
    }
}

fn argument_of(t: &HirTy) -> (r: Argument)
    ensures
        r.spec_type_info() == t.text@,
        r.spec_kind() == kind_of(*t),
{
    let kind = match &t.kind {
        HirTyKind::Ptr => ArgumentKind::RawPointer,
        _ => ArgumentKind::UnsafeFunction,
    };
    Argument::new(t.text.clone(), kind)
}

/// The parameter reason found in the type `ty`: the text and kind of the
/// first raw pointer or unsafe function pointer type in it.
pub fn process_type(ty: &HirTy) -> (r: Option<Argument>)
    ensures
        argument_view(r) == reason_of(unsafe_type_in(*ty)),
{
    match find_unsafe_type(ty) {
        Some(t) => Some(argument_of(t)),
        None => None,
    }
}

/// The parameter reason found in the first type of `array` that holds one.
pub fn process_ty_array(array: &Vec<HirTy>) -> (r: Option<Argument>)
    ensures
        argument_view(r) == reason_of(unsafe_type_in_list(array@)),
{
    match find_unsafe_type_in_list(array) {
        Some(t) => Some(argument_of(t)),
        None => None,
    }
}

/// The reasons given by the parameter types `inputs`, in order, one for each
/// type that holds one.
pub open spec fn input_reasons(inputs: Seq<HirTy>) -> Seq<(Seq<char>, ArgumentKind)>
    decreases inputs.len(),
{
    if inputs.len() == 0 {
        Seq::empty()
    } else {
        let prev = input_reasons(inputs.drop_last());
        match reason_of(unsafe_type_in(inputs.last())) {
            Some(x) => prev.push(x),
            None => prev,
        }
    }
}

/// The contents of a list of reasons.
pub open spec fn arguments_view(v: Seq<Argument>) -> Seq<(Seq<char>, ArgumentKind)> {
    v.map_values(|a: Argument| (a.spec_type_info(), a.spec_kind()))
}

/// The record of the unsafe function `name`, declared at `node`, with
/// parameter types `inputs` (none known when the declaration was not
/// found): its signature comes from a trait when it is an unsafe method, and
/// it has one reason per parameter type that holds a raw pointer or an
/// unsafe function pointer.
pub fn process_fn_decl(name: String, node: HirNode, inputs: Option<&Vec<HirTy>>) -> (r: UnsafeFnUsafetySources)
    ensures
        r.spec_name() == name@,
        r.spec_from_trait() == (node matches HirNode::ImplItem(
            crate::hidden::util::ImplItemKind::Method { is_unsafe },
        ) && is_unsafe),
        arguments_view(r.spec_arguments()) == match inputs {
            Some(v) => input_reasons(v@),
            None => Seq::empty(),
        },
        r.spec_sources().len() == 0,
{
    let from_trait = is_unsafe_method(node);
    let mut res = UnsafeFnUsafetySources::new(name, from_trait);
    assert(arguments_view(res.spec_arguments()) =~= Seq::<(Seq<char>, ArgumentKind)>::empty());
    match inputs {
        Some(v) => {
            let mut i: usize = 0;
            while i < v.len()
                invariant
                    i <= v.len(),
                    res.spec_name() == name@,
                    res.spec_from_trait() == from_trait,
                    res.spec_sources().len() == 0,
                    arguments_view(res.spec_arguments()) == input_reasons(v@.take(i as int)),
                decreases v.len() - i,
            {
                assert(v@.take(i + 1).drop_last() =~= v@.take(i as int));
                assert(v@.take(i + 1).last() == v@[i as int]);
                match process_type(&v[i]) {
                    Some(reason) => {
                        let ghost before = res.spec_arguments();
                        res.add_argument(reason);
                        assert(arguments_view(res.spec_arguments()) =~= arguments_view(before).push(
                            (reason.spec_type_info(), reason.spec_kind()),
                        ));
                    },
                    None => {},
                }
                i = i + 1;
            }
            assert(v@.take(v.len() as int) =~= v@);
        },
        None => {},
    }
    res
}

/// The short description of the function declared at `decl_id`.
pub fn build_short_fn_info(name: String, decl_id: u32, location: String) -> (r: ShortFnInfo)
    ensures
        r.spec_name() == name@,
        r.spec_node_id() == decimal(decl_id as nat),
        r.spec_location() == location@,
{
    let node_id = u32_to_decimal(decl_id);
    ShortFnInfo::new(name, node_id, location)
}

/// Records in `data` an unsafe operation of kind `kind` at `loc`.
pub fn add_unsafety_source(
    data: &mut UnsafeFnUsafetySources,
    kind: SourceKind,
    loc: String,
    user_provided: bool,
)
    ensures
        final(data).spec_name() == old(data).spec_name(),
        final(data).spec_from_trait() == old(data).spec_from_trait(),
        final(data).spec_arguments() == old(data).spec_arguments(),
        final(data).spec_sources() == old(data).spec_sources().push(
            Source { kind, loc, user_provided },
        ),
{
    let source = Source { kind, loc, user_provided };
    data.add_source(source);
}

/// Whether a record shows no reason for the unsafety.
pub open spec fn no_reason(d: UnsafeFnUsafetySources) -> bool {
    d.spec_arguments().len() == 0 && d.spec_sources().len() == 0 && !d.spec_from_trait()
}

/// The records of the functions whose body could be analysed, in order.
pub open spec fn analysed(fns: Seq<(Option<UnsafeFnUsafetySources>, ShortFnInfo)>) -> Seq<UnsafeFnUsafetySources>
    decreases fns.len(),
{
    if fns.len() == 0 {
        Seq::empty()
    } else {
        match fns.last().0 {
            Some(d) => analysed(fns.drop_last()).push(d),
            None => analysed(fns.drop_last()),
        }
    }
}

/// The descriptions of the analysed functions that show no reason.
pub open spec fn without_reason(fns: Seq<(Option<UnsafeFnUsafetySources>, ShortFnInfo)>) -> Seq<ShortFnInfo>
    decreases fns.len(),
{
    if fns.len() == 0 {
        Seq::empty()
    } else {
        match fns.last().0 {
            Some(d) => if no_reason(d) {
                without_reason(fns.drop_last()).push(fns.last().1)
            } else {
                without_reason(fns.drop_last())
            },
            None => without_reason(fns.drop_last()),
        }
    }
}

/// From the records of the unsafe functions (none for a function whose body
/// could not be analysed) and their descriptions: the records of the
/// analysed functions, and the descriptions of those among them that show
/// no reason for their unsafety.
pub fn run_sources_analysis(fns: Vec<(Option<UnsafeFnUsafetySources>, ShortFnInfo)>) -> (r: (Vec<UnsafeFnUsafetySources>, Vec<ShortFnInfo>))
    ensures
        r.0@ == analysed(fns@),
        r.1@ == without_reason(fns@),
{
    let ghost all = fns@;
    let mut rest = fns;
    let mut sources: Vec<UnsafeFnUsafetySources> = Vec::new();
    let mut no_reason_fns: Vec<ShortFnInfo> = Vec::new();
    let mut k: usize = 0;
    assert(all.skip(0) =~= all);
    assert(all.len() == rest.len());
    while rest.len() > 0
        invariant
            all.len() <= usize::MAX,
            k <= all.len(),
            rest@ == all.skip(k as int),
            sources@ == analysed(all.take(k as int)),
            no_reason_fns@ == without_reason(all.take(k as int)),
        decreases rest.len(),
    {
        let (data, info) = rest.remove(0);
        assert(all.take(k + 1).drop_last() =~= all.take(k as int));
        assert(all.take(k + 1).last() == all[k as int]);
        assert(rest@ =~= all.skip(k + 1));
        match data {
            Some(d) => {
                if d.has_no_reason() {
                    no_reason_fns.push(info);
                }
                sources.push(d);
            },
            None => {},
        }
        k = k + 1;
    }
    assert(all.take(k as int) =~= all);
    (sources, no_reason_fns)
}

} // verus!
