//! Why a function declared `unsafe` may need to be: a raw pointer or an
//! unsafe function pointer somewhere in the types of its parameters.
use vstd::prelude::*;

verus! {

/// The kind of unsafe parameter type that was found.
#[derive(Clone, Copy, PartialEq, Eq, Structural, Debug)]
pub enum ArgumentKind {
    RawPointer,
    UnsafeFunction,
}

/// A type as written in a function signature: its node id, its text, and
/// its shape.
pub struct HirTy {
    pub id: u32,
    pub text: String,
    pub kind: HirTyKind,
}

/// The shapes of types that the analysis distinguishes.
pub enum HirTyKind {
    /// `[T]`
    Slice(Box<HirTy>),
    /// `[T; N]`
    Array(Box<HirTy>),
    /// `*const T` or `*mut T`
    Ptr,
    /// `&T` or `&mut T`, with its referent.
    Rptr(Box<HirTy>),
    /// `fn(A, B) -> C`, possibly `unsafe`, with its parameter types and its
    /// output type when one is written.
    BareFn { is_unsafe: bool, inputs: Vec<HirTy>, output: Option<Box<HirTy>> },
    /// `(A, B)`
    Tup(Vec<HirTy>),
    /// A resolved path: its qualified self type if any, then the generic
    /// arguments of its segments, in order.
    PathResolved(Option<Box<HirTy>>, Vec<HirTy>),
    /// `<T>::Name<..>`: the base type, then the generic arguments of the
    /// segment.
    PathTypeRelative(Box<HirTy>, Vec<HirTy>),
    /// `dyn Trait<..> + ..`: the generic arguments of its bounds, in order.
    TraitObject(Vec<HirTy>),
    Never,
    Typeof,
    Infer,
    Error,
}

/// A parameter that makes a function unsafe: the node id of the offending
/// type and its kind.
pub struct Argument {
    pub ty_node_id: u32,
    pub kind: ArgumentKind,
}

/// Whether a type is itself unsafe to hand over: a raw pointer or an unsafe
/// function pointer.
pub open spec fn is_unsafe_node(ty: HirTy) -> bool {
    ty.kind is Ptr || (ty.kind matches HirTyKind::BareFn { is_unsafe, .. } && is_unsafe)
}

/// Whether a raw pointer or an unsafe function pointer occurs anywhere in
/// `ty`: `ty` itself, or any type written inside it (element, referent,
/// parameter, output, field, qualified self, generic argument).
pub open spec fn holds_unsafe(ty: HirTy) -> bool
    decreases ty,
{
    is_unsafe_node(ty) || (match ty.kind {
        HirTyKind::Slice(s) => holds_unsafe(*s),
        HirTyKind::Array(s) => holds_unsafe(*s),
        HirTyKind::Rptr(s) => holds_unsafe(*s),
        HirTyKind::BareFn { is_unsafe, inputs, output } => any_holds_unsafe(inputs@) || (match output {
            Some(o) => holds_unsafe(*o),
            None => false,
        }),
        HirTyKind::Tup(v) => any_holds_unsafe(v@),
        HirTyKind::PathResolved(o, args) => (match o {
            Some(q) => holds_unsafe(*q),
            None => false,
        }) || any_holds_unsafe(args@),
        HirTyKind::PathTypeRelative(b, args) => holds_unsafe(*b) || any_holds_unsafe(args@),
        HirTyKind::TraitObject(args) => any_holds_unsafe(args@),
        _ => false,
    })
}

/// Whether some type of `tys` holds an unsafe type.
pub open spec fn any_holds_unsafe(tys: Seq<HirTy>) -> bool
    decreases tys,
{
    if tys.len() == 0 {
        false
    } else {
        holds_unsafe(tys[0]) || any_holds_unsafe(tys.subrange(1, tys.len() as int))
    }
}

/// A parameter type gives a reason exactly when a raw pointer or an unsafe
/// function pointer occurs anywhere in it, and the reason found is such a
/// type.
pub proof fn unsafe_type_found_iff_present(ty: HirTy)
    ensures
        unsafe_type_in(ty) is Some <==> holds_unsafe(ty),
        unsafe_type_in(ty) matches Some(t) ==> is_unsafe_node(t),
    decreases ty,
{
    match ty.kind {
        HirTyKind::Slice(s) => unsafe_type_found_iff_present(*s),
        HirTyKind::Array(s) => unsafe_type_found_iff_present(*s),
        HirTyKind::Rptr(s) => unsafe_type_found_iff_present(*s),
        HirTyKind::BareFn { is_unsafe, inputs, output } => {
            unsafe_type_list_found_iff_present(inputs@);
            match output {
                Some(o) => unsafe_type_found_iff_present(*o),
                None => {},
            }
        },
        HirTyKind::Tup(v) => unsafe_type_list_found_iff_present(v@),
        HirTyKind::PathResolved(o, args) => {
            match o {
                Some(q) => unsafe_type_found_iff_present(*q),
                None => {},
            }
            unsafe_type_list_found_iff_present(args@);
        },
        HirTyKind::PathTypeRelative(b, args) => {
            unsafe_type_found_iff_present(*b);
            unsafe_type_list_found_iff_present(args@);
        },
        HirTyKind::TraitObject(args) => unsafe_type_list_found_iff_present(args@),
        _ => {},
    }
}

/// A list of types gives a reason exactly when one of them holds an unsafe
/// type, and the reason found is such a type.
pub proof fn unsafe_type_list_found_iff_present(tys: Seq<HirTy>)
    ensures
        unsafe_type_in_list(tys) is Some <==> any_holds_unsafe(tys),
        unsafe_type_in_list(tys) matches Some(t) ==> is_unsafe_node(t),
    decreases tys,
{
    if tys.len() > 0 {
        unsafe_type_found_iff_present(tys[0]);
        unsafe_type_list_found_iff_present(tys.subrange(1, tys.len() as int));
    }
}

/// An array is searched as a slice of the same element type is: the same
/// unsafe type is found in both.
pub proof fn arrays_searched_like_slices(array: HirTy, slice: HirTy)
    requires
        array.kind matches HirTyKind::Array(a) && slice.kind matches HirTyKind::Slice(b) && *a == *b,
    ensures
        unsafe_type_in(array) == unsafe_type_in(slice),
{
}

/// The first raw pointer or unsafe function pointer type met in a
/// left-to-right walk of `ty`: a raw pointer anywhere in it, behind
/// references, in generic arguments, in function parameter and output
/// types and in trait objects, is found.
pub open spec fn unsafe_type_in(ty: HirTy) -> Option<HirTy>
    decreases ty,
{
    match ty.kind {
        HirTyKind::Slice(s) => unsafe_type_in(*s),
        HirTyKind::Array(s) => unsafe_type_in(*s),
        HirTyKind::Ptr => Some(ty),
        HirTyKind::Rptr(s) => unsafe_type_in(*s),
        HirTyKind::BareFn { is_unsafe, inputs, output } => {
            if is_unsafe {
                Some(ty)
            } else {
                match unsafe_type_in_list(inputs@) {
                    Some(t) => Some(t),
                    None => match output {
                        Some(o) => unsafe_type_in(*o),
                        None => None,
                    },
                }
            }
        },
        HirTyKind::Tup(v) => unsafe_type_in_list(v@),
        HirTyKind::PathResolved(o, args) => match o {
            Some(s) => match unsafe_type_in(*s) {
                Some(t) => Some(t),
                None => unsafe_type_in_list(args@),
            },
            None => unsafe_type_in_list(args@),
        },
        HirTyKind::PathTypeRelative(s, args) => match unsafe_type_in(*s) {
            Some(t) => Some(t),
            None => unsafe_type_in_list(args@),
        },
        HirTyKind::TraitObject(args) => unsafe_type_in_list(args@),
        _ => None,
    }
}

/// The first unsafe type found in the first type of `tys` that holds one.
pub open spec fn unsafe_type_in_list(tys: Seq<HirTy>) -> Option<HirTy>
    decreases tys,
{
    if tys.len() == 0 {
        None
    } else {
        match unsafe_type_in(tys[0]) {
            Some(t) => Some(t),
            None => unsafe_type_in_list(tys.subrange(1, tys.len() as int)),
        }
    }
}

/// The kind of an offending type.
pub open spec fn argument_kind_of(ty: HirTy) -> ArgumentKind {
    match ty.kind {
        HirTyKind::Ptr => ArgumentKind::RawPointer,
        _ => ArgumentKind::UnsafeFunction,
    }
}

/// The offending type found in `ty` and the kind of the offence.
pub fn find_unsafe_type(ty: &HirTy) -> (r: Option<&HirTy>)
    ensures
        match r {
            Some(t) => unsafe_type_in(*ty) == Some(*t),
            None => unsafe_type_in(*ty) is None,
        },
    decreases ty,
{
    match &ty.kind {
        HirTyKind::Slice(s) => find_unsafe_type(s),
        HirTyKind::Array(s) => find_unsafe_type(s),
        HirTyKind::Ptr => Some(ty),
        HirTyKind::Rptr(s) => find_unsafe_type(s),
        HirTyKind::BareFn { is_unsafe, inputs, output } => {
            if *is_unsafe {
                Some(ty)
            } else {
                let found = find_unsafe_type_in_list(inputs);
                if found.is_some() {
                    found
                } else {
                    match output {
                        Some(o) => find_unsafe_type(o),
                        None => None,
                    }
                }
            }
        },
        HirTyKind::Tup(v) => find_unsafe_type_in_list(v),
        HirTyKind::PathResolved(o, args) => {
            let found = match o {
                Some(s) => find_unsafe_type(s),
                None => None,
            };
            if found.is_some() {
                found
            } else {
                find_unsafe_type_in_list(args)
            }
        },
        HirTyKind::PathTypeRelative(s, args) => {
            let found = find_unsafe_type(s);
            if found.is_some() {
                found
            } else {
                find_unsafe_type_in_list(args)
            }
        },
        HirTyKind::TraitObject(args) => find_unsafe_type_in_list(args),
        HirTyKind::Never => None,
        HirTyKind::Typeof => None,
        HirTyKind::Infer => None,
        HirTyKind::Error => None,
    }
}

/// The offending type found in the first type of `array` that holds one.
pub fn find_unsafe_type_in_list(array: &Vec<HirTy>) -> (r: Option<&HirTy>)
    ensures
        match r {
            Some(t) => unsafe_type_in_list(array@) == Some(*t),
            None => unsafe_type_in_list(array@) is None,
        },
    decreases array,
{
    let mut i: usize = 0;
    assert(array@.subrange(0, array@.len() as int) =~= array@);
    while i < array.len()
        invariant
            i <= array.len(),
            unsafe_type_in_list(array@) == unsafe_type_in_list(
                array@.subrange(i as int, array@.len() as int),
            ),
        decreases array.len() - i,
    {
        let rest = Ghost(array@.subrange(i as int, array@.len() as int));
        assert(rest@[0] == array@[i as int]);
        assert(rest@.subrange(1, rest@.len() as int) =~= array@.subrange(
            i + 1,
            array@.len() as int,
        ));
        proof {
            assert(decreases_to!(array => array@));
            assert(decreases_to!(array@ => array@[i as int]));
        }
        let found = find_unsafe_type(&array[i]);
        if found.is_some() {
            return found;
        }
        i = i + 1;
    }
    None
}

/// The unsafe parameter found in the type `ty`, if any.
pub fn process_type(ty: &HirTy) -> (r: Option<Argument>)
    ensures
        match unsafe_type_in(*ty) {
            Some(t) => r == Some(Argument { ty_node_id: t.id, kind: argument_kind_of(t) }),
            None => r is None,
        },
{
    match find_unsafe_type(ty) {
        Some(t) => {
            let kind = match &t.kind {
                HirTyKind::Ptr => ArgumentKind::RawPointer,
                _ => ArgumentKind::UnsafeFunction,
            };
            Some(Argument { ty_node_id: t.id, kind })
        },
        None => None,
    }
}

/// The unsafe parameter found in the first type of `array` that holds one.
pub fn process_ty_array(array: &Vec<HirTy>) -> (r: Option<Argument>)
    ensures
        match unsafe_type_in_list(array@) {
            Some(t) => r == Some(Argument { ty_node_id: t.id, kind: argument_kind_of(t) }),
            None => r is None,
        },
{
    match find_unsafe_type_in_list(array) {
        Some(t) => {
            let kind = match &t.kind {
                HirTyKind::Ptr => ArgumentKind::RawPointer,
                _ => ArgumentKind::UnsafeFunction,
            };
            Some(Argument { ty_node_id: t.id, kind })
        },
        None => None,
    }
}

/// The reasons why a function declared unsafe is unsafe: its declaration
/// id and the unsafe types among its parameters.
pub struct UnsafeFnUsafetyAnalysis {
    pub decl_id: u32,
    pub arguments: Vec<Argument>,
}

/// The reasons given by a list of parameter types, one per type that holds
/// an unsafe type, in order.
pub open spec fn parameter_reasons(inputs: Seq<HirTy>) -> Seq<(u32, ArgumentKind)>
    decreases inputs.len(),
{
    if inputs.len() == 0 {
        Seq::empty()
    } else {
        let prev = parameter_reasons(inputs.drop_last());
        match unsafe_type_in(inputs.last()) {
            Some(t) => prev.push((t.id, argument_kind_of(t))),
            None => prev,
        }
    }
}

/// The content of a list of reasons.
pub open spec fn reasons_view(v: Seq<Argument>) -> Seq<(u32, ArgumentKind)> {
    v.map_values(|a: Argument| (a.ty_node_id, a.kind))
}

impl UnsafeFnUsafetyAnalysis {
    pub fn new(decl_id: u32) -> (r: Self)
        ensures
            r.decl_id == decl_id,
            r.arguments@.len() == 0,
    {
        UnsafeFnUsafetyAnalysis { decl_id, arguments: Vec::new() }
    }

    /// Records the reasons given by the parameter types `inputs` of the
    /// declaration (none when the declaration was not found).
    pub fn process_fn_decl(&mut self, inputs: Option<&Vec<HirTy>>)
        ensures
            final(self).decl_id == old(self).decl_id,
            reasons_view(final(self).arguments@) == reasons_view(old(self).arguments@) + match inputs {
                Some(v) => parameter_reasons(v@),
                None => Seq::empty(),
            },
    {
        let ghost start = reasons_view(self.arguments@);
        match inputs {
            Some(v) => {
                let mut i: usize = 0;
                assert(start + parameter_reasons(v@.take(0)) =~= start);
                while i < v.len()
                    invariant
                        i <= v.len(),
                        self.decl_id == old(self).decl_id,
                        start == reasons_view(old(self).arguments@),
                        reasons_view(self.arguments@) == start + parameter_reasons(v@.take(i as int)),
                    decreases v.len() - i,
                {
                    assert(v@.take(i + 1).drop_last() =~= v@.take(i as int));
                    assert(v@.take(i + 1).last() == v@[i as int]);
                    let ghost before = self.arguments@;
                    match process_type(&v[i]) {
                        Some(reason) => {
                            self.arguments.push(reason);
                            assert(reasons_view(self.arguments@) =~= reasons_view(before).push(
                                (reason.ty_node_id, reason.kind),
                            ));
                        },
                        None => {},
                    }
                    i = i + 1;
                }
                assert(v@.take(v.len() as int) =~= v@);
            },
            None => {
                assert(start + Seq::<(u32, ArgumentKind)>::empty() =~= start);
            },
        }
    }
}

} // verus!
