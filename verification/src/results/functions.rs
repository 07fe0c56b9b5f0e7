//! Per-function records: long and short descriptions, counts, the reasons
//! why a function is declared unsafe, and the calls into other crates.
use vstd::prelude::*;
use crate::results::unsafety_sources::Source;

verus! {

/// The character content of a list of (name, node id) pairs.
pub open spec fn pairs_view(v: Seq<(String, String)>) -> Seq<(Seq<char>, Seq<char>)> {
    v.map_values(|p: (String, String)| (p.0@, p.1@))
}

/// The character content of a list of (crate, called functions) groups.
pub open spec fn groups_view(v: Seq<(String, Vec<String>)>) -> Seq<(Seq<char>, Seq<Seq<char>>)> {
    v.map_values(|p: (String, Vec<String>)| (p.0@, p.1@.map_values(|s: String| s@)))
}

/// A function with its location, the local functions it calls (name, node
/// id) and the functions of other crates it calls, grouped by crate.
pub struct LongFnInfo {
    name: String,
    node_id: String,
    location: String,
    local_calls: Vec<(String, String)>,
    external_calls: Vec<(String, Vec<String>)>,
}

impl LongFnInfo {
    pub closed spec fn spec_name(&self) -> Seq<char> {
        self.name@
    }

    pub closed spec fn spec_node_id(&self) -> Seq<char> {
        self.node_id@
    }

    pub closed spec fn spec_location(&self) -> Seq<char> {
        self.location@
    }

    pub closed spec fn spec_local_calls(&self) -> Seq<(Seq<char>, Seq<char>)> {
        pairs_view(self.local_calls@)
    }

    pub closed spec fn spec_external_calls(&self) -> Seq<(Seq<char>, Seq<Seq<char>>)> {
        groups_view(self.external_calls@)
    }

    pub fn new(
        name: String,
        node_id: String,
        location: String,
        local_calls: Vec<(String, String)>,
        external_calls: Vec<(String, Vec<String>)>,
    ) -> (r: Self)
        ensures
            r.spec_name() == name@,
            r.spec_node_id() == node_id@,
            r.spec_location() == location@,
            r.spec_local_calls() == pairs_view(local_calls@),
            r.spec_external_calls() == groups_view(external_calls@),
    {
        LongFnInfo { name, node_id, location, local_calls, external_calls }
    }

    pub fn name(&self) -> (r: &String)
        ensures
            r@ == self.spec_name(),
    {
        &self.name
    }

    pub fn node_id(&self) -> (r: &String)
        ensures
            r@ == self.spec_node_id(),
    {
        &self.node_id
    }

    pub fn location(&self) -> (r: &String)
        ensures
            r@ == self.spec_location(),
    {
        &self.location
    }

    pub fn local_calls(&self) -> (r: &Vec<(String, String)>)
        ensures
            pairs_view(r@) == self.spec_local_calls(),
    {
        &self.local_calls
    }

    pub fn external_calls(&self) -> (r: &Vec<(String, Vec<String>)>)
        ensures
            groups_view(r@) == self.spec_external_calls(),
    {
        &self.external_calls
    }
}

/// A function with its node id and location.
pub struct ShortFnInfo {
    name: String,
    node_id: String,
    location: String,
}

impl ShortFnInfo {
    pub closed spec fn spec_name(&self) -> Seq<char> {
        self.name@
    }

    pub closed spec fn spec_node_id(&self) -> Seq<char> {
        self.node_id@
    }

    pub closed spec fn spec_location(&self) -> Seq<char> {
        self.location@
    }

    pub fn new(name: String, node_id: String, location: String) -> (r: Self)
        ensures
            r.spec_name() == name@,
            r.spec_node_id() == node_id@,
            r.spec_location() == location@,
    {
        ShortFnInfo { name, node_id, location }
    }

    pub fn name(&self) -> (r: &String)
        ensures
            r@ == self.spec_name(),
    {
        &self.name
    }

    pub fn node_id(&self) -> (r: &String)
        ensures
            r@ == self.spec_node_id(),
    {
        &self.node_id
    }

    pub fn location(&self) -> (r: &String)
        ensures
            r@ == self.spec_location(),
    {
        &self.location
    }
}

/// How many functions of a crate are unsafe, out of how many.
pub struct Summary {
    unsafe_no: usize,
    total: usize,
}

impl Summary {
    pub closed spec fn spec_unsafe_no(&self) -> usize {
        self.unsafe_no
    }

    pub closed spec fn spec_total(&self) -> usize {
        self.total
    }

    pub fn new(unsafe_no: usize, total: usize) -> (r: Self)
        ensures
            r.spec_unsafe_no() == unsafe_no,
            r.spec_total() == total,
    {
        Summary { unsafe_no, total }
    }

    pub fn unsafe_no(&self) -> (r: usize)
        ensures
            r == self.spec_unsafe_no(),
    {
        self.unsafe_no
    }

    pub fn total(&self) -> (r: usize)
        ensures
            r == self.spec_total(),
    {
        self.total
    }
}

/// Why a function declared unsafe is unsafe: its name, whether the
/// signature comes from an unsafe trait method, its unsafe parameters and
/// the unsafe operations in its body.
pub struct UnsafeFnUsafetySources {
    name: String,
    from_trait: bool,
    arguments: Vec<Argument>,
    sources: Vec<Source>,
}

/// A parameter whose type makes a function unsafe: the type as text and the
/// kind of unsafety.
pub struct Argument {
    type_info: String,
    kind: ArgumentKind,
}

/// The kind of an unsafe parameter type.
#[derive(Clone, Copy, PartialEq, Eq, Structural, Debug)]
pub enum ArgumentKind {
    RawPointer,
    UnsafeFunction,
}

impl Argument {
    pub closed spec fn spec_type_info(&self) -> Seq<char> {
        self.type_info@
    }

    pub closed spec fn spec_kind(&self) -> ArgumentKind {
        self.kind
    }

    pub fn new(type_info: String, kind: ArgumentKind) -> (r: Self)
        ensures
            r.spec_type_info() == type_info@,
            r.spec_kind() == kind,
    {
        Self { type_info, kind }
    }

    pub fn type_info(&self) -> (r: &String)
        ensures
            r@ == self.spec_type_info(),
    {
        &self.type_info
    }

    pub fn kind(&self) -> (r: ArgumentKind)
        ensures
            r == self.spec_kind(),
    {
        self.kind
    }
}

impl UnsafeFnUsafetySources {
    pub closed spec fn spec_name(&self) -> Seq<char> {
        self.name@
    }

    pub closed spec fn spec_from_trait(&self) -> bool {
        self.from_trait
    }

    pub closed spec fn spec_arguments(&self) -> Seq<Argument> {
        self.arguments@
    }

    pub closed spec fn spec_sources(&self) -> Seq<Source> {
        self.sources@
    }

    pub fn name(&self) -> (r: &String)
        ensures
            r@ == self.spec_name(),
    {
        &self.name
    }

    pub fn from_trait(&self) -> (r: bool)
        ensures
            r == self.spec_from_trait(),
    {
        self.from_trait
    }

    pub fn arguments(&self) -> (r: &Vec<Argument>)
        ensures
            r@ == self.spec_arguments(),
    {
        &self.arguments
    }

    pub fn sources(&self) -> (r: &Vec<Source>)
        ensures
            r@ == self.spec_sources(),
    {
        &self.sources
    }

    /// The record of the function `name`, with no reason found yet.
    pub fn new(name: String, from_trait: bool) -> (r: Self)
        ensures
            r.spec_name() == name@,
            r.spec_from_trait() == from_trait,
            r.spec_arguments() == Seq::<Argument>::empty(),
            r.spec_sources() == Seq::<Source>::empty(),
    {
        UnsafeFnUsafetySources { name, from_trait, arguments: Vec::new(), sources: Vec::new() }
    }

    pub fn add_argument(&mut self, arg: Argument)
        ensures
            final(self).spec_name() == old(self).spec_name(),
            final(self).spec_from_trait() == old(self).spec_from_trait(),
            final(self).spec_arguments() == old(self).spec_arguments().push(arg),
            final(self).spec_sources() == old(self).spec_sources(),
    {
        self.arguments.push(arg);
    }

    pub fn add_source(&mut self, source: Source)
        ensures
            final(self).spec_name() == old(self).spec_name(),
            final(self).spec_from_trait() == old(self).spec_from_trait(),
            final(self).spec_arguments() == old(self).spec_arguments(),
            final(self).spec_sources() == old(self).spec_sources().push(source),
    {
        self.sources.push(source);
    }

    /// No reason for the unsafety was found: no unsafe parameter, no unsafe
    /// operation in the body, and the signature does not come from a trait.
    pub fn has_no_reason(&self) -> (r: bool)
        ensures
            r == (self.spec_arguments().len() == 0 && self.spec_sources().len() == 0
                && !self.spec_from_trait()),
    {
        self.arguments.len() == 0 && self.sources.len() == 0 && !self.from_trait
    }
}

/// The calls of a crate into other crates, by function name, with counts.
pub struct ExternalCallsSummary {
    calls: Vec<(String, usize)>,
}

/// The character content of a list of (name, count) pairs.
pub open spec fn counts_view(v: Seq<(String, usize)>) -> Seq<(Seq<char>, usize)> {
    v.map_values(|p: (String, usize)| (p.0@, p.1))
}

impl ExternalCallsSummary {
    pub closed spec fn spec_calls(&self) -> Seq<(Seq<char>, usize)> {
        counts_view(self.calls@)
    }

    pub fn new() -> (r: Self)
        ensures
            r.spec_calls() == Seq::<(Seq<char>, usize)>::empty(),
    {
        let r = ExternalCallsSummary { calls: Vec::new() };
        assert(counts_view(r.calls@) =~= Seq::<(Seq<char>, usize)>::empty());
        r
    }

    pub fn push(&mut self, fn_name: String, count: usize)
        ensures
            final(self).spec_calls() == old(self).spec_calls().push((fn_name@, count)),
    {
        let ghost before = self.calls@;
        self.calls.push((fn_name, count));
        assert(counts_view(self.calls@) =~= counts_view(before).push((fn_name@, count)));
    }

    pub fn calls(&self) -> (r: &Vec<(String, usize)>)
        ensures
            counts_view(r@) == self.spec_calls(),
    {
        &self.calls
    }
}

} // verus!
