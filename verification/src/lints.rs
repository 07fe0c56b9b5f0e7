//! The lint pass that collects the calls a crate makes into other crates,
//! and the crates it calls into.
use vstd::prelude::*;
use crate::hidden::fn_info::recording_keeps_items_distinct;

verus! {

/// The number of the crate under analysis.
pub const LOCAL_CRATE: u32 = 0;

/// The path of a definition: the crate it belongs to and its path within it.
pub struct DefPath {
    pub krate: u32,
    pub data: String,
}

/// The content of a called definition with its receiver.
pub open spec fn call_view(c: (DefPath, Option<String>)) -> (u32, Seq<char>, Option<Seq<char>>) {
    (c.0.krate, c.0.data@, match c.1 {
        Some(s) => Some(s@),
        None => None,
    })
}

/// The contents of a list of calls.
pub open spec fn calls_view(v: Seq<(DefPath, Option<String>)>) -> Seq<(u32, Seq<char>, Option<Seq<char>>)> {
    v.map_values(|c: (DefPath, Option<String>)| call_view(c))
}

/// What the callee of a call expression resolves to.
pub enum CalleeDef {
    Fn(DefPath),
    Method(DefPath),
    VariantCtor,
    Other,
}

/// The callee of a call expression: a path and what it resolves to, or
/// another expression.
pub enum Callee {
    Path(CalleeDef),
    NotPath,
}

/// What the first argument of a method call resolves to when it is a path:
/// a local variable (by its path) or something else.
pub enum ArgDef {
    Local(String),
    Other,
}

/// The first argument of a method call: a path, or another expression.
pub enum MethodArg {
    Path(ArgDef),
    NotPath,
}

/// An expression, as far as calls go.
pub enum Expr {
    Call(Callee),
    /// A method call: the method it resolves to (when it resolves to a
    /// method) and its first argument.
    MethodCall { method: Option<DefPath>, first_arg: MethodArg },
    Other,
}

/// The definition called by an expression and, for a method called on a
/// local variable, that variable's path: a call of a path to a function or
/// method; a method call on a local variable.
pub open spec fn called_def(expr: Expr) -> Option<(u32, Seq<char>, Option<Seq<char>>)> {
    match expr {
        Expr::Call(Callee::Path(CalleeDef::Fn(p))) => Some((p.krate, p.data@, None)),
        Expr::Call(Callee::Path(CalleeDef::Method(p))) => Some((p.krate, p.data@, None)),
        Expr::MethodCall { method: Some(p), first_arg: MethodArg::Path(ArgDef::Local(s)) } => Some(
            (p.krate, p.data@, Some(s@)),
        ),
        _ => None,
    }
}

fn clone_path(p: &DefPath) -> (r: DefPath)
    ensures
        r.krate == p.krate,
        r.data@ == p.data@,
{
    DefPath { krate: p.krate, data: p.data.clone() }
}

/// The definition called by `expr`, with the path of the local variable a
/// method is called on.
pub fn find_called_def(expr: &Expr) -> (r: Option<(DefPath, Option<String>)>)
    ensures
        match r {
            Some(c) => called_def(*expr) == Some(call_view(c)),
            None => called_def(*expr) is None,
        },
{
    match expr {
        Expr::Call(callee) => match callee {
            Callee::Path(def) => match def {
                CalleeDef::Fn(p) => Some((clone_path(p), None)),
                CalleeDef::Method(p) => Some((clone_path(p), None)),
                CalleeDef::VariantCtor => None,
                CalleeDef::Other => None,
            },
            Callee::NotPath => None,
        },
        Expr::MethodCall { method, first_arg } => match method {
            Some(p) => match first_arg {
                MethodArg::Path(ArgDef::Local(s)) => Some((clone_path(p), Some(s.clone()))),
                MethodArg::Path(ArgDef::Other) => None,
                MethodArg::NotPath => None,
            },
            None => None,
        },
        Expr::Other => None,
    }
}

/// The crates called into and the definitions called in them, each recorded
/// once, in the order first met.
pub struct ExternalCalls {
    external_crates: Vec<u32>,
    external_calls: Vec<(DefPath, Option<String>)>,
}

impl ExternalCalls {
    pub closed spec fn spec_crates(&self) -> Seq<u32> {
        self.external_crates@
    }

    pub closed spec fn spec_calls(&self) -> Seq<(u32, Seq<char>, Option<Seq<char>>)> {
        calls_view(self.external_calls@)
    }

    pub fn new() -> (r: Self)
        ensures
            r.spec_crates().len() == 0,
            r.spec_calls().len() == 0,
            r.spec_crates().no_duplicates(),
            r.spec_calls().no_duplicates(),
    {
        ExternalCalls { external_crates: Vec::new(), external_calls: Vec::new() }
    }

    pub fn add_crate(&mut self, krate: u32)
        ensures
            final(self).spec_calls() == old(self).spec_calls(),
            if old(self).spec_crates().contains(krate) {
                final(self).spec_crates() == old(self).spec_crates()
            } else {
                final(self).spec_crates() == old(self).spec_crates().push(krate)
            },
            old(self).spec_crates().no_duplicates() ==> final(self).spec_crates().no_duplicates(),
    {
        proof {
            if self.external_crates@.no_duplicates() {
                recording_keeps_items_distinct(self.external_crates@, krate);
            }
        }
        if !crate::hidden::analysis::id_in(&self.external_crates, krate) {
            self.external_crates.push(krate);
        }
    }

    pub fn add_def_id(&mut self, def_path: DefPath, ty: Option<String>)
        ensures
            final(self).spec_crates() == old(self).spec_crates(),
            if old(self).spec_calls().contains(call_view((def_path, ty))) {
                final(self).spec_calls() == old(self).spec_calls()
            } else {
                final(self).spec_calls() == old(self).spec_calls().push(call_view((def_path, ty)))
            },
            old(self).spec_calls().no_duplicates() ==> final(self).spec_calls().no_duplicates(),
    {
        let ghost c = call_view((def_path, ty));
        let ghost v = calls_view(self.external_calls@);
        proof {
            if v.no_duplicates() {
                recording_keeps_items_distinct(v, c);
            }
        }
        let mut found = false;
        let mut i: usize = 0;
        while i < self.external_calls.len()
            invariant
                i <= self.external_calls.len(),
                v == calls_view(self.external_calls@),
                c == call_view((def_path, ty)),
                found <==> exists|k: int| 0 <= k < i && #[trigger] v[k] == c,
            decreases self.external_calls.len() - i,
        {
            let e = &self.external_calls[i];
            assert(v[i as int] == call_view(self.external_calls@[i as int]));
            let same_ty = match (&e.1, &ty) {
                (Some(a), Some(b)) => *a == *b,
                (None, None) => true,
                _ => false,
            };
            let same = e.0.krate == def_path.krate && e.0.data == def_path.data && same_ty;
            assert(same == (v[i as int] == c));
            if same {
                found = true;
            }
            i = i + 1;
        }
        if !found {
            self.external_calls.push((def_path, ty));
            assert(calls_view(self.external_calls@) =~= v.push(c));
            proof {
                if v.contains(c) {
                    let k = choose|k: int| 0 <= k < v.len() && v[k] == c;
                    assert(v[k] == c);
                }
            }
        } else {
            proof {
                let k = choose|k: int| 0 <= k < i && #[trigger] v[k] == c;
                assert(v.contains(c));
            }
        }
    }

    /// Records the definition called by `expr` when it belongs to another
    /// crate: that crate, and the call.
    pub fn check_expr(&mut self, expr: &Expr)
        ensures
            match called_def(*expr) {
                Some(c) => if c.0 != LOCAL_CRATE {
                    (if old(self).spec_crates().contains(c.0) {
                        final(self).spec_crates() == old(self).spec_crates()
                    } else {
                        final(self).spec_crates() == old(self).spec_crates().push(c.0)
                    }) && (if old(self).spec_calls().contains(c) {
                        final(self).spec_calls() == old(self).spec_calls()
                    } else {
                        final(self).spec_calls() == old(self).spec_calls().push(c)
                    })
                } else {
                    final(self).spec_crates() == old(self).spec_crates() && final(self).spec_calls()
                        == old(self).spec_calls()
                },
                None => final(self).spec_crates() == old(self).spec_crates() && final(self).spec_calls() == old(self).spec_calls(),
            },
            old(self).spec_crates().no_duplicates() ==> final(self).spec_crates().no_duplicates(),
            old(self).spec_calls().no_duplicates() ==> final(self).spec_calls().no_duplicates(),
    {
        match find_called_def(expr) {
            Some((path, ty)) => {
                if path.krate != LOCAL_CRATE {
                    self.add_crate(path.krate);
                    self.add_def_id(path, ty);
                }
            },
            None => {},
        }
    }

    /// The crates called into, in the order first met.
    pub fn external_crates(&self) -> (r: &Vec<u32>)
        ensures
            r@ == self.spec_crates(),
    {
        &self.external_crates
    }

    /// The calls recorded into crate `krate`, in order: what is printed for it.
    pub fn calls_into(&self, krate: u32) -> (r: Vec<(String, Option<String>)>)
        ensures
            printed_view(krate, r@) == crate_calls(self.spec_calls(), krate),
    {
        let ghost all = calls_view(self.external_calls@);
        let mut r: Vec<(String, Option<String>)> = Vec::new();
        let mut i: usize = 0;
        while i < self.external_calls.len()
            invariant
                i <= self.external_calls.len(),
                all == calls_view(self.external_calls@),
                printed_view(krate, r@) == crate_calls(all.take(i as int), krate),
            decreases self.external_calls.len() - i,
        {
            assert(all.take(i + 1).drop_last() =~= all.take(i as int));
            assert(all.take(i + 1).last() == all[i as int]);
            let e = &self.external_calls[i];
            assert(all[i as int] == call_view(self.external_calls@[i as int]));
            if e.0.krate == krate {
                let t = match &e.1 {
                    Some(s) => Some(s.clone()),
                    None => None,
                };
                let d = e.0.data.clone();
                let ghost before = r@;
                r.push((d, t));
                assert(printed_view(krate, r@) =~= printed_view(krate, before).push(
                    printed_call(krate, (d, t)),
                ));
                assert(printed_call(krate, (d, t)) == all[i as int]);
            }
            i = i + 1;
        }
        assert(all.take(self.external_calls.len() as int) =~= all);
        r
    }
}

/// The calls of a list into crate `krate`, in order.
pub open spec fn crate_calls(v: Seq<(u32, Seq<char>, Option<Seq<char>>)>, krate: u32) -> Seq<(u32, Seq<char>, Option<Seq<char>>)>
    decreases v.len(),
{
    if v.len() == 0 {
        Seq::empty()
    } else if v.last().0 == krate {
        crate_calls(v.drop_last(), krate).push(v.last())
    } else {
        crate_calls(v.drop_last(), krate)
    }
}

/// The content of a printed call into crate `krate`.
pub open spec fn printed_call(krate: u32, c: (String, Option<String>)) -> (u32, Seq<char>, Option<Seq<char>>) {
    (krate, c.0@, match c.1 {
        Some(s) => Some(s@),
        None => None,
    })
}

/// The contents of the printed calls into crate `krate`.
pub open spec fn printed_view(krate: u32, v: Seq<(String, Option<String>)>) -> Seq<(u32, Seq<char>, Option<Seq<char>>)> {
    v.map_values(|c: (String, Option<String>)| printed_call(krate, c))
}

} // verus!
