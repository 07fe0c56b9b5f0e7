//! The lint pass that collects, by name, the functions of other crates that
//! a crate calls, and the crates it calls into: a call of a path is named by
//! the path as written, a call of `<Type>::f` by the type and `f`, and a
//! method call by the receiver's type and the method.
use vstd::prelude::*;
use crate::hidden::fn_info::recording_keeps_items_distinct;

verus! {

/// What the path of a called expression resolves to: a function or method
/// (with its crate and whether it is of the crate under analysis), a variant
/// constructor, or something else.
pub enum CallDef {
    FnOrMethod { krate: u32, is_local: bool },
    VariantCtor,
    Other,
}

/// The path of a called expression as written: a resolved path, with or
/// without a qualified self type, printed; or `<Type>::name`, with the type
/// printed and the name of the segment.
pub enum QPath {
    Resolved { has_qself: bool, path: String },
    TypeRelative { ty: String, segment: String },
}

/// The callee of a call expression: a path (what it resolves to and how it
/// is written), or another expression.
pub enum CallCallee {
    Path { def: CallDef, qpath: QPath },
    NotPath,
}

/// The type of the receiver of a method call, after adjustment, printed: a
/// reference, by its referent, or another type.
pub enum ReceiverTy {
    Ref(String),
    Plain(String),
}

/// An expression, as far as the lint looks at it: a call, a method call
/// (the crate of the method it resolves to and whether that method is local,
/// when it resolves to a method; the receiver's type; the method's name), or
/// anything else.
pub enum Expr {
    Call(CallCallee),
    MethodCall { method: Option<(u32, bool)>, receiver: ReceiverTy, segment: String },
    Other,
}

/// The printed type of a receiver: the referent of a reference.
pub open spec fn receiver_text(r: ReceiverTy) -> Seq<char> {
    match r {
        ReceiverTy::Ref(s) => s@,
        ReceiverTy::Plain(s) => s@,
    }
}

/// The call of another crate's function that an expression makes, with its
/// crate and the name under which it is recorded.
pub open spec fn called_name(expr: Expr) -> Option<(u32, Seq<char>)> {
    match expr {
        Expr::Call(CallCallee::Path { def: CallDef::FnOrMethod { krate, is_local }, qpath }) => {
            if is_local {
                None
            } else {
                match qpath {
                    QPath::Resolved { has_qself, path } => if has_qself {
                        None
                    } else {
                        Some((krate, path@))
                    },
                    QPath::TypeRelative { ty, segment } => Some((krate, ty@ + "::"@ + segment@)),
                }
            }
        },
        Expr::MethodCall { method: Some((krate, is_local)), receiver, segment } => if is_local {
            None
        } else {
            Some((krate, receiver_text(receiver) + "::"@ + segment@))
        },
        _ => None,
    }
}

/// The calls recorded by name: the crates called into, in the order first
/// met, and the calls, each name recorded once with the crate of its first
/// call.
pub struct ExternalCalls {
    external_crates: Vec<u32>,
    external_calls: Vec<(u32, String)>,
}

/// The character content of a list of calls.
pub open spec fn named_view(v: Seq<(u32, String)>) -> Seq<(u32, Seq<char>)> {
    v.map_values(|p: (u32, String)| (p.0, p.1@))
}

/// Some recorded call has the name `name`.
pub open spec fn has_name(calls: Seq<(u32, Seq<char>)>, name: Seq<char>) -> bool {
    exists|j: int| 0 <= j < calls.len() && (#[trigger] calls[j]).1 == name
}

/// The names of the calls of a list into crate `krate`, in order.
pub open spec fn names_into(calls: Seq<(u32, Seq<char>)>, krate: u32) -> Seq<Seq<char>>
    decreases calls.len(),
{
    if calls.len() == 0 {
        Seq::empty()
    } else if calls.last().0 == krate {
        names_into(calls.drop_last(), krate).push(calls.last().1)
    } else {
        names_into(calls.drop_last(), krate)
    }
}

/// The names of a list of calls.
pub open spec fn call_names(calls: Seq<(u32, Seq<char>)>) -> Seq<Seq<char>> {
    calls.map_values(|c: (u32, Seq<char>)| c.1)
}

impl ExternalCalls {
    pub closed spec fn spec_crates(&self) -> Seq<u32> {
        self.external_crates@
    }

    pub closed spec fn spec_calls(&self) -> Seq<(u32, Seq<char>)> {
        named_view(self.external_calls@)
    }

    pub fn new() -> (r: Self)
        ensures
            r.spec_crates() == Seq::<u32>::empty(),
            r.spec_calls() == Seq::<(u32, Seq<char>)>::empty(),
    {
        let r = ExternalCalls { external_crates: Vec::new(), external_calls: Vec::new() };
        assert(named_view(r.external_calls@) =~= Seq::<(u32, Seq<char>)>::empty());
        r
    }

    /// Records the crate `krate`, unless recorded before.
    pub fn add_crate(&mut self, krate: u32)
        ensures
            final(self).spec_calls() == old(self).spec_calls(),
            if old(self).spec_crates().contains(krate) {
                final(self).spec_crates() == old(self).spec_crates()
            } else {
                final(self).spec_crates() == old(self).spec_crates().push(krate)
            },
            old(self).spec_crates().no_duplicates() ==> final(self).spec_crates().no_duplicates(),
    {
        proof {
            if self.external_crates@.no_duplicates() {
                recording_keeps_items_distinct(self.external_crates@, krate);
            }
        }
        if !crate::hidden::analysis::id_in(&self.external_crates, krate) {
            self.external_crates.push(krate);
        }
    }

    /// Records the crate `krate`, and the call of `func` in it unless a call
    /// of that name was recorded before (in any crate).
    pub fn add_call(&mut self, krate: u32, func: String)
        ensures
            if old(self).spec_crates().contains(krate) {
                final(self).spec_crates() == old(self).spec_crates()
            } else {
                final(self).spec_crates() == old(self).spec_crates().push(krate)
            },
            if has_name(old(self).spec_calls(), func@) {
                final(self).spec_calls() == old(self).spec_calls()
            } else {
                final(self).spec_calls() == old(self).spec_calls().push((krate, func@))
            },
            old(self).spec_crates().no_duplicates() ==> final(self).spec_crates().no_duplicates(),
            call_names(old(self).spec_calls()).no_duplicates() ==> call_names(
                final(self).spec_calls(),
            ).no_duplicates(),
    {
        self.add_crate(krate);
        let ghost v = named_view(self.external_calls@);
        let mut found = false;
        let mut i: usize = 0;
        while i < self.external_calls.len()
            invariant
                i <= self.external_calls.len(),
                v == named_view(self.external_calls@),
                found <==> exists|k: int| 0 <= k < i && (#[trigger] v[k]).1 == func@,
            decreases self.external_calls.len() - i,
        {
            assert(v[i as int] == (self.external_calls@[i as int].0, self.external_calls@[i as int].1@));
            if self.external_calls[i].1 == func {
                found = true;
            }
            i = i + 1;
        }
        proof {
            let names = call_names(v);
            assert(names.contains(func@) == has_name(v, func@)) by {
                if names.contains(func@) {
                    let k = choose|k: int| 0 <= k < names.len() && names[k] == func@;
                    assert(v[k].1 == func@);
                }
                if has_name(v, func@) {
                    let k = choose|k: int| 0 <= k < v.len() && (#[trigger] v[k]).1 == func@;
                    assert(names[k] == func@);
                }
            }
            if names.no_duplicates() {
                recording_keeps_items_distinct(names, func@);
            }
        }
        if !found {
            let ghost fv = func@;
            self.external_calls.push((krate, func));
            assert(named_view(self.external_calls@) =~= v.push((krate, fv)));
            assert(call_names(v.push((krate, fv))) =~= call_names(v).push(fv));
        }
    }

    /// Records the call of another crate's function that `expr` makes, if
    /// any, under its name.
    pub fn check_expr(&mut self, expr: Expr)
        ensures
            match called_name(expr) {
                Some(c) => (if old(self).spec_crates().contains(c.0) {
                    final(self).spec_crates() == old(self).spec_crates()
                } else {
                    final(self).spec_crates() == old(self).spec_crates().push(c.0)
                }) && (if has_name(old(self).spec_calls(), c.1) {
                    final(self).spec_calls() == old(self).spec_calls()
                } else {
                    final(self).spec_calls() == old(self).spec_calls().push(c)
                }),
                None => final(self).spec_crates() == old(self).spec_crates()
                    && final(self).spec_calls() == old(self).spec_calls(),
            },
    {
        proof {
            reveal_strlit("::");
        }
        match expr {
            Expr::Call(CallCallee::Path { def: CallDef::FnOrMethod { krate, is_local }, qpath }) => {
                if !is_local {
                    match qpath {
                        QPath::Resolved { has_qself, path } => {
                            if !has_qself {
                                self.add_call(krate, path);
                            }
                        },
                        QPath::TypeRelative { ty, segment } => {
                            let mut res = ty;
                            res.append("::");
                            res.append(segment.as_str());
                            self.add_call(krate, res);
                        },
                    }
                }
            },
            Expr::MethodCall { method: Some((krate, is_local)), receiver, segment } => {
                if !is_local {
                    let mut call = match receiver {
                        ReceiverTy::Ref(s) => s,
                        ReceiverTy::Plain(s) => s,
                    };
                    call.append("::");
                    call.append(segment.as_str());
                    self.add_call(krate, call);
                }
            },
            _ => {},
        }
    }

    /// The crates called into, in the order first met.
    pub fn external_crates(&self) -> (r: &Vec<u32>)
        ensures
            r@ == self.spec_crates(),
    {
        &self.external_crates
    }

    /// The names of the calls recorded into crate `krate`, in order: what is
    /// printed for it.
    pub fn calls_into(&self, krate: u32) -> (r: Vec<String>)
        ensures
            r@.map_values(|s: String| s@) == names_into(self.spec_calls(), krate),
    {
        let ghost all = named_view(self.external_calls@);
        let mut r: Vec<String> = Vec::new();
        let mut i: usize = 0;
        while i < self.external_calls.len()
            invariant
                i <= self.external_calls.len(),
                all == named_view(self.external_calls@),
                r@.map_values(|s: String| s@) == names_into(all.take(i as int), krate),
            decreases self.external_calls.len() - i,
        {
            assert(all.take(i + 1).drop_last() =~= all.take(i as int));
            assert(all.take(i + 1).last() == all[i as int]);
            assert(all[i as int] == (self.external_calls@[i as int].0, self.external_calls@[i as int].1@));
            if self.external_calls[i].0 == krate {
                let ghost before = r@;
                let name = self.external_calls[i].1.clone();
                r.push(name);
                assert(r@.map_values(|s: String| s@) =~= before.map_values(|s: String| s@).push(
                    all[i as int].1,
                ));
            }
            i = i + 1;
        }
        assert(all.take(self.external_calls.len() as int) =~= all);
        r
    }
}

} // verus!
