//! Where the result files of one version of one crate live, and how the
//! files of an analysis and the most recent version are picked among the
//! entries of a directory.
use vstd::prelude::*;
use crate::text::{is_prefix, seq_less, starts_with, str_less};

verus! {

/// The result directory of one version of one crate under a root directory.
pub struct FileOps<'a, 'b> {
    crate_name: &'a String,
    crate_version: &'a String,
    root_dir: &'b String,
}

impl<'a, 'b> FileOps<'a, 'b> {
    pub closed spec fn spec_crate_name(&self) -> Seq<char> {
        self.crate_name@
    }

    pub closed spec fn spec_crate_version(&self) -> Seq<char> {
        self.crate_version@
    }

    pub closed spec fn spec_root_dir(&self) -> Seq<char> {
        self.root_dir@
    }

    pub fn new(crate_name: &'a String, crate_version: &'a String, root_dir: &'b String) -> (r: Self)
        ensures
            r.spec_crate_name() == crate_name@,
            r.spec_crate_version() == crate_version@,
            r.spec_root_dir() == root_dir@,
    {
        FileOps { crate_name, crate_version, root_dir }
    }

    /// The components of the directory path: root, crate, version.
    pub fn get_root_path_components(&self) -> (r: [String; 3])
        ensures
            r[0]@ == self.spec_root_dir(),
            r[1]@ == self.spec_crate_name(),
            r[2]@ == self.spec_crate_version(),
    {
        [self.root_dir.clone(), self.crate_name.clone(), self.crate_version.clone()]
    }

    /// The components of the path of the file `filename` in that directory.
    pub fn get_analysis_path_components(&self, filename: String) -> (r: [String; 4])
        ensures
            r[0]@ == self.spec_root_dir(),
            r[1]@ == self.spec_crate_name(),
            r[2]@ == self.spec_crate_version(),
            r[3]@ == filename@,
    {
        [self.root_dir.clone(), self.crate_name.clone(), self.crate_version.clone(), filename]
    }
}

/// The names, in order, of the entries whose name starts with `prefix`.
pub open spec fn prefixed_files(names: Seq<Seq<char>>, prefix: Seq<char>) -> Seq<Seq<char>>
    decreases names.len(),
{
    if names.len() == 0 {
        Seq::empty()
    } else if is_prefix(prefix, names[0]) {
        seq![names[0]] + prefixed_files(names.skip(1), prefix)
    } else {
        prefixed_files(names.skip(1), prefix)
    }
}

/// The names, in order, of the entries written by the analysis
/// `analysis_name`: those named `analysis_name` followed by `_` and a
/// suffix.
pub open spec fn analysis_files(names: Seq<Seq<char>>, analysis_name: Seq<char>) -> Seq<Seq<char>> {
    prefixed_files(names, analysis_name + "_"@)
}

/// The character content of a list of names.
pub open spec fn names_view(v: Seq<String>) -> Seq<Seq<char>> {
    v.map_values(|s: String| s@)
}

/// The entries of a directory whose name starts with `prefix`, in
/// directory order.
pub fn select_files_with_prefix(names: &Vec<String>, prefix: &str) -> (r: Vec<String>)
    ensures
        names_view(r@) == prefixed_files(names_view(names@), prefix@),
{
    let mut r: Vec<String> = Vec::new();
    let ghost all = names_view(names@);
    let mut i: usize = 0;
    assert(all.skip(0) =~= all);
    assert(names_view(r@) =~= Seq::<Seq<char>>::empty());
    while i < names.len()
        invariant
            i <= names.len(),
            all == names_view(names@),
            names_view(r@) + prefixed_files(all.skip(i as int), prefix@) == prefixed_files(
                all,
                prefix@,
            ),
        decreases names.len() - i,
    {
        let ghost rest = all.skip(i as int);
        let ghost before = r@;
        assert(rest[0] == names@[i as int]@);
        assert(rest.skip(1) =~= all.skip(i + 1));
        if starts_with(names[i].as_str(), prefix) {
            r.push(names[i].clone());
            assert(names_view(r@) =~= names_view(before).push(names@[i as int]@));
            assert(names_view(r@) + prefixed_files(all.skip(i + 1), prefix@) =~= names_view(
                before,
            ) + (seq![rest[0]] + prefixed_files(rest.skip(1), prefix@)));
        }
        i = i + 1;
    }
    assert(all.skip(names.len() as int) =~= Seq::<Seq<char>>::empty());
    assert(names_view(r@) + Seq::<Seq<char>>::empty() =~= names_view(r@));
    r
}

/// The entries of a directory that hold results of the analysis
/// `analysis_name`: those named `analysis_name` followed by `_` and a
/// suffix, in directory order.
pub fn select_analysis_files(names: &Vec<String>, analysis_name: &str) -> (r: Vec<String>)
    ensures
        names_view(r@) == analysis_files(names_view(names@), analysis_name@),
{
    proof {
        reveal_strlit("_");
    }
    let mut prefix = String::from_str(analysis_name);
    prefix.append("_");
    select_files_with_prefix(names, prefix.as_str())
}

/// The greatest of the names in lexicographic order, if there is any name.
pub fn max_name(names: &Vec<String>) -> (r: Option<String>)
    ensures
        r is None <==> names@.len() == 0,
        r matches Some(m) ==> names_view(names@).contains(m@) && forall|k: int|
            0 <= k < names@.len() ==> !seq_less(m@, #[trigger] names@[k]@),
{
    if names.len() == 0 {
        return None;
    }
    let mut best: usize = 0;
    let mut i: usize = 1;
    proof {
        crate::text::lemma_seq_less_irreflexive(names@[0]@);
    }
    while i < names.len()
        invariant
            0 < names.len(),
            best < i <= names.len(),
            forall|k: int| 0 <= k < i ==> !seq_less(names@[best as int]@, #[trigger] names@[k]@),
        decreases names.len() - i,
    {
        if str_less(names[best].as_str(), names[i].as_str()) {
            proof {
                assert forall|k: int| 0 <= k < i + 1 implies !seq_less(
                    names@[i as int]@,
                    #[trigger] names@[k]@,
                ) by {
                    if k < i {
                        let ni = names@[i as int]@;
                        let nk = names@[k]@;
                        let nb = names@[best as int]@;
                        if seq_less(ni, nk) {
                            crate::text::lemma_seq_less_total(nk, nb);
                            crate::text::lemma_seq_less_asymmetric(nb, ni);
                            if nk != nb {
                                crate::text::lemma_seq_less_transitive(ni, nk, nb);
                            }
                        }
                    } else {
                        crate::text::lemma_seq_less_irreflexive(names@[i as int]@);
                    }
                }
            }
            best = i;
        }
        i = i + 1;
    }
    assert(names_view(names@)[best as int] == names@[best as int]@);
    Some(names[best].clone())
}

} // verus!
