//! The result directory of a crate under the fixed root of the results.
use vstd::prelude::*;

verus! {

pub const ROOT_DIR: &'static str = "/tmp/unsafe_analysis/analysis_results/";

/// The files of one analysis of one version of one crate.
pub struct FileOps {
    crate_name: String,
    crate_version: String,
    analysis_name: &'static str,
}

impl FileOps {
    pub closed spec fn spec_crate_name(&self) -> Seq<char> {
        self.crate_name@
    }

    pub closed spec fn spec_crate_version(&self) -> Seq<char> {
        self.crate_version@
    }

    pub closed spec fn spec_analysis_name(&self) -> Seq<char> {
        self.analysis_name@
    }

    pub fn new(crate_name: String, crate_version: String, analysis_name: &'static str) -> (r: Self)
        ensures
            r.spec_crate_name() == crate_name@,
            r.spec_crate_version() == crate_version@,
            r.spec_analysis_name() == analysis_name@,
    {
        FileOps { crate_name, crate_version, analysis_name }
    }

    pub fn analysis_name(&self) -> (r: &'static str)
        ensures
            r@ == self.spec_analysis_name(),
    {
        self.analysis_name
    }

    /// The components of the directory path: root, crate, version.
    pub fn get_root_path_components(&self) -> (r: [String; 3])
        ensures
            r[0]@ == ROOT_DIR@,
            r[1]@ == self.spec_crate_name(),
            r[2]@ == self.spec_crate_version(),
    {
        [String::from_str(ROOT_DIR), self.crate_name.clone(), self.crate_version.clone()]
    }

    /// The components of the path of the file `filename` in that directory.
    pub fn get_analysis_path_components(&self, filename: String) -> (r: [String; 4])
        ensures
            r[0]@ == ROOT_DIR@,
            r[1]@ == self.spec_crate_name(),
            r[2]@ == self.spec_crate_version(),
            r[3]@ == filename@,
    {
        [String::from_str(ROOT_DIR), self.crate_name.clone(), self.crate_version.clone(), filename]
    }
}

} // verus!
