//! Layout of the per-project build directory: every path the pipeline
//! touches is derived from the project base directory by joining fixed
//! relative names.

use vstd::prelude::*;
use vstd::string::StrSliceExecFns;
use vstd::string::StringExecFns;

verus! {

/// What joining a relative name onto a base path yields: the two parts
/// separated by exactly one `/`, except that an empty base contributes
/// nothing.
pub open spec fn spec_path_join(base: Seq<char>, child: Seq<char>) -> Seq<char> {
    if base.len() == 0 {
        child
    } else if base[base.len() - 1] == '/' {
        base + child
    } else {
        base + seq!['/'] + child
    }
}

/// Joins a relative name onto a base path.
pub fn path_join(base: &str, child: &str) -> (r: String)
    ensures
        r@ == spec_path_join(base@, child@),
{
    let n = base.unicode_len();
    if n == 0 {
        return child.to_owned();
    }
    let mut s = base.to_owned();
    if base.get_char(n - 1) != '/' {
        proof {
            reveal_strlit("/");
        }
        s.append("/");
        proof {
            assert(s@ =~= base@ + seq!['/']);
        }
    }
    s.append(child);
    s
}

/// The fixed locations inside a project that the pipeline reads and
/// writes, all rooted at the project base directory.
pub struct BuildDirs {
    pub base: String,
}

impl BuildDirs {
    pub open spec fn spec_build_dir(&self) -> Seq<char> {
        spec_path_join(self.base@, ".flatplay"@)
    }

    pub open spec fn spec_repo_dir(&self) -> Seq<char> {
        spec_path_join(self.spec_build_dir(), "repo"@)
    }

    pub open spec fn spec_build_subdir(&self) -> Seq<char> {
        spec_path_join(self.spec_build_dir(), "_build"@)
    }

    pub open spec fn spec_flatpak_builder_dir(&self) -> Seq<char> {
        spec_path_join(self.spec_build_dir(), "flatpak-builder"@)
    }

    pub open spec fn spec_finalized_repo_dir(&self) -> Seq<char> {
        spec_path_join(self.spec_build_dir(), "finalized-repo"@)
    }

    pub open spec fn spec_ostree_dir(&self) -> Seq<char> {
        spec_path_join(self.spec_build_dir(), "ostree"@)
    }

    pub open spec fn spec_metadata_file(&self) -> Seq<char> {
        spec_path_join(self.spec_repo_dir(), "metadata"@)
    }

    pub open spec fn spec_files_dir(&self) -> Seq<char> {
        spec_path_join(self.spec_repo_dir(), "files"@)
    }

    pub open spec fn spec_var_dir(&self) -> Seq<char> {
        spec_path_join(self.spec_repo_dir(), "var"@)
    }

    pub fn new(base: String) -> (r: Self)
        ensures
            r.base@ == base@,
    {
        BuildDirs { base }
    }

    /// The root of everything the pipeline creates: `<base>/.flatplay`.
    pub fn build_dir(&self) -> (r: String)
        ensures
            r@ == self.spec_build_dir(),
    {
        path_join(self.base.as_str(), ".flatplay")
    }

    /// The application build root handed to the build tools.
    pub fn repo_dir(&self) -> (r: String)
        ensures
            r@ == self.spec_repo_dir(),
    {
        let d = self.build_dir();
        path_join(d.as_str(), "repo")
    }

    /// Out-of-tree build directory for build systems that want one.
    pub fn build_subdir(&self) -> (r: String)
        ensures
            r@ == self.spec_build_subdir(),
    {
        let d = self.build_dir();
        path_join(d.as_str(), "_build")
    }

    /// State directory handed to the packaging build helper.
    pub fn flatpak_builder_dir(&self) -> (r: String)
        ensures
            r@ == self.spec_flatpak_builder_dir(),
    {
        let d = self.build_dir();
        path_join(d.as_str(), "flatpak-builder")
    }

    /// Copy of the build root that export finalizes.
    pub fn finalized_repo_dir(&self) -> (r: String)
        ensures
            r@ == self.spec_finalized_repo_dir(),
    {
        let d = self.build_dir();
        path_join(d.as_str(), "finalized-repo")
    }

    /// Repository that the finalized build is exported into.
    pub fn ostree_dir(&self) -> (r: String)
        ensures
            r@ == self.spec_ostree_dir(),
    {
        let d = self.build_dir();
        path_join(d.as_str(), "ostree")
    }

    /// Marker file whose presence means the build root is initialized.
    pub fn metadata_file(&self) -> (r: String)
        ensures
            r@ == self.spec_metadata_file(),
    {
        let d = self.repo_dir();
        path_join(d.as_str(), "metadata")
    }

    /// Staging directory for installed files inside the build root.
    pub fn files_dir(&self) -> (r: String)
        ensures
            r@ == self.spec_files_dir(),
    {
        let d = self.repo_dir();
        path_join(d.as_str(), "files")
    }

    /// Mutable data directory inside the build root.
    pub fn var_dir(&self) -> (r: String)
        ensures
            r@ == self.spec_var_dir(),
    {
        let d = self.repo_dir();
        path_join(d.as_str(), "var")
    }
}

} // verus!
