//! Where the project-local build tree lives, derived from the project root.

use vstd::prelude::*;

verus! {

/// The directory under the project root that holds every build artifact,
/// the lock file and the state file.
pub const BUILD_DIR: &'static str = ".flatplay";

/// Appending a relative component to a Unix path: a separator is inserted
/// unless the base is empty or already ends with one.
pub open spec fn join_path(base: Seq<char>, component: Seq<char>) -> Seq<char> {
    if base.len() == 0 || base.last() == '/' {
        base + component
    } else {
        base + seq!['/'] + component
    }
}

/// Joins a relative component onto `base`.
pub fn join(base: &str, component: &str) -> (r: String)
    ensures
        r@ == join_path(base@, component@),
{
    let mut r = String::from_str(base);
    let n = base.unicode_len();
    if n > 0 && base.get_char(n - 1) != '/' {
        let sep = "/";
        proof {
            reveal_strlit("/");
        }
        r.append(sep);
    }
    r.append(component);
    r
}

pub struct BuildDirs {
    pub base: String,
}

impl BuildDirs {
    pub open spec fn build_dir_spec(&self) -> Seq<char> {
        join_path(self.base@, BUILD_DIR@)
    }

    pub open spec fn repo_dir_spec(&self) -> Seq<char> {
        join_path(self.build_dir_spec(), "repo"@)
    }

    pub fn new(base: String) -> (r: Self)
        ensures
            r.base@ == base@,
    {
        BuildDirs { base }
    }

    /// `<base>/.flatplay`
    pub fn build_dir(&self) -> (r: String)
        ensures
            r@ == self.build_dir_spec(),
    {
        join(self.base.as_str(), BUILD_DIR)
    }

    /// `<base>/.flatplay/repo`: the sandbox root of the build.
    pub fn repo_dir(&self) -> (r: String)
        ensures
            r@ == self.repo_dir_spec(),
    {
        join(self.build_dir().as_str(), "repo")
    }

    /// `<base>/.flatplay/_build`: the build system's working directory.
    pub fn build_system_dir(&self) -> (r: String)
        ensures
            r@ == join_path(self.build_dir_spec(), "_build"@),
    {
        join(self.build_dir().as_str(), "_build")
    }

    /// `<base>/.flatplay/flatpak-builder`: flatpak-builder's own state.
    pub fn flatpak_builder_dir(&self) -> (r: String)
        ensures
            r@ == join_path(self.build_dir_spec(), "flatpak-builder"@),
    {
        join(self.build_dir().as_str(), "flatpak-builder")
    }

    /// `<base>/.flatplay/finalized-repo`
    pub fn finalized_repo_dir(&self) -> (r: String)
        ensures
            r@ == join_path(self.build_dir_spec(), "finalized-repo"@),
    {
        join(self.build_dir().as_str(), "finalized-repo")
    }

    /// `<base>/.flatplay/ostree`
    pub fn ostree_dir(&self) -> (r: String)
        ensures
            r@ == join_path(self.build_dir_spec(), "ostree"@),
    {
        join(self.build_dir().as_str(), "ostree")
    }

    /// `<base>/.flatplay/repo/metadata`
    pub fn metadata_file(&self) -> (r: String)
        ensures
            r@ == join_path(self.repo_dir_spec(), "metadata"@),
    {
        join(self.repo_dir().as_str(), "metadata")
    }

    /// `<base>/.flatplay/repo/files`
    pub fn files_dir(&self) -> (r: String)
        ensures
            r@ == join_path(self.repo_dir_spec(), "files"@),
    {
        join(self.repo_dir().as_str(), "files")
    }

    /// `<base>/.flatplay/repo/var`
    pub fn var_dir(&self) -> (r: String)
        ensures
            r@ == join_path(self.repo_dir_spec(), "var"@),
    {
        join(self.repo_dir().as_str(), "var")
    }
}

} // verus!
