use std::path::PathBuf;
use vstd::prelude::*;

verus! {

/// The text of the path that `std::path::PathBuf::from_iter` builds from
/// `parts`, taken in order, on the platform the library is built for.
pub uninterp spec fn joined_path(parts: Seq<Seq<char>>) -> Seq<char>;

/// Calls `std::path::PathBuf::from_iter` on `parts` and hands the path back
/// as text. The result is what that function builds from these parts: it
/// depends on nothing but their text and their order.
#[verifier::external_body]
fn join_path(parts: &Vec<&str>) -> (path: String)
    ensures
        path@ == joined_path(parts.deep_view()),
{
    PathBuf::from_iter(parts.iter()).to_string_lossy().into_owned()
}

/// The directory below a workspace root that holds the workspace's metadata.
pub open spec fn metadata_directory() -> Seq<char> {
    ".remedy"@
}

/// A project root. Every file of the workspace is found relative to it.
pub struct Workspace {
    root: String,
}

impl View for Workspace {
    type V = Seq<char>;

    /// The text of the root path.
    closed spec fn view(&self) -> Seq<char> {
        self.root@
    }
}

impl Workspace {
    /// The path of `relative` below the root `root`.
    pub open spec fn path_in(root: Seq<char>, relative: Seq<char>) -> Seq<char> {
        joined_path(seq![root, relative])
    }

    /// The path of `relative` below the metadata directory of the root `root`.
    pub open spec fn meta_in(root: Seq<char>, relative: Seq<char>) -> Seq<char> {
        joined_path(seq![root, metadata_directory(), relative])
    }

    pub fn new(root: String) -> (workspace: Self)
        ensures
            workspace@ == root@,
    {
        Self { root }
    }

    /// The path of a file given relative to the workspace root.
    pub fn get_path(&self, relative: &str) -> (path: String)
        ensures
            path@ == Self::path_in(self@, relative@),
    {
        let mut parts: Vec<&str> = Vec::new();
        parts.push(self.root.as_str());
        parts.push(relative);
        assert(parts.deep_view() =~= seq![self@, relative@]);
        join_path(&parts)
    }

    /// The path of a file given relative to the workspace's metadata
    /// directory.
    pub fn get_meta(&self, relative: &str) -> (path: String)
        ensures
            path@ == Self::meta_in(self@, relative@),
    {
        let mut parts: Vec<&str> = Vec::new();
        parts.push(self.root.as_str());
        parts.push(".remedy");
        parts.push(relative);
        assert(parts.deep_view() =~= seq![self@, metadata_directory(), relative@]);
        join_path(&parts)
    }
}

} // verus!
