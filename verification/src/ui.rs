use crate::text::{ends_with, has_prefix, has_suffix, starts_with};
use vstd::prelude::*;

verus! {

/// How a branch is joined to the branch list in the project overview.
#[derive(Debug, PartialEq, Eq, Structural)]
pub enum BranchConnector {
    /// The only branch.
    Only,
    /// The first of several branches.
    First,
    /// The last of several branches.
    Last,
    /// A branch between the first and the last.
    Middle,
}

/// The connector of the branch at `index` among `len` branches.
pub open spec fn connector_for(index: int, len: int) -> BranchConnector {
    if index == 0 && len == 1 {
        BranchConnector::Only
    } else if index == 0 {
        BranchConnector::First
    } else if index == len - 1 {
        BranchConnector::Last
    } else {
        BranchConnector::Middle
    }
}

impl BranchConnector {
    /// The connector of the branch at `index` among `len` branches (see
    /// `connector_for`).
    pub fn for_branch(index: usize, len: usize) -> (r: BranchConnector)
        requires
            index < len,
        ensures
            r == connector_for(index as int, len as int),
    {
        if index == 0 && len == 1 {
            BranchConnector::Only
        } else if index == 0 {
            BranchConnector::First
        } else if index == len - 1 {
            BranchConnector::Last
        } else {
            BranchConnector::Middle
        }
    }
}

/// The path typed in the import form names a project record file
/// (`.projman.toml`) under the projects directory, compared as text.
pub open spec fn import_path_ok(path: Seq<char>, projects_dir: Seq<char>) -> bool {
    has_suffix(path, ".projman.toml"@) && has_prefix(path, projects_dir)
}

/// Whether the import form may be confirmed (see `import_path_ok`).
pub fn import_path_is_valid(path: &str, projects_dir: &str) -> (b: bool)
    ensures
        b == import_path_ok(path@, projects_dir@),
{
    ends_with(path, ".projman.toml") && starts_with(path, projects_dir)
}

/// The path typed in the creation form may be used: nothing is there yet
/// (`path_exists`, found on disk by the caller), or an empty directory
/// (`is_empty`) whose path begins, as text, with the projects directory.
pub open spec fn create_path_ok(path: Seq<char>, projects_dir: Seq<char>, path_exists: bool, is_empty: bool) -> bool {
    !path_exists || (is_empty && has_prefix(path, projects_dir))
}

/// Whether the creation form may be confirmed (see `create_path_ok`).
pub fn create_path_is_valid(path: &str, projects_dir: &str, path_exists: bool, is_empty: bool) -> (b: bool)
    ensures
        b == create_path_ok(path@, projects_dir@, path_exists, is_empty),
{
    let under = starts_with(path, projects_dir);
    !path_exists || (is_empty && under)
}

} // verus!
