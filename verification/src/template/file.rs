use crate::path::{is_absolute, join_path, lemma_join_lies_under, path_join, path_starts_with};
use crate::template::project_context::ProjectContext;
use vstd::prelude::*;

verus! {

/// A file that a template creates: where it goes and what it holds.
#[derive(Debug)]
pub struct File {
    pub path: String,
    pub contents: String,
}

/// A template file whose filled-in path does not start at the root is
/// placed under the folder it is resolved against.
pub proof fn lemma_file_lies_under(file: File, root: Seq<char>, ctx: ProjectContext)
    requires
        !is_absolute(ctx.formatted(file.path@)),
    ensures
        path_starts_with(path_join(root, ctx.formatted(file.path@)), root),
{
    lemma_join_lies_under(root, ctx.formatted(file.path@));
}

impl File {
    /// The file filled in for a project: its path, with placeholders filled,
    /// joined onto `root`, and its contents with placeholders filled.
    pub fn resolve(&self, root: &str, ctx: &ProjectContext) -> (r: File)
        ensures
            r.path@ == path_join(root@, ctx.formatted(self.path@)),
            r.contents@ == ctx.formatted(self.contents@),
    {
        let formatted_path = ctx.format(self.path.as_str());
        File { path: join_path(root, formatted_path.as_str()), contents: ctx.format(self.contents.as_str()) }
    }
}

} // verus!
