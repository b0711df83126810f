use crate::path::{is_absolute, join_path, lemma_join_lies_under, lemma_starts_with_trans, path_join, path_starts_with};
use crate::template::project_context::ProjectContext;
use vstd::prelude::*;

verus! {

/// A directory that a template creates, with the directories inside it.
#[derive(Debug)]
pub struct Folder {
    pub name: String,
    pub sub_dirs: Vec<Folder>,
}

/// The directories that `folder` stands for when placed under `root`, filled
/// in for `ctx`: first the folder's own path, then, sub-directory by
/// sub-directory, the paths of each one placed under that first path.
pub open spec fn folder_paths(folder: Folder, root: Seq<char>, ctx: ProjectContext) -> Seq<Seq<char>>
    decreases folder,
{
    let current = path_join(root, ctx.formatted(folder.name@));
    seq![current] + sub_folder_paths(folder.sub_dirs@, current, ctx)
}

/// The paths of each folder of `subs` placed under `root`, one after the other.
pub open spec fn sub_folder_paths(subs: Seq<Folder>, root: Seq<char>, ctx: ProjectContext) -> Seq<Seq<char>>
    decreases subs,
{
    if subs.len() == 0 {
        seq![]
    } else {
        sub_folder_paths(subs.subrange(0, subs.len() - 1), root, ctx) + folder_paths(
            subs[subs.len() - 1],
            root,
            ctx,
        )
    }
}

/// The name of `folder`, and of every folder inside it, filled in for `ctx`,
/// does not start at the root.
pub open spec fn names_relative(folder: Folder, ctx: ProjectContext) -> bool
    decreases folder,
{
    !is_absolute(ctx.formatted(folder.name@)) && all_names_relative(folder.sub_dirs@, ctx)
}

/// `names_relative` holds of each folder of `subs`.
pub open spec fn all_names_relative(subs: Seq<Folder>, ctx: ProjectContext) -> bool
    decreases subs,
{
    subs.len() == 0 || (all_names_relative(subs.subrange(0, subs.len() - 1), ctx) && names_relative(
        subs[subs.len() - 1],
        ctx,
    ))
}

/// Every directory of a folder whose names do not start at the root lies
/// under the path the folder is placed under.
pub proof fn lemma_folder_paths_lie_under(folder: Folder, root: Seq<char>, ctx: ProjectContext)
    requires
        names_relative(folder, ctx),
    ensures
        forall|k: int|
            0 <= k < folder_paths(folder, root, ctx).len() ==> path_starts_with(
                #[trigger] folder_paths(folder, root, ctx)[k],
                root,
            ),
    decreases folder,
{
    let current = path_join(root, ctx.formatted(folder.name@));
    lemma_join_lies_under(root, ctx.formatted(folder.name@));
    lemma_sub_folder_paths_lie_under(folder.sub_dirs@, current, ctx);
    let subs = sub_folder_paths(folder.sub_dirs@, current, ctx);
    assert forall|k: int|
        0 <= k < folder_paths(folder, root, ctx).len() implies path_starts_with(
            #[trigger] folder_paths(folder, root, ctx)[k],
            root,
        ) by {
        if k > 0 {
            assert(folder_paths(folder, root, ctx)[k] == subs[k - 1]);
            lemma_starts_with_trans(subs[k - 1], current, root);
        }
    }
}

/// Every directory of folders whose names do not start at the root lies
/// under the path they are placed under.
pub proof fn lemma_sub_folder_paths_lie_under(subs: Seq<Folder>, root: Seq<char>, ctx: ProjectContext)
    requires
        all_names_relative(subs, ctx),
    ensures
        forall|k: int|
            0 <= k < sub_folder_paths(subs, root, ctx).len() ==> path_starts_with(
                #[trigger] sub_folder_paths(subs, root, ctx)[k],
                root,
            ),
    decreases subs,
{
    if subs.len() > 0 {
        let front = subs.subrange(0, subs.len() - 1);
        let last = subs[subs.len() - 1];
        lemma_sub_folder_paths_lie_under(front, root, ctx);
        lemma_folder_paths_lie_under(last, root, ctx);
        let a = sub_folder_paths(front, root, ctx);
        let b = folder_paths(last, root, ctx);
        assert forall|k: int|
            0 <= k < sub_folder_paths(subs, root, ctx).len() implies path_starts_with(
                #[trigger] sub_folder_paths(subs, root, ctx)[k],
                root,
            ) by {
            if k < a.len() {
                assert(sub_folder_paths(subs, root, ctx)[k] == a[k]);
            } else {
                assert(sub_folder_paths(subs, root, ctx)[k] == b[k - a.len()]);
            }
        }
    }
}

impl Folder {
    /// The directories of this folder, placed under `root` and filled in for
    /// `ctx` (see `folder_paths`).
    pub fn resolve(&self, root: &str, ctx: &ProjectContext) -> (dirs: Vec<String>)
        ensures
            dirs.deep_view() == folder_paths(*self, root@, *ctx),
        decreases self,
    {
        let formatted_name = ctx.format(self.name.as_str());
        let current_dir = join_path(root, formatted_name.as_str());
        let ghost current = current_dir@;
        let mut dirs: Vec<String> = Vec::new();
        dirs.push(current_dir);
        let mut i: usize = 0;
        while i < self.sub_dirs.len()
            invariant
                i <= self.sub_dirs.len(),
                dirs.len() >= 1,
                dirs@[0]@ == current,
                current == path_join(root@, ctx.formatted(self.name@)),
                dirs.deep_view() == seq![current] + sub_folder_paths(
                    self.sub_dirs@.subrange(0, i as int),
                    current,
                    *ctx,
                ),
            decreases self.sub_dirs.len() - i,
        {
            let sub = &self.sub_dirs[i];
            let mut sub_dirs = sub.resolve(dirs[0].as_str(), ctx);
            let ghost before = dirs.deep_view();
            dirs.append(&mut sub_dirs);
            proof {
                assert(self.sub_dirs@.subrange(0, i + 1).subrange(0, i as int) =~= self.sub_dirs@.subrange(0, i as int));
                assert(dirs.deep_view() =~= before + folder_paths(self.sub_dirs@[i as int], current, *ctx));
            }
            i = i + 1;
        }
        assert(self.sub_dirs@.subrange(0, i as int) =~= self.sub_dirs@);
        dirs
    }
}

} // verus!
