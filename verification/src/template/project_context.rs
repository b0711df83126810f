use crate::project::Project;
use crate::text::{absent, lemma_replace_absent, lemma_replace_whole, replace, replace_all};
use vstd::prelude::*;

verus! {

/// The placeholder that stands for a project's name in template text.
pub open spec fn name_placeholder() -> Seq<char> {
    seq!['#', '{', 'n', 'a', 'm', 'e', '}']
}

/// The placeholder that stands for a project's repository in template text.
pub open spec fn repo_placeholder() -> Seq<char> {
    seq!['#', '{', 'r', 'e', 'p', 'o', '}']
}

/// The placeholder that stands for a project's license in template text.
pub open spec fn license_placeholder() -> Seq<char> {
    seq!['#', '{', 'l', 'i', 'c', 'e', 'n', 's', 'e', '}']
}

/// Template text `t` filled in for a project: every `#{name}` is replaced by
/// `name`, then every `#{repo}` of the result by `repo`, then every
/// `#{license}` of that by `license`.
pub open spec fn fill_placeholders(
    t: Seq<char>,
    name: Seq<char>,
    repo: Seq<char>,
    license: Seq<char>,
) -> Seq<char> {
    replace_all(
        replace_all(replace_all(t, name_placeholder(), name), repo_placeholder(), repo),
        license_placeholder(),
        license,
    )
}

/// The values that template text is filled in with.
#[derive(Debug)]
pub struct ProjectContext<'a> {
    pub name: &'a str,
    pub repo: &'a str,
    pub license: &'a str,
}

impl<'a> ProjectContext<'a> {
    /// The values of the project `value`.
    pub fn from(value: &'a Project) -> (r: ProjectContext<'a>)
        ensures
            r.name@ == value.name@,
            r.repo@ == value.repo@,
            r.license@ == value.license@,
    {
        ProjectContext {
            name: value.name.as_str(),
            repo: value.repo.as_str(),
            license: value.license.as_str(),
        }
    }

    /// What `format` gives for the template text `t`.
    pub open spec fn formatted(&self, t: Seq<char>) -> Seq<char> {
        fill_placeholders(t, self.name@, self.repo@, self.license@)
    }

    /// Fills in the placeholders of `target` (see `fill_placeholders`).
    pub fn format(&self, target: &str) -> (r: String)
        ensures
            r@ == self.formatted(target@),
    {
        proof {
            reveal_strlit("#{name}");
            reveal_strlit("#{repo}");
            reveal_strlit("#{license}");
            assert("#{name}"@ =~= name_placeholder());
            assert("#{repo}"@ =~= repo_placeholder());
            assert("#{license}"@ =~= license_placeholder());
        }
        let with_name = replace(target, "#{name}", self.name);
        let with_repo = replace(with_name.as_str(), "#{repo}", self.repo);
        replace(with_repo.as_str(), "#{license}", self.license)
    }
}

/// Text in which no placeholder occurs is left as it is when filled in.
pub proof fn lemma_fill_without_placeholders(t: Seq<char>, name: Seq<char>, repo: Seq<char>, license: Seq<char>)
    requires
        absent(t, name_placeholder()),
        absent(t, repo_placeholder()),
        absent(t, license_placeholder()),
    ensures
        fill_placeholders(t, name, repo, license) == t,
{
    lemma_replace_absent(t, name_placeholder(), name);
    lemma_replace_absent(t, repo_placeholder(), repo);
    lemma_replace_absent(t, license_placeholder(), license);
}

/// Text that is just the name placeholder becomes the project's name, where
/// the name holds neither of the other placeholders.
pub proof fn lemma_fill_name_placeholder(name: Seq<char>, repo: Seq<char>, license: Seq<char>)
    requires
        absent(name, repo_placeholder()),
        absent(name, license_placeholder()),
    ensures
        fill_placeholders(name_placeholder(), name, repo, license) == name,
{
    lemma_replace_whole(name_placeholder(), name);
    lemma_replace_absent(name, repo_placeholder(), repo);
    lemma_replace_absent(name, license_placeholder(), license);
}

} // verus!
