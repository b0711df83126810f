use crate::config::Config;
use crate::error::Error;
use crate::path::{join_path, path_join, path_starts_with, starts_with_path};
use crate::template::template_config::TemplateConfig;
use crate::templates::{is_not_found, Templates};
use crate::text::str_eq;
use vstd::prelude::*;

verus! {

/// The kinds of project.
#[derive(Debug, PartialEq, Eq, Structural)]
pub enum ProjectType {
    Base,
}

impl Default for ProjectType {
    /// The base kind.
    fn default() -> (r: ProjectType)
        ensures
            r == ProjectType::Base,
    {
        ProjectType::Base
    }
}

/// The name under which a kind of project is written.
pub open spec fn project_type_name(t: ProjectType) -> Seq<char> {
    match t {
        ProjectType::Base => seq!['B', 'a', 's', 'e'],
    }
}

/// The message given for a name that is no kind of project.
pub open spec fn invalid_project_type_message() -> Seq<char> {
    "Project type is not valid!"@
}

impl ProjectType {
    /// Every kind of project.
    pub fn all() -> (r: Vec<ProjectType>)
        ensures
            r@ == seq![ProjectType::Base],
    {
        let mut r = Vec::new();
        r.push(ProjectType::Base);
        assert(r@ =~= seq![ProjectType::Base]);
        r
    }

    /// The name of the kind (see `project_type_name`).
    pub fn name(&self) -> (r: &'static str)
        ensures
            r@ == project_type_name(*self),
    {
        proof {
            reveal_strlit("Base");
        }
        match self {
            ProjectType::Base => "Base",
        }
    }

    /// The kind that `s` names; an error where it names none.
    pub fn from_str(s: &str) -> (r: Result<ProjectType, String>)
        ensures
            match r {
                Ok(t) => project_type_name(t) == s@,
                Err(m) => (forall|t: ProjectType| project_type_name(t) != s@) && m@
                    == invalid_project_type_message(),
            },
    {
        proof {
            reveal_strlit("Base");
        }
        if str_eq(s, "Base") {
            Ok(ProjectType::Base)
        } else {
            proof {
                assert forall|t: ProjectType| project_type_name(t) != s@ by {
                    match t {
                        ProjectType::Base => {
                            assert("Base"@ =~= project_type_name(ProjectType::Base));
                        },
                    }
                }
            }
            Err(String::from_str("Project type is not valid!"))
        }
    }

    /// The configuration of the template kept under this kind's name; the
    /// error of `Templates::get` where there is none.
    pub fn template<'a>(&self, templates: &'a Templates) -> (r: Result<&'a TemplateConfig, Error>)
        ensures
            match r {
                Ok(c) => templates@.contains_key(project_type_name(*self)) && *c == templates@[project_type_name(*self)].config,
                Err(e) => !templates@.contains_key(project_type_name(*self)) && is_not_found(e, "template"@),
            },
    {
        match templates.get(self.name()) {
            Ok(t) => Ok(&t.config),
            Err(e) => Err(e),
        }
    }
}

/// Different kinds of project have different names, so reading back the
/// name of a kind gives that kind.
pub proof fn lemma_project_type_name_unique(t: ProjectType, u: ProjectType)
    ensures
        project_type_name(t) == project_type_name(u) ==> t == u,
{
}

/// A record that agrees with a project, once found in the project's folder,
/// marks the project present, before and after it is marked restored.
pub proof fn lemma_record_marks_present(p: Project, m: ProjmanFile)
    requires
        m.agrees_with(p),
    ensures
        crate::app_state::found_present(p, crate::app_state::ProjectOnDisk::Found(m)),
        crate::app_state::found_present(
            Project { exists: true, ..p },
            crate::app_state::ProjectOnDisk::Found(m),
        ),
{
}

/// The project that the creation form starts from lies under the projects
/// directory, so its path passes the first check of `path_is_valid`.
pub proof fn lemma_new_project_under_projects_dir(projects_dir: Seq<char>)
    ensures
        path_starts_with(path_join(projects_dir, new_project_name()), projects_dir),
{
    reveal_strlit("NewProject");
    crate::path::lemma_join_lies_under(projects_dir, new_project_name());
}

/// A record marks its project present after loading exactly when the two
/// have the same name, the same template name, the same repository and the
/// same license; a record that differs in any one of them, the template
/// name included, leaves the project marked missing.
pub proof fn lemma_record_presence_needs_equal_fields(p: Project, m: ProjmanFile)
    ensures
        crate::app_state::found_present(p, crate::app_state::ProjectOnDisk::Found(m)) <==> (
        m.name@ == p.name@ && m.template_name@ == p.template_name@ && m.repo@ == p.repo@
            && m.license@ == p.license@),
        m.template_name@ != p.template_name@ ==> !crate::app_state::found_present(
            p,
            crate::app_state::ProjectOnDisk::Found(m),
        ),
        !m.agrees_with(p) <==> (m.name@ != p.name@ || m.template_name@ != p.template_name@
            || m.repo@ != p.repo@ || m.license@ != p.license@),
{
}

/// A path under the projects directory that starts at the root, where
/// nothing is yet or an empty directory is, and below no read-only
/// directory, is accepted; the "not empty" problem is only ever reported
/// for something that is there and whose listing shows entries, and the
/// "could not validate" problem only for something there that could not be
/// listed.
pub proof fn lemma_path_problem_cases(path: Seq<char>, projects_dir: Seq<char>, status: PathStatus)
    ensures
        path_starts_with(path, projects_dir) && path.len() > 0 && path[0] == '/' && (!status.exists
            || status.listing == DirListing::Empty) && !status.readonly_ancestor ==> path_problem(
            path,
            projects_dir,
            status,
        ) is None,
        path_problem(path, projects_dir, status) == Some(PathProblem::NotEmpty) ==> status.exists
            && status.listing == DirListing::NotEmpty,
        path_problem(path, projects_dir, status) == Some(PathProblem::Unverifiable) ==> status.exists
            && status.listing == DirListing::Unreadable,
        path_problem(path, projects_dir, status) == Some(PathProblem::NotInProjectsDir) <==> !path_starts_with(
            path,
            projects_dir,
        ),
        path_problem(path, projects_dir, status) == Some(PathProblem::PermissionDenied) ==> status.readonly_ancestor,
        path_problem(path, projects_dir, status) is None ==> path_starts_with(path, projects_dir) && path.len() > 0
            && path[0] == '/' && !status.readonly_ancestor && (!status.exists || status.listing
            == DirListing::Empty),
{
}

/// A copy of `v`.
fn copy_strings(v: &Vec<String>) -> (r: Vec<String>)
    ensures
        r.deep_view() == v.deep_view(),
{
    let mut r: Vec<String> = Vec::new();
    let mut i: usize = 0;
    while i < v.len()
        invariant
            i <= v@.len(),
            r.deep_view() == v.deep_view().subrange(0, i as int),
        decreases v.len() - i,
    {
        let ghost before = r.deep_view();
        let c = v[i].clone();
        r.push(c);
        proof {
            assert(r.deep_view() =~= before.push(v@[i as int]@));
            assert(r.deep_view() =~= v.deep_view().subrange(0, i + 1));
        }
        i = i + 1;
    }
    assert(v.deep_view().subrange(0, i as int) =~= v.deep_view());
    r
}

/// A process to start: the program, its arguments and the directory it runs in.
#[derive(Debug)]
pub struct Invocation {
    pub program: String,
    pub args: Vec<String>,
    pub dir: String,
}

/// A project that the manager keeps track of.
#[derive(Debug)]
pub struct Project {
    pub exists: bool,
    pub name: String,
    pub path: String,
    pub project_type: ProjectType,
    pub template_name: String,
    pub repo: String,
    pub license: String,
}

/// The name that a new project gets.
pub open spec fn new_project_name() -> Seq<char> {
    "NewProject"@
}

/// The reasons for which a project cannot be created at a path.
#[derive(Debug, PartialEq, Eq, Structural)]
pub enum PathProblem {
    NotInProjectsDir,
    MissingRoot,
    NotEmpty,
    Unverifiable,
    PermissionDenied,
}

/// What a directory listing showed.
#[derive(Debug, PartialEq, Eq, Structural)]
pub enum DirListing {
    Empty,
    NotEmpty,
    Unreadable,
}

/// What was found on disk about a path: whether something is there, what
/// listing it as a directory showed, and whether the path or one of the
/// directories above it is read-only.
#[derive(Debug)]
pub struct PathStatus {
    pub exists: bool,
    pub listing: DirListing,
    pub readonly_ancestor: bool,
}

/// The first reason, checked in this order, for which a project cannot be
/// created at `path`: it is not under `projects_dir`; it does not start at
/// the root; something is there that is not an empty directory, or that
/// cannot be listed; a directory on the way is read-only.
pub open spec fn path_problem(path: Seq<char>, projects_dir: Seq<char>, status: PathStatus) -> Option<PathProblem> {
    if !path_starts_with(path, projects_dir) {
        Some(PathProblem::NotInProjectsDir)
    } else if !(path.len() > 0 && path[0] == '/') {
        Some(PathProblem::MissingRoot)
    } else if status.exists && status.listing == DirListing::NotEmpty {
        Some(PathProblem::NotEmpty)
    } else if status.exists && status.listing == DirListing::Unreadable {
        Some(PathProblem::Unverifiable)
    } else if status.readonly_ancestor {
        Some(PathProblem::PermissionDenied)
    } else {
        None
    }
}

/// The message given for a path problem.
pub open spec fn path_problem_message(problem: PathProblem) -> Seq<char> {
    "Cannot create project in this directory!\n"@ + match problem {
        PathProblem::NotInProjectsDir => "(not in projects_dir)"@,
        PathProblem::MissingRoot => "(missing root slash)"@,
        PathProblem::NotEmpty => "(dir exists and isnt empty)"@,
        PathProblem::Unverifiable => "(could not validate dir)"@,
        PathProblem::PermissionDenied => "(permission denied)"@,
    }
}

impl Project {
    /// The project that the creation form starts from: named `NewProject`,
    /// placed under the configured projects directory, of the base kind,
    /// with no template, repository or license yet.
    pub fn default(config: &Config) -> (r: Project)
        ensures
            r.exists,
            r.name@ == new_project_name(),
            r.path@ == path_join(config.general.projects_dir@, new_project_name()),
            r.project_type == ProjectType::Base,
            r.template_name@ == Seq::<char>::empty(),
            r.repo@ == Seq::<char>::empty(),
            r.license@ == Seq::<char>::empty(),
    {
        let name: &str = "NewProject";
        Project {
            exists: true,
            name: String::from_str(name),
            path: join_path(config.general.projects_dir.as_str(), name),
            project_type: ProjectType::Base,
            template_name: String::new(),
            repo: String::new(),
            license: String::new(),
        }
    }

    /// The project found in the folder `path` when it is imported with the
    /// given name, kind, repository and license: present on disk, with no
    /// template name.
    pub fn imported(name: String, path: String, project_type: ProjectType, repo: String, license: String) -> (r: Project)
        ensures
            r.exists,
            r.name == name,
            r.path == path,
            r.project_type == project_type,
            r.template_name@ == Seq::<char>::empty(),
            r.repo == repo,
            r.license == license,
    {
        Project { exists: true, name, path, project_type, template_name: String::new(), repo, license }
    }

    /// The file whose presence marks the folder `path` as a project folder.
    pub fn marker_path(path: &str) -> (r: String)
        ensures
            r@ == path_join(path@, ".projman"@),
    {
        join_path(path, ".projman")
    }

    /// The processes that running the project starts, in order: each run
    /// command of the template of the project's kind, started in the
    /// project's directory. The caller starts them one after the other and
    /// stops at the first that fails to start. The error of
    /// `ProjectType::template` where there is no such template.
    pub fn run(&self, templates: &Templates) -> (r: Result<Vec<Invocation>, Error>)
        ensures
            match r {
                Ok(v) => templates@.contains_key(project_type_name(self.project_type)) && {
                    let cmds = templates@[project_type_name(self.project_type)].config.run@;
                    &&& v@.len() == cmds.len()
                    &&& forall|i: int|
                        0 <= i < v@.len() ==> {
                            &&& #[trigger] v@[i].program@ == cmds[i].program@
                            &&& v@[i].args.deep_view() == cmds[i].args.deep_view()
                            &&& v@[i].dir@ == self.path@
                        }
                },
                Err(e) => !templates@.contains_key(project_type_name(self.project_type))
                    && is_not_found(e, "template"@),
            },
    {
        let config = match self.project_type.template(templates) {
            Ok(c) => c,
            Err(e) => return Err(e),
        };
        let mut v: Vec<Invocation> = Vec::new();
        let mut i: usize = 0;
        while i < config.run.len()
            invariant
                i <= config.run@.len(),
                v@.len() == i,
                forall|k: int|
                    0 <= k < i ==> {
                        &&& #[trigger] v@[k].program@ == config.run@[k].program@
                        &&& v@[k].args.deep_view() == config.run@[k].args.deep_view()
                        &&& v@[k].dir@ == self.path@
                    },
            decreases config.run.len() - i,
        {
            let cmd = &config.run[i];
            v.push(
                Invocation {
                    program: cmd.program.clone(),
                    args: copy_strings(&cmd.args),
                    dir: self.path.clone(),
                },
            );
            i = i + 1;
        }
        Ok(v)
    }

    /// Whether a new project can be created at this project's path, given
    /// what the caller found on disk about it; where it cannot, `false` and
    /// the message for the first problem (see `path_problem`), else `true`
    /// and an empty message.
    pub fn path_is_valid(&self, projects_dir: &str, status: &PathStatus) -> (r: (bool, String))
        ensures
            match path_problem(self.path@, projects_dir@, *status) {
                Some(p) => !r.0 && r.1@ == path_problem_message(p),
                None => r.0 && r.1@ == Seq::<char>::empty(),
            },
    {
        let problem: PathProblem;
        if !starts_with_path(self.path.as_str(), projects_dir) {
            problem = PathProblem::NotInProjectsDir;
        } else if !(self.path.as_str().unicode_len() > 0 && self.path.as_str().get_char(0) == '/') {
            problem = PathProblem::MissingRoot;
        } else if status.exists && matches!(status.listing, DirListing::NotEmpty) {
            problem = PathProblem::NotEmpty;
        } else if status.exists && matches!(status.listing, DirListing::Unreadable) {
            problem = PathProblem::Unverifiable;
        } else if status.readonly_ancestor {
            problem = PathProblem::PermissionDenied;
        } else {
            return (true, String::new());
        }
        let mut msg = String::from_str("Cannot create project in this directory!\n");
        let reason: &str = match problem {
            PathProblem::NotInProjectsDir => "(not in projects_dir)",
            PathProblem::MissingRoot => "(missing root slash)",
            PathProblem::NotEmpty => "(dir exists and isnt empty)",
            PathProblem::Unverifiable => "(could not validate dir)",
            PathProblem::PermissionDenied => "(permission denied)",
        };
        msg.append(reason);
        (false, msg)
    }
}

} // verus!

verus! {

/// What a project's own file records about it.
#[derive(Debug)]
pub struct ProjmanFile {
    pub name: String,
    pub template_name: String,
    pub repo: String,
    pub license: String,
}

impl ProjmanFile {
    /// The name of the file that records a project, kept in the project's folder.
    pub const FILE_NAME: &'static str = ".projman.toml";

    /// The record agrees with `p` on name, template, repository and license.
    pub open spec fn agrees_with(&self, p: Project) -> bool {
        &&& self.name@ == p.name@
        &&& self.template_name@ == p.template_name@
        &&& self.repo@ == p.repo@
        &&& self.license@ == p.license@
    }

    /// Whether the record agrees with `p` (see `agrees_with`).
    pub fn describes(&self, p: &Project) -> (b: bool)
        ensures
            b == self.agrees_with(*p),
    {
        str_eq(self.name.as_str(), p.name.as_str()) && str_eq(
            self.template_name.as_str(),
            p.template_name.as_str(),
        ) && str_eq(self.repo.as_str(), p.repo.as_str()) && str_eq(
            self.license.as_str(),
            p.license.as_str(),
        )
    }

    /// The record of `p`.
    pub fn from_project(p: &Project) -> (r: ProjmanFile)
        ensures
            r.agrees_with(*p),
            r.name@ == p.name@,
            r.template_name@ == p.template_name@,
            r.repo@ == p.repo@,
            r.license@ == p.license@,
    {
        ProjmanFile {
            name: p.name.clone(),
            template_name: p.template_name.clone(),
            repo: p.repo.clone(),
            license: p.license.clone(),
        }
    }
}

} // verus!
