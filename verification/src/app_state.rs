use crate::config::Config;
use crate::error::Error;
use crate::path::{join_path, path_join};
use crate::project::{new_project_name, Project, ProjectType, ProjmanFile};
use crate::template::file::File;
use crate::template::project_context::{fill_placeholders, ProjectContext};
use crate::templates::{is_not_found, Templates};
use crate::text::str_eq;
use vstd::prelude::*;

verus! {

/// The dialogs that can be waiting for an answer.
#[derive(Debug, PartialEq, Eq, Structural)]
pub enum Popup {
    Remove,
    Create,
    Import,
    Edit,
}

/// How serious a notification is.
#[derive(Debug, PartialEq, Eq, Structural)]
pub enum NotifKind {
    Warning,
    Error,
}

/// A message shown to the user.
#[derive(Debug)]
pub struct Notification {
    pub text: String,
    pub kind: NotifKind,
}

/// The state of the project manager.
#[derive(Debug)]
pub struct AppState {
    pub config: Config,
    pub project_list: Vec<Project>,
    pub new_project: Project,
    pub new_project_path_changed: bool,
    pub selected_project: Option<usize>,
    pub delete_project_folder: bool,
    pub pending: Option<Popup>,
    pub project_restoration_failed: bool,
    pub restoring_project: bool,
    pub import_project_path: String,
    pub edit_project_name: String,
    pub edit_project_repo: String,
    pub notifications: Vec<Notification>,
    pub sidebar_expanded: bool,
    pub templates: Templates,
}

/// No text occurs twice among `ns`.
pub open spec fn texts_distinct(ns: Seq<Notification>) -> bool {
    forall|i: int, j: int|
        0 <= i < ns.len() && 0 <= j < ns.len() && i != j ==> #[trigger] ns[i].text@ != #[trigger] ns[j].text@
}

/// `after` is `before` with the project at `i` given the name `name` and
/// the repository `repo`, and nothing else changed.
pub open spec fn renamed_at(
    before: Seq<Project>,
    after: Seq<Project>,
    i: int,
    name: Seq<char>,
    repo: Seq<char>,
) -> bool {
    &&& after.len() == before.len()
    &&& forall|k: int| 0 <= k < before.len() && k != i ==> #[trigger] after[k] == before[k]
    &&& after[i].name@ == name
    &&& after[i].repo@ == repo
    &&& after[i].exists == before[i].exists
    &&& after[i].path == before[i].path
    &&& after[i].project_type == before[i].project_type
    &&& after[i].template_name == before[i].template_name
    &&& after[i].license == before[i].license
}

impl AppState {
    /// The state at start-up, from the outcome of loading the project list:
    /// the projects that were loaded, or, where loading failed, no projects and
    /// one error notification with the failure's message. Default settings,
    /// nothing selected or pending, no text typed, and the sidebar open.
    pub fn new(loaded: Result<Vec<Project>, String>, templates: Templates) -> (r: AppState)
        ensures
            match loaded {
                Ok(ps) => r.project_list@ == ps@ && r.notifications@.len() == 0,
                Err(m) => r.project_list@.len() == 0 && r.notifications@.len() == 1
                    && r.notifications@[0].text@ == m@ && r.notifications@[0].kind == NotifKind::Error,
            },
            r.config.general.projects_dir@ == Seq::<char>::empty(),
            !r.config.general.delete_project_folder,
            r.new_project.name@ == "NewProject"@,
            r.new_project.path@ == "NewProject"@,
            !r.new_project_path_changed,
            r.selected_project is None,
            !r.delete_project_folder,
            r.pending is None,
            !r.project_restoration_failed,
            !r.restoring_project,
            r.import_project_path@ == Seq::<char>::empty(),
            r.edit_project_name@ == Seq::<char>::empty(),
            r.edit_project_repo@ == Seq::<char>::empty(),
            r.sidebar_expanded,
            r.templates@ == templates@,
    {
        let mut notifications: Vec<Notification> = Vec::new();
        let project_list = match loaded {
            Ok(ps) => ps,
            Err(m) => {
                notifications.push(Notification { text: m, kind: NotifKind::Error });
                Vec::new()
            },
        };
        let config = Config::default();
        let new_project = Project::default(&config);
        proof {
            reveal_strlit("NewProject");
        }
        AppState {
            config,
            project_list,
            new_project,
            new_project_path_changed: false,
            selected_project: None,
            delete_project_folder: false,
            pending: None,
            project_restoration_failed: false,
            restoring_project: false,
            import_project_path: String::new(),
            edit_project_name: String::new(),
            edit_project_repo: String::new(),
            notifications,
            sidebar_expanded: true,
            templates,
        }
    }

    /// The state with the settings `config` taken in: the new-project form
    /// starts over under the configured projects directory, and the default
    /// for removing folders follows the setting. Nothing else changes.
    pub fn config(self, config: Config) -> (r: AppState)
        ensures
            configured(self, config, r),
    {
        let new_project = Project::default(&config);
        let delete_project_folder = config.general.delete_project_folder;
        AppState { new_project, delete_project_folder, config, ..self }
    }

    /// Shows `text` to the user, unless a notification with the same text is
    /// already shown.
    pub fn push_notification(&mut self, text: String, kind: NotifKind)
        ensures
            final(self).notifications@ == pushed(old(self).notifications@, Notification { text, kind }),
            same_but_notifications(*old(self), *final(self)),
    {
        let mut i: usize = 0;
        while i < self.notifications.len()
            invariant
                i <= self.notifications@.len(),
                forall|k: int| 0 <= k < i ==> #[trigger] self.notifications@[k].text@ != text@,
            decreases self.notifications.len() - i,
        {
            if str_eq(self.notifications[i].text.as_str(), text.as_str()) {
                return;
            }
            i = i + 1;
        }
        self.notifications.push(Notification { text, kind });
    }

    /// The state with `config` as its settings and nothing else changed.
    pub fn with_config(self, config: Config) -> (r: AppState)
        ensures
            config_replaced(self, config, r),
    {
        AppState { config, ..self }
    }

    /// The state with its own settings applied: the new-project form starts
    /// over under the configured projects directory, and the default for
    /// removing folders follows the setting.
    pub fn apply_config(self) -> (r: AppState)
        ensures
            configured(self, self.config, r),
    {
        let new_project = Project::default(&self.config);
        let delete_project_folder = self.config.general.delete_project_folder;
        AppState { new_project, delete_project_folder, ..self }
    }

    /// The selected project of the stored list `projects` renamed and
    /// given a new repository, from the edit form; nothing else changes, and
    /// nothing at all where no project is selected.
    pub fn edit_project(&self, projects: &mut Vec<Project>)
        requires
            self.selected_project matches Some(i) ==> i < old(projects)@.len(),
        ensures
            match self.selected_project {
                None => final(projects)@ == old(projects)@,
                Some(i) => renamed_at(
                    old(projects)@,
                    final(projects)@,
                    i as int,
                    self.edit_project_name@,
                    self.edit_project_repo@,
                ),
            },
    {
        if let Some(index) = self.selected_project {
            let mut project = projects.remove(index);
            project.name = self.edit_project_name.clone();
            project.repo = self.edit_project_repo.clone();
            projects.insert(index, project);
        }
    }

    /// The record of a project after the edit form: the form's name and
    /// repository in place of the recorded ones.
    pub fn edit_projman_file(&self, file: &mut ProjmanFile)
        ensures
            final(file).name@ == self.edit_project_name@,
            final(file).repo@ == self.edit_project_repo@,
            final(file).template_name == old(file).template_name,
            final(file).license == old(file).license,
    {
        file.name = self.edit_project_name.clone();
        file.repo = self.edit_project_repo.clone();
    }

    /// The files and folders that removing the selected project deletes:
    /// where the project exists on disk, its record file and its `.projman`
    /// marker file, and its folder too where removing folders is chosen.
    /// Nothing where no project is selected.
    pub fn removal(&self) -> (r: Removal)
        requires
            self.selected_project matches Some(i) ==> i < self.project_list@.len(),
        ensures
            match self.selected_project {
                Some(i) if self.project_list@[i as int].exists => {
                    let path = self.project_list@[i as int].path@;
                    &&& r.projman_file matches Some(f) && f@ == path_join(path, ".projman.toml"@)
                    &&& r.marker matches Some(m) && m@ == path_join(path, ".projman"@)
                    &&& if self.delete_project_folder {
                        r.folder matches Some(d) && d@ == path
                    } else {
                        r.folder is None
                    }
                },
                _ => r.projman_file is None && r.marker is None && r.folder is None,
            },
    {
        if let Some(index) = self.selected_project {
            let project = &self.project_list[index];
            if project.exists {
                let folder = if self.delete_project_folder {
                    Some(project.path.clone())
                } else {
                    None
                };
                proof {
                    reveal_strlit(".projman.toml");
                }
                return Removal {
                    projman_file: Some(join_path(project.path.as_str(), ProjmanFile::FILE_NAME)),
                    marker: Some(Project::marker_path(project.path.as_str())),
                    folder,
                };
            }
        }
        Removal { projman_file: None, marker: None, folder: None }
    }

    /// The stored list `projects` without the selected project; unchanged
    /// where no project is selected.
    pub fn remove_project(&self, projects: &mut Vec<Project>)
        requires
            self.selected_project matches Some(i) ==> i < old(projects)@.len(),
        ensures
            match self.selected_project {
                None => final(projects)@ == old(projects)@,
                Some(i) => final(projects)@ == old(projects)@.remove(i as int),
            },
    {
        if let Some(index) = self.selected_project {
            projects.remove(index);
        }
    }

    /// The shown project list without the selected project; nothing changes
    /// where no project is selected.
    pub fn drop_selected_project(&mut self)
        requires
            old(self).selected_project matches Some(i) ==> i < old(self).project_list@.len(),
        ensures
            match old(self).selected_project {
                None => final(self).project_list@ == old(self).project_list@,
                Some(i) => final(self).project_list@ == old(self).project_list@.remove(i as int),
            },
            same_but_list(*old(self), *final(self)),
    {
        if let Some(index) = self.selected_project {
            self.project_list.remove(index);
        }
    }

    /// Marks the selected project of the stored list `projects` as present on
    /// disk again and gives its position; an error where no project is
    /// selected.
    pub fn restore_project(selected_project: Option<usize>, projects: &mut Vec<Project>) -> (r: Result<usize, Error>)
        requires
            selected_project matches Some(i) ==> i < old(projects)@.len(),
        ensures
            match selected_project {
                None => final(projects)@ == old(projects)@ && (r matches Err(Error::Other(m)) && m@
                    == "Error: No project selected"@),
                Some(i) => r == Ok::<usize, Error>(i) && final(projects)@.len() == old(projects)@.len()
                    && (forall|k: int| 0 <= k < old(projects)@.len() && k != i ==> #[trigger] final(projects)@[k]
                        == old(projects)@[k]) && final(projects)@[i as int] == (Project {
                        exists: true,
                        ..old(projects)@[i as int]
                    }),
            },
    {
        match selected_project {
            None => Err(Error::Other(String::from_str("Error: No project selected"))),
            Some(index) => {
                let mut project = projects.remove(index);
                project.exists = true;
                projects.insert(index, project);
                Ok(index)
            },
        }
    }

    /// Where the project to import lies: the typed path joined onto the
    /// projects directory.
    pub fn import_path(&self) -> (r: String)
        ensures
            r@ == path_join(self.config.general.projects_dir@, self.import_project_path@),
    {
        join_path(self.config.general.projects_dir.as_str(), self.import_project_path.as_str())
    }

    /// The project that the record `file`, found at the import path, stands
    /// for: present on disk, of the base kind, with the record's name,
    /// template, repository and license; an error where no template is kept
    /// under the recorded template name.
    pub fn imported_project(&self, file: ProjmanFile) -> (r: Result<Project, Error>)
        ensures
            match r {
                Ok(p) => self.templates@.contains_key(file.template_name@) && p.exists && file.agrees_with(p)
                    && p.name@ == file.name@ && p.template_name@ == file.template_name@ && p.repo@
                    == file.repo@ && p.license@ == file.license@ && p.path@ == path_join(self.config.general.projects_dir@, self.import_project_path@)
                    && p.project_type == ProjectType::Base,
                Err(e) => !self.templates@.contains_key(file.template_name@) && is_not_found(e, "template"@),
            },
    {
        match self.templates.get(file.template_name.as_str()) {
            Err(e) => Err(e),
            Ok(_) => Ok(
                Project {
                    exists: true,
                    name: file.name,
                    path: self.import_path(),
                    project_type: ProjectType::Base,
                    template_name: file.template_name,
                    repo: file.repo,
                    license: file.license,
                },
            ),
        }
    }

    /// The files that updating the selected project writes: each file of its
    /// template, filled in for the project and placed under its folder. An
    /// error where no project is selected, or where no template is kept
    /// under the project's template name.
    pub fn update_project(&self) -> (r: Result<Vec<File>, Error>)
        requires
            self.selected_project matches Some(i) ==> i < self.project_list@.len(),
        ensures
            match self.selected_project {
                None => r matches Err(Error::Other(m)) && m@ == "Error: No prject selected"@,
                Some(i) => {
                    let p = self.project_list@[i as int];
                    match r {
                        Ok(files) => self.templates@.contains_key(p.template_name@) && {
                            let wanted = self.templates@[p.template_name@].config.files@;
                            &&& files@.len() == wanted.len()
                            &&& forall|k: int|
                                0 <= k < files@.len() ==> {
                                    &&& #[trigger] files@[k].path@ == path_join(
                                        p.path@,
                                        fill_placeholders(wanted[k].path@, p.name@, p.repo@, p.license@),
                                    )
                                    &&& files@[k].contents@ == fill_placeholders(
                                        wanted[k].contents@,
                                        p.name@,
                                        p.repo@,
                                        p.license@,
                                    )
                                }
                        },
                        Err(e) => !self.templates@.contains_key(p.template_name@) && is_not_found(
                            e,
                            "template"@,
                        ),
                    }
                },
            },
    {
        let index = match self.selected_project {
            None => return Err(Error::Other(String::from_str("Error: No prject selected"))),
            Some(index) => index,
        };
        let project = &self.project_list[index];
        let template = match self.templates.get(project.template_name.as_str()) {
            Ok(t) => t,
            Err(e) => return Err(e),
        };
        let ctx = ProjectContext::from(project);
        let wanted = &template.config.files;
        let mut files: Vec<File> = Vec::new();
        let mut k: usize = 0;
        while k < wanted.len()
            invariant
                k <= wanted@.len(),
                files@.len() == k,
                ctx.name@ == project.name@,
                ctx.repo@ == project.repo@,
                ctx.license@ == project.license@,
                forall|j: int|
                    0 <= j < k ==> {
                        &&& #[trigger] files@[j].path@ == path_join(
                            project.path@,
                            fill_placeholders(wanted@[j].path@, project.name@, project.repo@, project.license@),
                        )
                        &&& files@[j].contents@ == fill_placeholders(
                            wanted@[j].contents@,
                            project.name@,
                            project.repo@,
                            project.license@,
                        )
                    },
            decreases wanted.len() - k,
        {
            files.push(wanted[k].resolve(project.path.as_str(), &ctx));
            k = k + 1;
        }
        Ok(files)
    }

    /// The stored list `projects` checked against what the caller found on
    /// disk for each project (`found`, one entry per project, in order):
    /// each project is marked present exactly where its record file was
    /// found and agrees with it. Projects are checked in order, and the
    /// check of a project first looks up its template; the first failure,
    /// a missing template or a record that could not be read, is the error.
    pub fn load_projects(&self, projects: &mut Vec<Project>, found: Vec<ProjectOnDisk>) -> (r: Result<(), Error>)
        requires
            old(projects)@.len() == found@.len(),
        ensures
            match r {
                Ok(()) => final(projects)@.len() == old(projects)@.len() && (forall|i: int|
                    0 <= i < found@.len() ==> !#[trigger] load_fails(
                        old(projects)@[i],
                        found@[i],
                        self.templates@,
                    )) && (forall|i: int|
                    0 <= i < found@.len() ==> #[trigger] final(projects)@[i] == (Project {
                        exists: found_present(old(projects)@[i], found@[i]),
                        ..old(projects)@[i]
                    })),
                Err(e) => first_load_failure(old(projects)@, found@, self.templates@, e),
            },
    {
        let ghost found0 = found@;
        let ghost projects0 = old(projects)@;
        let mut disk = found;
        let n = projects.len();
        let mut i: usize = 0;
        while i < n
            invariant
                n == projects0.len(),
                projects0 == old(projects)@,
                found0 == found@,
                disk@ == found0,
                found0.len() == n,
                projects@.len() == n,
                i <= n,
                forall|j: int| 0 <= j < i ==> !#[trigger] load_fails(projects0[j], found0[j], self.templates@),
                forall|j: int|
                    0 <= j < i ==> #[trigger] projects@[j] == (Project {
                        exists: found_present(projects0[j], found0[j]),
                        ..projects0[j]
                    }),
                forall|j: int| i <= j < n ==> #[trigger] projects@[j] == projects0[j],
            decreases n - i,
        {
            if let Err(e) = self.templates.get(projects[i].template_name.as_str()) {
                assert(load_fails(projects0[i as int], found0[i as int], self.templates@));
                assert(load_error(projects0[i as int], found0[i as int], self.templates@, e));
                assert(first_load_failure(projects0, found0, self.templates@, e));
                return Err(e);
            }
            let present = match &disk[i] {
                ProjectOnDisk::NoDirectory => false,
                ProjectOnDisk::NoProjmanFile => false,
                ProjectOnDisk::Failed(_) => {
                    let item = disk.remove(i);
                    if let ProjectOnDisk::Failed(e) = item {
                        assert(load_fails(projects0[i as int], found0[i as int], self.templates@));
                        assert(load_error(projects0[i as int], found0[i as int], self.templates@, e));
                        assert(first_load_failure(projects0, found0, self.templates@, e));
                        return Err(e);
                    }
                    return Ok(());
                },
                ProjectOnDisk::Found(m) => m.describes(&projects[i]),
            };
            let mut p = projects.remove(i);
            p.exists = present;
            projects.insert(i, p);
            i = i + 1;
        }
        Ok(())
    }
    /// The stored list `projects` with `project` added at its end, as
    /// importing or creating a project does.
    pub fn add_project(projects: &mut Vec<Project>, project: Project)
        ensures
            final(projects)@ == old(projects)@.push(project),
    {
        projects.push(project);
    }

    /// The stored list `projects` with each project marked present exactly
    /// where its folder is a directory holding a `.projman` marker file
    /// (`found`, one entry per project, in order); nothing else changes.
    pub fn mark_existing(projects: &mut Vec<Project>, found: &Vec<MarkerOnDisk>)
        requires
            old(projects)@.len() == found@.len(),
        ensures
            final(projects)@.len() == old(projects)@.len(),
            forall|i: int|
                0 <= i < found@.len() ==> #[trigger] final(projects)@[i] == (Project {
                    exists: found@[i].is_dir && found@[i].marker_is_file,
                    ..old(projects)@[i]
                }),
    {
        let ghost before = projects@;
        let n = projects.len();
        let mut i: usize = 0;
        while i < n
            invariant
                n == before.len(),
                n == found@.len(),
                projects@.len() == n,
                i <= n,
                forall|j: int|
                    0 <= j < i ==> #[trigger] projects@[j] == (Project {
                        exists: found@[j].is_dir && found@[j].marker_is_file,
                        ..before[j]
                    }),
                forall|j: int| i <= j < n ==> #[trigger] projects@[j] == before[j],
            decreases n - i,
        {
            let mut p = projects.remove(i);
            p.exists = found[i].is_dir && found[i].marker_is_file;
            projects.insert(i, p);
            i = i + 1;
        }
    }
}

/// What the caller found on disk for a stored project: no folder, a folder
/// without a record file, a record file that could not be read or parsed
/// (with the error), or the record it holds.
#[derive(Debug)]
pub enum ProjectOnDisk {
    NoDirectory,
    NoProjmanFile,
    Failed(Error),
    Found(ProjmanFile),
}

/// The project `p` is present on disk: its record file was found and agrees with it.
pub open spec fn found_present(p: Project, found: ProjectOnDisk) -> bool {
    match found {
        ProjectOnDisk::Found(m) => m.agrees_with(p),
        _ => false,
    }
}

/// Checking `p` fails: no template is kept under its template name, or its
/// record file could not be read.
pub open spec fn load_fails(p: Project, found: ProjectOnDisk, templates: Map<Seq<char>, crate::template::Template>) -> bool {
    !templates.contains_key(p.template_name@) || found is Failed
}

/// Checking the projects `ps` against `found` in order fails first at some
/// project, and `e` is the error of that failure.
pub open spec fn first_load_failure(
    ps: Seq<Project>,
    found: Seq<ProjectOnDisk>,
    templates: Map<Seq<char>, crate::template::Template>,
    e: Error,
) -> bool {
    exists|i: int|
        0 <= i < found.len() && i < ps.len() && #[trigger] load_fails(ps[i], found[i], templates) && (forall|j: int|
            0 <= j < i ==> !#[trigger] load_fails(ps[j], found[j], templates)) && load_error(
            ps[i],
            found[i],
            templates,
            e,
        )
}

/// `e` is the error of a failed check of `p`: that the template cannot be
/// found, where it is missing, else the error met reading the record file.
pub open spec fn load_error(p: Project, found: ProjectOnDisk, templates: Map<Seq<char>, crate::template::Template>, e: Error) -> bool {
    if !templates.contains_key(p.template_name@) {
        is_not_found(e, "template"@)
    } else {
        found == ProjectOnDisk::Failed(e)
    }
}

/// What the caller found on disk for a stored project: whether its folder is
/// a directory, and whether its `.projman` marker is a file.
#[derive(Debug)]
pub struct MarkerOnDisk {
    pub is_dir: bool,
    pub marker_is_file: bool,
}

/// What removing a project deletes on disk.
#[derive(Debug)]
pub struct Removal {
    pub projman_file: Option<String>,
    pub marker: Option<String>,
    pub folder: Option<String>,
}

impl Removal {
    /// The project files to delete, given which of them the caller found on
    /// disk: the record file and the marker, each where it is there; where
    /// neither is there,
    /// the record file alone, whose deletion then reports what is missing.
    /// Nothing where the plan names no project file.
    pub fn files_to_delete(&self, record_on_disk: bool, marker_on_disk: bool) -> (r: Vec<String>)
        ensures
            match (self.projman_file, self.marker) {
                (Some(f), Some(m)) => if !record_on_disk && !marker_on_disk {
                    r@.len() == 1 && r@[0]@ == f@
                } else {
                    r@.len() == (if record_on_disk { 1int } else { 0 }) + (if marker_on_disk { 1int } else { 0 })
                        && (record_on_disk ==> r@[0]@ == f@)
                        && (marker_on_disk ==> r@[r@.len() - 1]@ == m@)
                },
                (Some(f), None) => r@.len() == 1 && r@[0]@ == f@,
                (None, Some(m)) => r@.len() == 1 && r@[0]@ == m@,
                (None, None) => r@.len() == 0,
            },
    {
        let mut r: Vec<String> = Vec::new();
        match (&self.projman_file, &self.marker) {
            (Some(f), Some(m)) => {
                if record_on_disk || !marker_on_disk {
                    r.push(f.clone());
                }
                if marker_on_disk {
                    r.push(m.clone());
                }
            },
            (Some(f), None) => {
                r.push(f.clone());
            },
            (None, Some(m)) => {
                r.push(m.clone());
            },
            (None, None) => {},
        }
        r
    }
}

/// `p` is the project that the creation form starts from under the settings
/// `config` (see `Project::default`).
pub open spec fn fresh_new_project(p: Project, config: Config) -> bool {
    &&& p.exists
    &&& p.name@ == new_project_name()
    &&& p.path@ == path_join(config.general.projects_dir@, new_project_name())
    &&& p.project_type == ProjectType::Base
    &&& p.template_name@ == Seq::<char>::empty()
    &&& p.repo@ == Seq::<char>::empty()
    &&& p.license@ == Seq::<char>::empty()
}

/// `b` agrees with `a` on everything but the settings, the new-project form
/// and the default for removing folders.
pub open spec fn same_but_settings(a: AppState, b: AppState) -> bool {
    &&& b.project_list == a.project_list
    &&& b.new_project_path_changed == a.new_project_path_changed
    &&& b.selected_project == a.selected_project
    &&& b.pending == a.pending
    &&& b.project_restoration_failed == a.project_restoration_failed
    &&& b.restoring_project == a.restoring_project
    &&& b.import_project_path == a.import_project_path
    &&& b.edit_project_name == a.edit_project_name
    &&& b.edit_project_repo == a.edit_project_repo
    &&& b.notifications == a.notifications
    &&& b.sidebar_expanded == a.sidebar_expanded
    &&& b.templates == a.templates
}

/// `r` is `a` with the settings `config` taken in: the new-project form
/// starts over under them, and the default for removing folders follows them.
pub open spec fn configured(a: AppState, config: Config, r: AppState) -> bool {
    &&& r.config == config
    &&& fresh_new_project(r.new_project, config)
    &&& r.delete_project_folder == config.general.delete_project_folder
    &&& same_but_settings(a, r)
}

/// `r` is `a` with `config` as its settings and nothing else changed.
pub open spec fn config_replaced(a: AppState, config: Config, r: AppState) -> bool {
    &&& r.config == config
    &&& r.new_project == a.new_project
    &&& r.delete_project_folder == a.delete_project_folder
    &&& same_but_settings(a, r)
}

/// Replacing the settings and then applying them leaves the state that
/// taking the settings in at once leaves (up to the text of the form's
/// fields, which agree).
pub proof fn lemma_replace_then_apply(a: AppState, config: Config, b: AppState, d: AppState, e: AppState)
    requires
        config_replaced(a, config, b),
        configured(b, b.config, d),
        configured(a, config, e),
    ensures
        d.config == e.config,
        d.delete_project_folder == e.delete_project_folder,
        same_but_settings(e, d),
        d.new_project.exists == e.new_project.exists,
        d.new_project.name@ == e.new_project.name@,
        d.new_project.path@ == e.new_project.path@,
        d.new_project.project_type == e.new_project.project_type,
        d.new_project.template_name@ == e.new_project.template_name@,
        d.new_project.repo@ == e.new_project.repo@,
        d.new_project.license@ == e.new_project.license@,
{
}

/// `ns` with the notification `n` added at the end, unless one with the same
/// text is already among them.
pub open spec fn pushed(ns: Seq<Notification>, n: Notification) -> Seq<Notification> {
    if exists|i: int| 0 <= i < ns.len() && #[trigger] ns[i].text@ == n.text@ {
        ns
    } else {
        ns.push(n)
    }
}

/// Adding a notification never makes a text occur twice.
pub proof fn lemma_pushed_keeps_texts_distinct(ns: Seq<Notification>, n: Notification)
    requires
        texts_distinct(ns),
    ensures
        texts_distinct(pushed(ns, n)),
{
    let r = pushed(ns, n);
    if !(exists|i: int| 0 <= i < ns.len() && #[trigger] ns[i].text@ == n.text@) {
        assert forall|i: int, j: int|
            0 <= i < r.len() && 0 <= j < r.len() && i != j implies #[trigger] r[i].text@ != #[trigger] r[j].text@ by {
            if i < ns.len() && j < ns.len() {
                assert(r[i] == ns[i] && r[j] == ns[j]);
            } else if i < ns.len() {
                assert(r[i] == ns[i]);
            } else {
                assert(r[j] == ns[j]);
            }
        }
    }
}

/// Adding a notification a second time, with the same text, changes nothing.
pub proof fn lemma_pushed_twice(ns: Seq<Notification>, n: Notification, m: Notification)
    requires
        m.text@ == n.text@,
    ensures
        pushed(pushed(ns, n), m) == pushed(ns, n),
{
    let once = pushed(ns, n);
    if !(exists|i: int| 0 <= i < ns.len() && #[trigger] ns[i].text@ == n.text@) {
        assert(once[ns.len() as int].text@ == m.text@);
    }
}

/// Editing a project and its record file alike keeps the record in
/// agreement with the project.
pub proof fn lemma_edit_keeps_record_agreeing(
    before: Seq<Project>,
    after: Seq<Project>,
    i: int,
    name: Seq<char>,
    repo: Seq<char>,
    file: ProjmanFile,
    edited: ProjmanFile,
)
    requires
        0 <= i < before.len(),
        renamed_at(before, after, i, name, repo),
        file.agrees_with(before[i]),
        edited.name@ == name,
        edited.repo@ == repo,
        edited.template_name == file.template_name,
        edited.license == file.license,
    ensures
        edited.agrees_with(after[i]),
{
}

/// `b` is `a` with at most the notifications changed.
pub open spec fn same_but_notifications(a: AppState, b: AppState) -> bool {
    &&& b.config == a.config
    &&& b.project_list == a.project_list
    &&& b.new_project == a.new_project
    &&& b.new_project_path_changed == a.new_project_path_changed
    &&& b.selected_project == a.selected_project
    &&& b.delete_project_folder == a.delete_project_folder
    &&& b.pending == a.pending
    &&& b.project_restoration_failed == a.project_restoration_failed
    &&& b.restoring_project == a.restoring_project
    &&& b.import_project_path == a.import_project_path
    &&& b.edit_project_name == a.edit_project_name
    &&& b.edit_project_repo == a.edit_project_repo
    &&& b.sidebar_expanded == a.sidebar_expanded
    &&& b.templates == a.templates
}

/// `b` is `a` with at most the shown project list changed.
pub open spec fn same_but_list(a: AppState, b: AppState) -> bool {
    &&& b.config == a.config
    &&& b.new_project == a.new_project
    &&& b.new_project_path_changed == a.new_project_path_changed
    &&& b.selected_project == a.selected_project
    &&& b.delete_project_folder == a.delete_project_folder
    &&& b.pending == a.pending
    &&& b.project_restoration_failed == a.project_restoration_failed
    &&& b.restoring_project == a.restoring_project
    &&& b.import_project_path == a.import_project_path
    &&& b.edit_project_name == a.edit_project_name
    &&& b.edit_project_repo == a.edit_project_repo
    &&& b.notifications == a.notifications
    &&& b.sidebar_expanded == a.sidebar_expanded
    &&& b.templates == a.templates
}

} // verus!
