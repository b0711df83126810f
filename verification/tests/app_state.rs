use projman::app_state::{AppState, MarkerOnDisk, NotifKind, Popup, ProjectOnDisk};
use projman::config::{Config, General, IcedTheme, Theme};
use projman::error::{Error, ErrorInfo};
use projman::project::{Project, ProjectType, ProjmanFile};
use projman::template::file::File;
use projman::template::template_config::TemplateConfig;
use projman::template::Template;
use projman::templates::Templates;
use projman::ui::{create_path_is_valid, import_path_is_valid, BranchConnector};

fn s(x: &str) -> String {
    x.to_string()
}

fn project(name: &str, template_name: &str) -> Project {
    Project {
        exists: true,
        name: s(name),
        path: format!("/home/me/projects/{name}"),
        project_type: ProjectType::Base,
        template_name: s(template_name),
        repo: s("git@github.com:me/x.git"),
        license: s("MIT"),
    }
}

fn templates() -> Templates {
    let mut config = TemplateConfig::default();
    config.files.push(File { path: s("README.md"), contents: s("# #{name} (#{license})") });
    config.files.push(File { path: s("#{name}.txt"), contents: s("#{repo}") });
    let mut ts = Templates::new();
    ts.insert(s("Base"), Template::new("Base", config, "/cfg/Base"));
    ts
}

fn state() -> AppState {
    AppState::new(Ok(vec![project("a", "Base"), project("b", "Base"), project("c", "Base")]), templates())
}

#[test]
fn start_up_state() {
    let st = state();
    assert_eq!(st.project_list.len(), 3);
    assert!(st.notifications.is_empty());
    assert!(st.selected_project.is_none());
    assert!(st.pending.is_none());
    assert!(st.sidebar_expanded);
    assert_eq!(st.new_project.name, "NewProject");
    let failed = AppState::new(Err(s("cannot read projects.json")), Templates::new());
    assert!(failed.project_list.is_empty());
    assert_eq!(failed.notifications.len(), 1);
    assert_eq!(failed.notifications[0].text, "cannot read projects.json");
    assert!(failed.notifications[0].kind == NotifKind::Error);
}

#[test]
fn settings_are_taken_in() {
    let config = Config {
        general: General { projects_dir: s("/home/me/projects/"), delete_project_folder: true },
        theme: Theme { theme: IcedTheme::Nord },
    };
    let st = state().config(config);
    assert_eq!(st.new_project.path, "/home/me/projects/NewProject");
    assert!(st.delete_project_folder);
    assert!(st.config.theme.theme == IcedTheme::Nord);
    let config2 = Config {
        general: General { projects_dir: s("/p"), delete_project_folder: true },
        theme: Theme { theme: IcedTheme::Dark },
    };
    let replaced = state().with_config(config2);
    assert!(!replaced.delete_project_folder);
    assert_eq!(replaced.new_project.path, "NewProject");
    let applied = replaced.apply_config();
    assert!(applied.delete_project_folder);
    assert_eq!(applied.new_project.path, "/p/NewProject");
}

#[test]
fn notifications_are_not_repeated() {
    let mut st = state();
    st.push_notification(s("disk full"), NotifKind::Error);
    st.push_notification(s("disk full"), NotifKind::Warning);
    st.push_notification(s("other"), NotifKind::Warning);
    assert_eq!(st.notifications.len(), 2);
    assert!(st.notifications[0].kind == NotifKind::Error);
    assert_eq!(st.notifications[1].text, "other");
}

#[test]
fn editing_renames_the_selected_project() {
    let mut st = state();
    st.edit_project_name = s("renamed");
    st.edit_project_repo = s("git@h:new.git");
    let mut stored = vec![project("a", "Base"), project("b", "Base")];
    st.edit_project(&mut stored);
    assert_eq!(stored[1].name, "b");
    st.selected_project = Some(1);
    st.edit_project(&mut stored);
    assert_eq!(stored[1].name, "renamed");
    assert_eq!(stored[1].repo, "git@h:new.git");
    assert_eq!(stored[1].license, "MIT");
    assert_eq!(stored[0].name, "a");
    let mut record = ProjmanFile::from_project(&project("b", "Base"));
    st.edit_projman_file(&mut record);
    assert!(record.describes(&stored[1]));
}

#[test]
fn removing_the_selected_project() {
    let mut st = state();
    assert!(st.removal().projman_file.is_none());
    st.selected_project = Some(1);
    let r = st.removal();
    assert_eq!(r.projman_file, Some(s("/home/me/projects/b/.projman.toml")));
    assert_eq!(r.marker, Some(s("/home/me/projects/b/.projman")));
    assert_eq!(r.folder, None);
    st.delete_project_folder = true;
    assert_eq!(st.removal().folder, Some(s("/home/me/projects/b")));
    st.project_list[1].exists = false;
    assert!(st.removal().projman_file.is_none() && st.removal().marker.is_none() && st.removal().folder.is_none());
    let mut stored = vec![project("a", "Base"), project("b", "Base"), project("c", "Base")];
    st.remove_project(&mut stored);
    assert_eq!(stored.iter().map(|p| p.name.clone()).collect::<Vec<_>>(), vec!["a", "c"]);
    st.drop_selected_project();
    assert_eq!(st.project_list.len(), 2);
    assert_eq!(st.project_list[1].name, "c");
}

#[test]
fn restoring_marks_present() {
    let mut stored = vec![project("a", "Base"), project("b", "Base")];
    stored[1].exists = false;
    assert!(matches!(AppState::restore_project(None, &mut stored), Err(Error::Other(ref m)) if m == "Error: No project selected"));
    assert_eq!(AppState::restore_project(Some(1), &mut stored).ok(), Some(1));
    assert!(stored[1].exists);
}

#[test]
fn importing_a_project_record() {
    let mut st = state();
    st.config.general.projects_dir = s("/home/me/projects/");
    st.import_project_path = s("imported");
    assert_eq!(st.import_path(), "/home/me/projects/imported");
    let record = ProjmanFile { name: s("imp"), template_name: s("Base"), repo: s("r"), license: s("GPL") };
    let p = st.imported_project(record).ok().unwrap();
    assert!(p.exists);
    assert_eq!(p.path, "/home/me/projects/imported");
    assert_eq!(p.license, "GPL");
    let unknown = ProjmanFile { name: s("imp"), template_name: s("Nope"), repo: s("r"), license: s("GPL") };
    assert!(matches!(st.imported_project(unknown), Err(Error::Find(_))));
}

#[test]
fn updating_writes_the_template_files() {
    let mut st = state();
    assert!(matches!(st.update_project(), Err(Error::Other(ref m)) if m == "Error: No prject selected"));
    st.selected_project = Some(0);
    let files = st.update_project().ok().unwrap();
    assert_eq!(files.len(), 2);
    assert_eq!(files[0].path, "/home/me/projects/a/README.md");
    assert_eq!(files[0].contents, "# a (MIT)");
    assert_eq!(files[1].path, "/home/me/projects/a/a.txt");
    assert_eq!(files[1].contents, "git@github.com:me/x.git");
    st.project_list[0].template_name = s("Gone");
    assert!(matches!(st.update_project(), Err(Error::Find(_))));
}

#[test]
fn loading_checks_each_project_on_disk() {
    let st = state();
    let mut stored = vec![project("a", "Base"), project("b", "Base"), project("c", "Base"), project("d", "Base")];
    let mut stale = ProjmanFile::from_project(&stored[3]);
    stale.repo = s("elsewhere");
    let found = vec![
        ProjectOnDisk::Found(ProjmanFile::from_project(&stored[0])),
        ProjectOnDisk::NoDirectory,
        ProjectOnDisk::NoProjmanFile,
        ProjectOnDisk::Found(stale),
    ];
    assert!(st.load_projects(&mut stored, found).is_ok());
    assert_eq!(stored.iter().map(|p| p.exists).collect::<Vec<_>>(), vec![true, false, false, false]);

    let mut stored = vec![project("a", "Base"), project("b", "Missing"), project("c", "Base")];
    let found = vec![
        ProjectOnDisk::NoDirectory,
        ProjectOnDisk::NoDirectory,
        ProjectOnDisk::Failed(Error::Read(ErrorInfo { string: s("x"), err: s("y") })),
    ];
    assert!(matches!(st.load_projects(&mut stored, found), Err(Error::Find(_))));

    let mut stored = vec![project("a", "Base"), project("b", "Base")];
    let found = vec![
        ProjectOnDisk::Failed(Error::Parse(ErrorInfo { string: s(".projman.toml"), err: s("bad") })),
        ProjectOnDisk::NoDirectory,
    ];
    assert!(matches!(st.load_projects(&mut stored, found), Err(Error::Parse(ref i)) if i.err == "bad"));
}

#[test]
fn form_checks() {
    assert!(import_path_is_valid("/home/me/projects/x/.projman.toml", "/home/me/projects/"));
    assert!(!import_path_is_valid("/home/me/projects/x/projman.toml", "/home/me/projects/"));
    assert!(!import_path_is_valid("/tmp/x/.projman.toml", "/home/me/projects/"));
    assert!(create_path_is_valid("/anywhere", "/home/me/projects/", false, false));
    assert!(create_path_is_valid("/home/me/projects/x", "/home/me/projects/", true, true));
    assert!(!create_path_is_valid("/home/me/projects/x", "/home/me/projects/", true, false));
    assert!(!create_path_is_valid("/tmp/x", "/home/me/projects/", true, true));
    let _ = Popup::Edit;
}

#[test]
fn branch_connectors() {
    assert!(BranchConnector::for_branch(0, 1) == BranchConnector::Only);
    assert!(BranchConnector::for_branch(0, 3) == BranchConnector::First);
    assert!(BranchConnector::for_branch(1, 3) == BranchConnector::Middle);
    assert!(BranchConnector::for_branch(2, 3) == BranchConnector::Last);
}

#[test]
fn markers_decide_presence() {
    let mut stored = vec![project("a", "Base"), project("b", "Base"), project("c", "Base")];
    stored[2].exists = false;
    let found = vec![
        MarkerOnDisk { is_dir: true, marker_is_file: true },
        MarkerOnDisk { is_dir: true, marker_is_file: false },
        MarkerOnDisk { is_dir: true, marker_is_file: true },
    ];
    AppState::mark_existing(&mut stored, &found);
    assert_eq!(stored.iter().map(|p| p.exists).collect::<Vec<_>>(), vec![true, false, true]);
    assert_eq!(stored[1].name, "b");
}

#[test]
fn imported_project_is_present() {
    let p = Project::imported(s("n"), s("/p/n"), ProjectType::Base, s("r"), s("MIT"));
    assert!(p.exists);
    assert_eq!(p.path, "/p/n");
    assert_eq!(p.template_name, "");
    assert_eq!(p.license, "MIT");
}

#[test]
fn added_projects_go_last() {
    let mut stored = vec![project("a", "Base")];
    AppState::add_project(&mut stored, project("b", "Base"));
    assert_eq!(stored.iter().map(|p| p.name.clone()).collect::<Vec<_>>(), vec!["a", "b"]);
}

#[test]
fn project_files_to_delete() {
    let mut st = state();
    st.selected_project = Some(0);
    let r = st.removal();
    assert_eq!(r.files_to_delete(true, true), vec!["/home/me/projects/a/.projman.toml", "/home/me/projects/a/.projman"]);
    assert_eq!(r.files_to_delete(false, true), vec!["/home/me/projects/a/.projman"]);
    assert_eq!(r.files_to_delete(true, false), vec!["/home/me/projects/a/.projman.toml"]);
    assert_eq!(r.files_to_delete(false, false), vec!["/home/me/projects/a/.projman.toml"]);
    st.selected_project = None;
    assert!(st.removal().files_to_delete(true, true).is_empty());
}
