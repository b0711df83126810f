use projman::app_state::AppState;
use projman::config::{Config, General, IcedTheme, Theme};
use projman::path::{join_path, starts_with_path};
use projman::project::{DirListing, PathStatus, Project, ProjectType};
use projman::template::file::File;
use projman::template::folder::Folder;
use projman::template::project_context::ProjectContext;
use projman::templates::Templates;

fn s(x: &str) -> String {
    x.to_string()
}

#[test]
fn joined_paths_lie_under_their_base() {
    for base in ["/home/me/projects/", "/home/me/projects", "", "rel/dir", "/", "./x"] {
        for p in ["NewProject", "a/b", "./c", "", "../up"] {
            assert!(starts_with_path(&join_path(base, p), base), "{base} {p}");
        }
    }
}

#[test]
fn new_project_passes_the_projects_dir_check() {
    for dir in ["/home/me/projects/", "/srv/p"] {
        let config = Config {
            general: General { projects_dir: s(dir), delete_project_folder: false },
            theme: Theme { theme: IcedTheme::Dark },
        };
        let p = Project::default(&config);
        let free = PathStatus { exists: false, listing: DirListing::Empty, readonly_ancestor: false };
        assert_eq!(p.path_is_valid(dir, &free), (true, s("")));
    }
}

#[test]
fn template_output_lies_under_the_project_folder() {
    let ctx = ProjectContext { name: "proj", repo: "r", license: "MIT" };
    let tree = Folder {
        name: s("#{name}"),
        sub_dirs: vec![Folder { name: s("src"), sub_dirs: vec![Folder { name: s("a/b"), sub_dirs: vec![] }] }],
    };
    for dir in tree.resolve("/p/x", &ctx) {
        assert!(starts_with_path(&dir, "/p/x"));
    }
    let f = File { path: s("docs/#{name}.md"), contents: s("") };
    assert!(starts_with_path(&f.resolve("/p/x", &ctx).path, "/p/x"));
}

#[test]
fn kind_names_read_back() {
    for t in ProjectType::all() {
        assert!(ProjectType::from_str(t.name()).ok().unwrap() == t);
    }
}

#[test]
fn replacing_then_applying_settings_is_taking_them_in() {
    let config = || Config {
        general: General { projects_dir: s("/q/"), delete_project_folder: true },
        theme: Theme { theme: IcedTheme::Ferra },
    };
    let a = AppState::new(Ok(vec![]), Templates::new()).with_config(config()).apply_config();
    let b = AppState::new(Ok(vec![]), Templates::new()).config(config());
    assert_eq!(a.new_project.path, b.new_project.path);
    assert_eq!(a.new_project.name, b.new_project.name);
    assert_eq!(a.delete_project_folder, b.delete_project_folder);
    assert_eq!(a.config.general.projects_dir, b.config.general.projects_dir);
}
