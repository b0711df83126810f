use projman::config::{Config, General, IcedTheme, Theme};
use projman::error::Error;
use projman::project::{DirListing, PathStatus, Project, ProjectType, ProjmanFile};
use projman::template::command::Command;
use projman::template::file::File;
use projman::template::folder::Folder;
use projman::template::project_context::ProjectContext;
use projman::template::template_config::TemplateConfig;
use projman::template::Template;
use projman::templates::{template_name_for_file, Templates};

fn s(x: &str) -> String {
    x.to_string()
}

fn config_with(dir: &str) -> Config {
    Config {
        general: General { projects_dir: s(dir), delete_project_folder: false },
        theme: Theme { theme: IcedTheme::Dark },
    }
}

fn template_with_run(name: &str) -> Template {
    let mut config = TemplateConfig::default();
    config.run.push(Command { program: s("cargo"), args: vec![s("run"), s("--release")] });
    config.files.push(File { path: s("README.md"), contents: s("# #{name}\n#{repo} (#{license})") });
    config.included_paths = vec![s("src"), s("/abs")];
    config.excluded_paths = vec![s("target"), s(".git")];
    Template::new(name, config, "/cfg/templates/base")
}

fn project(name: &str, template_name: &str) -> Project {
    Project {
        exists: true,
        name: s(name),
        path: format!("/home/me/projects/{name}"),
        project_type: ProjectType::Base,
        template_name: s(template_name),
        repo: s("git@github.com:me/x.git"),
        license: s("MIT"),
    }
}

#[test]
fn context_fills_each_placeholder() {
    let ctx = ProjectContext { name: "proj", repo: "git@h:r.git", license: "MIT" };
    assert_eq!(ctx.format("#{name} at #{repo} under #{license}"), "proj at git@h:r.git under MIT");
    assert_eq!(ctx.format("plain text"), "plain text");
    assert_eq!(ctx.format("#{name}"), "proj");
    // the name is filled in before the repository
    let tricky = ProjectContext { name: "#{repo}", repo: "R", license: "L" };
    assert_eq!(tricky.format("#{name}"), "R");
}

#[test]
fn file_resolves_path_and_contents() {
    let ctx = ProjectContext { name: "proj", repo: "r", license: "MIT" };
    let f = File { path: s("src/#{name}.rs"), contents: s("// #{license}") };
    let r = f.resolve("/root/dir", &ctx);
    assert_eq!(r.path, "/root/dir/src/proj.rs");
    assert_eq!(r.contents, "// MIT");
}

#[test]
fn folder_resolves_depth_first_under_its_own_path() {
    let ctx = ProjectContext { name: "proj", repo: "r", license: "MIT" };
    let tree = Folder {
        name: s("#{name}"),
        sub_dirs: vec![
            Folder { name: s("src"), sub_dirs: vec![Folder { name: s("bin"), sub_dirs: vec![] }] },
            Folder { name: s("docs"), sub_dirs: vec![] },
        ],
    };
    assert_eq!(
        tree.resolve("/p", &ctx),
        vec!["/p/proj", "/p/proj/src", "/p/proj/src/bin", "/p/proj/docs"]
    );
}

#[test]
fn command_is_shown_with_its_arguments() {
    let c = Command { program: s("cargo"), args: vec![s("build"), s("--release")] };
    assert_eq!(c.to_string(), "cargo build --release");
    let bare = Command { program: s("make"), args: vec![] };
    assert_eq!(bare.to_string(), "make ");
}

#[test]
fn template_paths() {
    let t = template_with_run("Base");
    assert_eq!(t.icon_path, "/cfg/templates/base/icon.svg");
    assert_eq!(Template::config_path("/cfg/templates/base"), "/cfg/templates/base/template.yaml");
    assert_eq!(t.included_paths("/root"), vec!["/root/src", "/abs"]);
    assert_eq!(t.excluded_paths(), vec!["target", ".git"]);
}

#[test]
fn templates_keep_one_template_per_name() {
    let mut ts = Templates::new();
    assert!(matches!(ts.get("Base"), Err(Error::Find(ref i)) if i.string == "template" && i.err.is_empty()));
    ts.insert(s("Base"), template_with_run("Base"));
    ts.insert(s("Web"), template_with_run("Web"));
    let mut again = template_with_run("Base");
    again.icon_path = s("/other.svg");
    ts.insert(s("Base"), again);
    let mut names = ts.template_names();
    names.sort();
    assert_eq!(names, vec!["Base", "Web"]);
    assert_eq!(ts.get("Base").ok().unwrap().icon_path, "/other.svg");
    assert_eq!(ts.get("Web").ok().unwrap().name, "Web");
    assert!(ts.get("web").is_err());
}

#[test]
fn template_files_are_the_json_files() {
    assert_eq!(template_name_for_file("rust.json"), Some(s("rust")));
    assert_eq!(template_name_for_file("a.b.json"), Some(s("a.b")));
    assert_eq!(template_name_for_file(".json"), None);
    assert_eq!(template_name_for_file("rust.yaml"), None);
    assert_eq!(template_name_for_file("json"), None);
}

#[test]
fn config_validity() {
    assert!(config_with("/home/me/projects/").is_valid(true).is_ok());
    let msg = config_with("/home/me/projects").is_valid(true).unwrap_err();
    assert_eq!(
        msg,
        "Error: Failed to run projman please make sure projects_dir in .config/projman/config.toml is a valid directory (Dont forget the trailing slash!!)"
    );
    assert!(config_with("").is_valid(true).is_err());
    assert!(config_with("/nowhere/").is_valid(false).is_err());
    let d = Config::default();
    assert_eq!(d.general.projects_dir, "");
    assert!(!d.general.delete_project_folder);
    assert!(d.theme.theme == IcedTheme::Dark);
}

#[test]
fn project_type_names() {
    assert_eq!(ProjectType::Base.name(), "Base");
    assert!(ProjectType::from_str("Base").ok().unwrap() == ProjectType::Base);
    assert_eq!(ProjectType::from_str("Rust").unwrap_err(), "Project type is not valid!");
    assert_eq!(ProjectType::all().len(), 1);
    assert!(ProjectType::default() == ProjectType::Base);
}

#[test]
fn default_project_lies_in_projects_dir() {
    let p = Project::default(&config_with("/home/me/projects/"));
    assert!(p.exists);
    assert_eq!(p.name, "NewProject");
    assert_eq!(p.path, "/home/me/projects/NewProject");
    assert_eq!(p.repo, "");
    assert_eq!(Project::marker_path("/home/me/p"), "/home/me/p/.projman");
}

#[test]
fn running_uses_the_kind_template() {
    let mut ts = Templates::new();
    let p = project("x", "Base");
    assert!(p.run(&ts).is_err());
    ts.insert(s("Base"), template_with_run("Base"));
    let runs = p.run(&ts).ok().unwrap();
    assert_eq!(runs.len(), 1);
    assert_eq!(runs[0].program, "cargo");
    assert_eq!(runs[0].args, vec!["run", "--release"]);
    assert_eq!(runs[0].dir, "/home/me/projects/x");
    assert!(ProjectType::Base.template(&ts).is_ok());
}

#[test]
fn path_validity_reports_the_first_problem() {
    let free = PathStatus { exists: false, listing: DirListing::Empty, readonly_ancestor: false };
    let mut p = project("x", "Base");
    assert_eq!(p.path_is_valid("/home/me/projects/", &free), (true, s("")));
    p.path = s("/elsewhere/x");
    assert_eq!(
        p.path_is_valid("/home/me/projects/", &free),
        (false, s("Cannot create project in this directory!\n(not in projects_dir)"))
    );
    p.path = s("home/me/projects/x");
    assert_eq!(
        p.path_is_valid("home/me/projects/", &free),
        (false, s("Cannot create project in this directory!\n(missing root slash)"))
    );
    p.path = s("/home/me/projects/x");
    let full = PathStatus { exists: true, listing: DirListing::NotEmpty, readonly_ancestor: true };
    assert_eq!(
        p.path_is_valid("/home/me/projects/", &full),
        (false, s("Cannot create project in this directory!\n(dir exists and isnt empty)"))
    );
    let unreadable = PathStatus { exists: true, listing: DirListing::Unreadable, readonly_ancestor: false };
    assert_eq!(
        p.path_is_valid("/home/me/projects/", &unreadable),
        (false, s("Cannot create project in this directory!\n(could not validate dir)"))
    );
    let readonly = PathStatus { exists: false, listing: DirListing::NotEmpty, readonly_ancestor: true };
    assert_eq!(
        p.path_is_valid("/home/me/projects/", &readonly),
        (false, s("Cannot create project in this directory!\n(permission denied)"))
    );
}

#[test]
fn record_files_describe_projects() {
    let p = project("x", "Base");
    let m = ProjmanFile::from_project(&p);
    assert!(m.describes(&p));
    assert_eq!(ProjmanFile::FILE_NAME, ".projman.toml");
    let mut other = project("y", "Base");
    assert!(!m.describes(&other));
    other.name = s("x");
    other.license = s("GPL");
    assert!(!m.describes(&other));
}
