use projman::path::{join_path, path_components, starts_with_path};
use projman::repo::browser_url;
use projman::text::{ends_with, replace, starts_with, str_eq};

#[test]
fn replace_matches_left_to_right_without_overlap() {
    assert_eq!(replace("aaaa", "aa", "b"), "bb");
    assert_eq!(replace("aaa", "aa", "b"), "ba");
    assert_eq!(replace("hello world", "o", "0"), "hell0 w0rld");
    assert_eq!(replace("nothing here", "#{name}", "x"), "nothing here");
    assert_eq!(replace("", "x", "y"), "");
}

#[test]
fn replace_agrees_with_std() {
    let cases = [
        ("#{name}-#{name}", "#{name}", "proj"),
        ("abcabcab", "abc", ""),
        ("ééé", "é", "e"),
        ("xyz", "xyzw", "q"),
    ];
    for (s, p, r) in cases {
        assert_eq!(replace(s, p, r), s.replace(p, r));
    }
}

#[test]
fn prefix_suffix_and_equality() {
    assert!(starts_with("/home/me/projects/x", "/home/me/projects/"));
    assert!(!starts_with("/home", "/home/me"));
    assert!(starts_with("abc", ""));
    assert!(ends_with("a.projman.toml", ".projman.toml"));
    assert!(!ends_with("toml", ".toml"));
    assert!(str_eq("Base", "Base"));
    assert!(!str_eq("Base", "base"));
}

#[test]
fn join_follows_unix_path_rules() {
    assert_eq!(join_path("/home/me/projects/", "NewProject"), "/home/me/projects/NewProject");
    assert_eq!(join_path("/home/me/projects", "NewProject"), "/home/me/projects/NewProject");
    assert_eq!(join_path("", "NewProject"), "NewProject");
    assert_eq!(join_path("/home", "/etc/passwd"), "/etc/passwd");
    assert_eq!(join_path("/a", ""), "/a/");
    for (b, p) in [("/x/y", "z"), ("x/", "y/z"), ("/", "a"), ("a", "/b")] {
        let expected = std::path::Path::new(b).join(p).to_string_lossy().into_owned();
        assert_eq!(join_path(b, p), expected);
    }
}

#[test]
fn components_and_path_prefixes() {
    assert_eq!(path_components("/a//b/./c/"), vec!["/", "a", "b", "c"]);
    assert_eq!(path_components("./a"), vec![".", "a"]);
    assert_eq!(path_components("a/./b"), vec!["a", "b"]);
    assert_eq!(path_components(""), Vec::<String>::new());
    assert!(starts_with_path("/home/me/projects/x", "/home/me/projects/"));
    assert!(starts_with_path("/home/me/projects", "/home/me/projects/"));
    assert!(!starts_with_path("/home/me/projectsX/y", "/home/me/projects/"));
    assert!(!starts_with_path("home/me/projects/x", "/home/me/projects"));
    for (p, b) in [("/a/b", "/a"), ("/ab", "/a"), ("a/./b", "a/b"), ("./a", "a"), ("/a/b/", "/a/b/c")] {
        assert_eq!(starts_with_path(p, b), std::path::Path::new(p).starts_with(b));
    }
}

#[test]
fn browser_url_turns_ssh_into_https() {
    assert_eq!(browser_url("git@github.com:Author/NewProject.git"), "https://github.com/Author/NewProject");
    assert_eq!(browser_url("git@host:path.git.git"), "https://host/path");
    assert_eq!(browser_url("git@nocolon"), "https:///");
    assert_eq!(browser_url("https://github.com/a/b"), "https://github.com/a/b");
}
