use fumosync::path::{diff_paths, PathComponent, ProjectPath};
use std::path::{Component, Path};

fn to_project_path(text: &str) -> ProjectPath {
    let components = Path::new(text)
        .components()
        .map(|c| match c {
            Component::RootDir => PathComponent::RootDir,
            Component::CurDir => PathComponent::CurDir,
            Component::ParentDir => PathComponent::ParentDir,
            Component::Normal(s) => PathComponent::Normal(s.to_string_lossy().to_string()),
            Component::Prefix(_) => unreachable!(),
        })
        .collect();
    ProjectPath::from_components(components)
}

fn to_text(p: &ProjectPath) -> String {
    let parts: Vec<String> = p
        .components
        .iter()
        .map(|c| match c {
            PathComponent::RootDir => String::new(),
            PathComponent::CurDir => ".".to_string(),
            PathComponent::ParentDir => "..".to_string(),
            PathComponent::Normal(s) => s.clone(),
        })
        .collect();
    if parts.len() == 1 && parts[0].is_empty() {
        return "/".to_string();
    }
    parts.join("/")
}

fn diff(path: &str, base: &str) -> Option<String> {
    diff_paths(&to_project_path(path), &to_project_path(base)).map(|p| to_text(&p))
}

#[test]
fn diff_of_equal_paths_is_empty() {
    assert_eq!(diff("/home/u/proj", "/home/u/proj"), Some(String::new()));
    assert_eq!(diff("a/b", "a/b"), Some(String::new()));
    assert_eq!(diff("", ""), Some(String::new()));
}

#[test]
fn diff_of_descendant_is_suffix() {
    assert_eq!(diff("/home/u/proj/pkg/foo.luau", "/home/u/proj"), Some("pkg/foo.luau".to_string()));
    assert_eq!(diff("/p/init.server.luau", "/p"), Some("init.server.luau".to_string()));
    assert_eq!(diff("a/b/c", "a"), Some("b/c".to_string()));
}

#[test]
fn diff_of_ancestor_is_parents() {
    assert_eq!(diff("/a", "/a/b/c"), Some("../..".to_string()));
    assert_eq!(diff("/", "/a"), Some("..".to_string()));
}

#[test]
fn diff_of_diverging_paths_climbs_then_descends() {
    assert_eq!(diff("/a/x/y", "/a/b/c"), Some("../../x/y".to_string()));
    assert_eq!(diff("/x", "/a/b"), Some("../../x".to_string()));
    assert_eq!(diff("foo/bar", "baz"), Some("../foo/bar".to_string()));
}

#[test]
fn diff_relative_against_absolute_fails() {
    assert_eq!(diff("a/b", "/a"), None);
}

#[test]
fn diff_absolute_against_relative_is_unchanged() {
    assert_eq!(diff("/a/b", "a"), Some("/a/b".to_string()));
}

#[test]
fn diff_with_parent_in_base_fails() {
    assert_eq!(diff("a/b", "../c"), None);
    assert_eq!(diff("a", "a/../b"), Some("../..".to_string()));
}

#[test]
fn diff_with_current_dir_in_base() {
    assert_eq!(diff("a/b", "."), Some("a/b".to_string()));
    assert_eq!(diff("./a", "b"), Some("../a".to_string()));
}

#[test]
fn duplicate_keeps_components() {
    let p = to_project_path("/x/y/z.luau");
    let q = p.duplicate();
    assert_eq!(to_text(&q), "/x/y/z.luau");
    assert_eq!(q.len(), 4);
    assert!(q.is_absolute());
    assert!(!to_project_path("x").is_absolute());
    assert_eq!(ProjectPath::empty().len(), 0);
}
