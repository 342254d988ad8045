use fumosync::path::{PathComponent, ProjectPath};
use fumosync::update::{
    classify, get_module_from_path, in_package, is_relevant, module_name, ChangeKind, Update,
};
use std::path::{Component, Path};

fn rel(text: &str) -> ProjectPath {
    let components = Path::new(text)
        .components()
        .map(|c| match c {
            Component::RootDir => PathComponent::RootDir,
            Component::CurDir => PathComponent::CurDir,
            Component::ParentDir => PathComponent::ParentDir,
            Component::Normal(s) => PathComponent::Normal(s.to_string_lossy().to_string()),
            Component::Prefix(_) => unreachable!(),
        })
        .collect();
    ProjectPath::from_components(components)
}

fn kind_of(u: Option<Update>) -> &'static str {
    match u {
        None => "none",
        Some(Update::MainSource) => "main",
        Some(Update::Description) => "description",
        Some(Update::ProjectConfiguration) => "configuration",
        Some(Update::Module(_)) => "module",
    }
}

#[test]
fn fixed_files_classify_by_role() {
    assert_eq!(kind_of(classify(rel("init.server.luau"), false, true)), "main");
    assert_eq!(kind_of(classify(rel("README.md"), false, true)), "description");
    assert_eq!(kind_of(classify(rel("fumosync.json"), false, true)), "configuration");
}

#[test]
fn fixed_files_that_are_not_files_are_ignored() {
    assert_eq!(kind_of(classify(rel("init.server.luau"), false, false)), "none");
    assert_eq!(kind_of(classify(rel("README.md"), true, false)), "none");
}

#[test]
fn module_files_classify_as_modules() {
    match classify(rel("pkg/foo.luau"), false, true) {
        Some(Update::Module(p)) => assert_eq!(p.len(), 2),
        _ => panic!("expected a module update"),
    }
    // a removed module file is neither a file nor a directory any more
    assert_eq!(kind_of(classify(rel("pkg/gone.luau"), false, false)), "module");
    assert_eq!(kind_of(classify(rel("nested/pkg/foo.luau"), false, true)), "module");
}

#[test]
fn directories_under_module_directory_are_ignored() {
    assert_eq!(kind_of(classify(rel("pkg/sub"), true, false)), "none");
    assert_eq!(kind_of(classify(rel("pkg"), true, false)), "none");
}

#[test]
fn other_paths_are_ignored() {
    assert_eq!(kind_of(classify(rel("types.d.luau"), false, true)), "none");
    assert_eq!(kind_of(classify(rel(".vscode/settings.json"), false, true)), "none");
    assert_eq!(kind_of(classify(rel("src/init.server.luau"), false, true)), "none");
    assert_eq!(kind_of(classify(rel("pkgs/foo.luau"), false, true)), "none");
    assert_eq!(kind_of(classify(rel(""), false, false)), "none");
}

#[test]
fn parent_must_be_module_directory() {
    assert!(in_package(&rel("pkg/a.luau")));
    assert!(in_package(&rel("x/pkg/a.luau")));
    assert!(!in_package(&rel("pkg")));
    assert!(!in_package(&rel("a.luau")));
    assert!(!in_package(&rel("pkg/x/a.luau")));
}

#[test]
fn module_names_drop_the_extension() {
    assert_eq!(get_module_from_path(&"foo.luau".to_string()), "foo");
    assert_eq!(get_module_from_path(&"a.b.luau".to_string()), "a.b");
    assert_eq!(get_module_from_path(&"noext".to_string()), "noext");
    assert_eq!(get_module_from_path(&".hidden".to_string()), ".hidden");
    assert_eq!(get_module_from_path(&"trailing.".to_string()), "trailing");
    assert_eq!(get_module_from_path(&"..".to_string()), "..");
    assert_eq!(get_module_from_path(&"".to_string()), "");
    assert_eq!(get_module_from_path(&"ünï.luau".to_string()), "ünï");
}

#[test]
fn module_name_of_path() {
    assert_eq!(module_name(&rel("pkg/foo.luau")), Some("foo".to_string()));
    assert_eq!(module_name(&rel("pkg/..")), None);
    assert_eq!(module_name(&ProjectPath::empty()), None);
}

#[test]
fn access_and_metadata_events_are_not_relevant() {
    assert!(!is_relevant(ChangeKind::Access));
    assert!(!is_relevant(ChangeKind::ModifyMetadata));
    assert!(!is_relevant(ChangeKind::Other));
    assert!(is_relevant(ChangeKind::Any));
    assert!(is_relevant(ChangeKind::Create));
    assert!(is_relevant(ChangeKind::Remove));
    assert!(is_relevant(ChangeKind::Modify));
}
