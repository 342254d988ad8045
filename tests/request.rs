use fumosync::editor::{
    build_request, editor_updates_from_resolved, get_editor_updates_from_configuration, plan_reads,
    Configuration, EditorUpdate, ReadRequest, ResolvedUpdate,
};
use fumosync::path::{PathComponent, ProjectPath};
use fumosync::update::Update;

fn configuration() -> Configuration {
    Configuration {
        script_name: "demo".to_string(),
        script_id: "id-1".to_string(),
        whitelist: vec!["u1".to_string(), "u2".to_string()],
        is_public: true,
    }
}

fn path_under(parts: &[&str]) -> ProjectPath {
    ProjectPath::from_components(
        parts.iter().map(|p| PathComponent::Normal(p.to_string())).collect(),
    )
}

#[test]
fn configuration_gives_three_updates() {
    let c = configuration();
    let u = get_editor_updates_from_configuration(&c);
    assert_eq!(u.len(), 3);
    assert!(matches!(&u[0], EditorUpdate::Name(n) if n == "demo"));
    assert!(matches!(&u[1], EditorUpdate::Whitelist(w) if w == &vec!["u1".to_string(), "u2".to_string()]));
    assert!(matches!(&u[2], EditorUpdate::Publicity(true)));
}

#[test]
fn empty_batch_sets_no_field() {
    let r = build_request(&"id-9".to_string(), &Vec::new());
    assert_eq!(r.script_id, "id-9");
    assert!(r.script_info.source.modules.is_none());
    assert!(r.script_info.source.main.is_none());
    assert!(r.script_info.description.is_none());
    assert!(r.script_info.whitelist.is_none());
    assert!(r.script_info.name.is_none());
    assert!(r.script_info.is_public.is_none());
}

#[test]
fn later_updates_replace_earlier_ones() {
    let updates = vec![
        EditorUpdate::MainSource("one".to_string()),
        EditorUpdate::Description("d".to_string()),
        EditorUpdate::MainSource("two".to_string()),
        EditorUpdate::Publicity(false),
        EditorUpdate::Publicity(true),
    ];
    let r = build_request(&"x".to_string(), &updates);
    assert_eq!(r.script_info.source.main.as_deref(), Some("two"));
    assert_eq!(r.script_info.description.as_deref(), Some("d"));
    assert_eq!(r.script_info.is_public, Some(true));
    assert!(r.script_info.name.is_none());
    assert!(r.script_info.whitelist.is_none());
    assert!(r.script_info.source.modules.is_none());
}

#[test]
fn modules_merge_by_name_last_write_wins() {
    let updates = vec![
        EditorUpdate::Module { name: "a".to_string(), source: "1".to_string() },
        EditorUpdate::Module { name: "b".to_string(), source: "2".to_string() },
        EditorUpdate::Module { name: "a".to_string(), source: "3".to_string() },
    ];
    let r = build_request(&"x".to_string(), &updates);
    assert_eq!(
        r.script_info.source.modules,
        Some(vec![("a".to_string(), "3".to_string()), ("b".to_string(), "2".to_string())])
    );
}

#[test]
fn plan_reads_resolves_module_names_and_drops_nameless() {
    let batch = vec![
        Update::Module(path_under(&["pkg", "util.luau"])),
        Update::MainSource,
        Update::Module(ProjectPath::from_components(vec![
            PathComponent::Normal("pkg".to_string()),
            PathComponent::ParentDir,
        ])),
        Update::ProjectConfiguration,
        Update::Description,
    ];
    let reads = plan_reads(&batch);
    assert_eq!(reads.len(), 4);
    assert!(matches!(&reads[0], ReadRequest::Module { name, path } if name == "util" && path.len() == 2));
    assert!(matches!(&reads[1], ReadRequest::MainSource));
    assert!(matches!(&reads[2], ReadRequest::ProjectConfiguration));
    assert!(matches!(&reads[3], ReadRequest::Description));
}

#[test]
fn resolved_batch_expands_configuration_into_three_fields() {
    let c = configuration();
    let resolved = vec![
        ResolvedUpdate::Description("text".to_string()),
        ResolvedUpdate::ProjectConfiguration,
        ResolvedUpdate::Module { name: "m".to_string(), source: "s".to_string() },
    ];
    let u = editor_updates_from_resolved(&resolved, &c);
    assert_eq!(u.len(), 5);
    assert!(matches!(&u[0], EditorUpdate::Description(d) if d == "text"));
    assert!(matches!(&u[1], EditorUpdate::Name(n) if n == "demo"));
    assert!(matches!(&u[2], EditorUpdate::Whitelist(_)));
    assert!(matches!(&u[3], EditorUpdate::Publicity(true)));
    assert!(matches!(&u[4], EditorUpdate::Module { name, source } if name == "m" && source == "s"));
}
