use fumosync::path::{PathComponent, ProjectPath};
use fumosync::queue::{PendingUpdates, RawEvent};
use fumosync::update::{ChangeKind, EventPath, Update};
use std::path::{Component, Path};

fn path_of(text: &str) -> ProjectPath {
    let components = Path::new(text)
        .components()
        .map(|c| match c {
            Component::RootDir => PathComponent::RootDir,
            Component::CurDir => PathComponent::CurDir,
            Component::ParentDir => PathComponent::ParentDir,
            Component::Normal(s) => PathComponent::Normal(s.to_string_lossy().to_string()),
            Component::Prefix(_) => unreachable!(),
        })
        .collect();
    ProjectPath::from_components(components)
}

fn file_event(kind: ChangeKind, paths: &[&str]) -> RawEvent {
    RawEvent {
        kind,
        paths: paths
            .iter()
            .map(|p| EventPath { path: path_of(p), is_dir: false, is_file: true })
            .collect(),
    }
}

fn kinds(batch: &[Update]) -> Vec<String> {
    batch
        .iter()
        .map(|u| match u {
            Update::MainSource => "main".to_string(),
            Update::Description => "description".to_string(),
            Update::ProjectConfiguration => "configuration".to_string(),
            Update::Module(p) => format!("module:{}", p.len()),
        })
        .collect()
}

#[test]
fn enqueue_then_drain_returns_every_update_in_order() {
    let root = path_of("/proj");
    let mut q = PendingUpdates::new();
    let events = vec![
        file_event(ChangeKind::Modify, &["/proj/README.md"]),
        file_event(ChangeKind::Access, &["/proj/init.server.luau"]),
        file_event(ChangeKind::ModifyMetadata, &["/proj/fumosync.json"]),
        file_event(ChangeKind::Create, &["/proj/pkg/a.luau", "/proj/types.d.luau"]),
        file_event(ChangeKind::Modify, &["/proj/init.server.luau"]),
    ];
    assert!(q.enqueue_batch(&root, &events));
    assert_eq!(q.len(), 3);
    let batch = q.on_wake().expect("a cycle starts");
    assert_eq!(kinds(&batch), vec!["description", "module:2", "main"]);
    assert_eq!(q.len(), 0);
    assert!(q.syncing());
}

#[test]
fn batch_of_only_ignored_events_does_not_wake() {
    let root = path_of("/proj");
    let mut q = PendingUpdates::new();
    let events = vec![
        file_event(ChangeKind::Access, &["/proj/init.server.luau"]),
        file_event(ChangeKind::ModifyMetadata, &["/proj/pkg/a.luau"]),
        file_event(ChangeKind::Other, &["/proj/README.md"]),
        file_event(ChangeKind::Modify, &["/proj/notes.txt"]),
    ];
    assert!(!q.enqueue_batch(&root, &events));
    assert_eq!(q.len(), 0);
}

#[test]
fn path_outside_root_is_skipped_and_batch_goes_on() {
    let root = path_of("/proj");
    let mut q = PendingUpdates::new();
    let events = vec![
        file_event(ChangeKind::Modify, &["relative/README.md", "/proj/README.md"]),
    ];
    assert!(q.enqueue_batch(&root, &events));
    assert_eq!(q.len(), 1);
}

#[test]
fn draining_empty_queue_starts_no_cycle() {
    let mut q = PendingUpdates::new();
    assert!(q.on_wake().is_none());
    assert!(!q.syncing());
    assert_eq!(q.len(), 0);
}

#[test]
fn wake_during_cycle_is_picked_up_when_cycle_ends() {
    let root = path_of("/proj");
    let mut q = PendingUpdates::new();
    q.enqueue_batch(&root, &vec![file_event(ChangeKind::Modify, &["/proj/README.md"])]);
    let first = q.on_wake().expect("first cycle");
    assert_eq!(first.len(), 1);
    // changes arrive while the cycle runs
    assert!(q.enqueue_batch(&root, &vec![file_event(ChangeKind::Create, &["/proj/pkg/b.luau"])]));
    assert!(q.on_wake().is_none());
    assert_eq!(q.len(), 1);
    let second = q.on_cycle_finished().expect("next cycle without another wake");
    assert_eq!(kinds(&second), vec!["module:2"]);
    assert!(q.syncing());
    assert!(q.on_cycle_finished().is_none());
    assert!(!q.syncing());
}

#[test]
fn repeated_updates_are_all_queued() {
    let root = path_of("/proj");
    let mut q = PendingUpdates::new();
    let events = vec![
        file_event(ChangeKind::Modify, &["/proj/fumosync.json"]),
        file_event(ChangeKind::Modify, &["/proj/fumosync.json"]),
    ];
    assert!(q.enqueue_batch(&root, &events));
    assert_eq!(q.len(), 2);
    assert!(!q.enqueue_batch(&root, &Vec::new()));
}
