use fumosync::client::{EditorScriptInfo, ScriptType, Source};
use fumosync::editor::Configuration;
use fumosync::project::{
    extension, initial_configuration, module_entry, module_file_name, pull_plan, push_request,
    push_updates,
};

#[test]
fn initial_configuration_uses_directory_name() {
    let c = initial_configuration(Some("my-script".to_string()));
    assert_eq!(c.script_name, "my-script");
    assert_eq!(c.script_id, "???");
    assert!(c.whitelist.is_empty());
    assert!(!c.is_public);
    assert_eq!(initial_configuration(None).script_name, "unknown");
}

#[test]
fn extensions() {
    assert_eq!(extension(&"a.luau".to_string()), Some("luau".to_string()));
    assert_eq!(extension(&"a.b.txt".to_string()), Some("txt".to_string()));
    assert_eq!(extension(&"a.".to_string()), Some(String::new()));
    assert_eq!(extension(&".luau".to_string()), None);
    assert_eq!(extension(&"plain".to_string()), None);
    assert_eq!(extension(&"..".to_string()), None);
}

#[test]
fn module_entries_need_luau_files() {
    assert_eq!(module_entry(&"foo.luau".to_string(), true), Some("foo".to_string()));
    assert_eq!(module_entry(&"foo.luau".to_string(), false), None);
    assert_eq!(module_entry(&"foo.lua".to_string(), true), None);
    assert_eq!(module_entry(&".luau".to_string(), true), None);
}

#[test]
fn module_file_names() {
    assert_eq!(module_file_name(&"util".to_string()), "util.luau");
}

#[test]
fn pull_plan_writes_everything() {
    let info = EditorScriptInfo {
        name: "remote".to_string(),
        script_type: ScriptType::Regular,
        description: "desc".to_string(),
        is_public: true,
        whitelist: vec!["a".to_string()],
        source: Source {
            main: "main()".to_string(),
            modules: vec![("m1".to_string(), "return 1".to_string())],
        },
    };
    let plan = pull_plan("sid".to_string(), info);
    assert_eq!(plan.description, "desc");
    assert_eq!(plan.main_source, "main()");
    assert_eq!(plan.configuration.script_id, "sid");
    assert_eq!(plan.configuration.script_name, "remote");
    assert_eq!(plan.configuration.whitelist, vec!["a".to_string()]);
    assert!(plan.configuration.is_public);
    assert_eq!(plan.module_files, vec![("m1.luau".to_string(), "return 1".to_string())]);
}

#[test]
fn push_sends_all_fields() {
    let c = Configuration {
        script_name: "n".to_string(),
        script_id: "id".to_string(),
        whitelist: vec![],
        is_public: false,
    };
    let modules = vec![("a".to_string(), "1".to_string()), ("b".to_string(), "2".to_string())];
    let updates = push_updates(&"d".to_string(), &"m".to_string(), &c, &modules);
    assert_eq!(updates.len(), 7);
    let r = push_request(&"d".to_string(), &"m".to_string(), &c, &modules);
    assert_eq!(r.script_id, "id");
    assert_eq!(r.script_info.description.as_deref(), Some("d"));
    assert_eq!(r.script_info.source.main.as_deref(), Some("m"));
    assert_eq!(r.script_info.name.as_deref(), Some("n"));
    assert_eq!(r.script_info.whitelist, Some(vec![]));
    assert_eq!(r.script_info.is_public, Some(false));
    assert_eq!(r.script_info.source.modules, Some(modules));
}
