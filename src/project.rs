//! Project-level decisions: the metadata of a new project, what a pull writes, what
//! a push sends, and the request of one sync cycle.
use crate::client::EditorScriptInfo;
use crate::editor::{
    apply_update,    ResolvedUpdateView,
    build_request, configuration_updates, copy_strings, editor_updates_from_resolved,
    expand_all, get_editor_updates_from_configuration, pairs_view, request_spec, resolved_view,
    strings_view, updates_view, Configuration, EditorRequest, EditorUpdate, EditorUpdateView,
    RequestView, ResolvedUpdate,
};
use crate::update::{get_module_from_path, has_dot_in, without_extension, MODULE_EXTENSION};
use vstd::prelude::*;
use vstd::string::StringExecFns;

verus! {

/// The script id of a project that is not linked to a remote script yet.
pub const PLACEHOLDER_SCRIPT_ID: &'static str = "???";

/// The script name of a project whose directory has no name.
pub const UNKNOWN_SCRIPT_NAME: &'static str = "unknown";

/// The metadata of a new project in a directory with the given name.
pub fn initial_configuration(directory_name: Option<String>) -> (r: Configuration)
    ensures
        r.script_name@ == match directory_name {
            Some(n) => n@,
            None => UNKNOWN_SCRIPT_NAME@,
        },
        r.script_id@ == PLACEHOLDER_SCRIPT_ID@,
        r.whitelist@.len() == 0,
        !r.is_public,
{
    let script_name = match directory_name {
        Some(n) => n,
        None => UNKNOWN_SCRIPT_NAME.to_owned(),
    };
    Configuration {
        script_name,
        script_id: PLACEHOLDER_SCRIPT_ID.to_owned(),
        whitelist: Vec::new(),
        is_public: false,
    }
}

/// The extension of a file name: the text after its last dot, where that dot is not
/// the first character and the name is not `..`.
pub open spec fn extension_spec(s: Seq<char>) -> Option<Seq<char>> {
    if s == seq!['.', '.'] {
        None
    } else if exists|k: int| 0 < k && has_dot_in(s, k) {
        let k = choose|k: int| 0 < k && has_dot_in(s, k);
        Some(s.subrange(k + 1, s.len() as int))
    } else {
        None
    }
}

/// The module that a directory entry holds: a file with the module extension gives
/// its name without the extension; anything else gives none.
pub open spec fn module_entry_spec(file_name: Seq<char>, is_file: bool) -> Option<Seq<char>> {
    if is_file && extension_spec(file_name) == Some(MODULE_EXTENSION@) {
        Some(without_extension(file_name))
    } else {
        None
    }
}

/// The extension of a file name, where it has one.
pub fn extension(file_name: &String) -> (r: Option<String>)
    ensures
        match r {
            Some(e) => extension_spec(file_name@) == Some(e@),
            None => extension_spec(file_name@).is_none(),
        },
{
    let s = file_name.as_str();
    let n = s.unicode_len();
    if n == 2 && s.get_char(0) == '.' && s.get_char(1) == '.' {
        assert(s@ =~= seq!['.', '.']);
        return None;
    }
    let mut i: usize = n;
    while i > 0 && s.get_char(i - 1) != '.'
        invariant
            i <= n,
            n == s@.len(),
            forall|j: int| i <= j < n ==> s@[j] != '.',
        decreases i,
    {
        i = i - 1;
    }
    if i > 1 {
        let k = i - 1;
        assert(has_dot_in(s@, k as int));
        proof {
            let c = choose|c: int| 0 < c && has_dot_in(s@, c);
            if c < k {
                assert(s@[k as int] != '.');
            }
            if c > k {
                assert(s@[c] != '.');
            }
        }
        Some(s.substring_char(i, n).to_owned())
    } else {
        proof {
            assert forall|c: int| 0 < c implies !has_dot_in(s@, c) by {
                if 0 < c < s@.len() && s@[c] == '.' {
                    if i == 1 && c >= 1 {
                        assert(c >= i);
                    }
                }
            }
        }
        None
    }
}

/// The module that a directory entry of the module directory holds, given its file
/// name and whether it is a file.
pub fn module_entry(file_name: &String, is_file: bool) -> (r: Option<String>)
    ensures
        match r {
            Some(n) => module_entry_spec(file_name@, is_file) == Some(n@),
            None => module_entry_spec(file_name@, is_file).is_none(),
        },
{
    if !is_file {
        return None;
    }
    match extension(file_name) {
        Some(e) => {
            if e.eq(&MODULE_EXTENSION.to_owned()) {
                Some(get_module_from_path(file_name))
            } else {
                None
            }
        },
        None => None,
    }
}

/// The file name of a module in the module directory.
pub open spec fn module_file_name_spec(name: Seq<char>) -> Seq<char> {
    name + seq!['.'] + MODULE_EXTENSION@
}

/// The file name of module `name` in the module directory.
pub fn module_file_name(name: &String) -> (r: String)
    ensures
        r@ == module_file_name_spec(name@),
{
    let mut r = name.clone();
    r.append(".");
    r.append(MODULE_EXTENSION);
    proof {
        reveal_strlit(".");
    }
    r
}

/// What a pull writes into a new project.
#[derive(Debug)]
pub struct PullPlan {
    pub description: String,
    pub main_source: String,
    pub configuration: Configuration,
    /// File name in the module directory, and source.
    pub module_files: Vec<(String, String)>,
}

/// The files a pull of script `script_id` writes from the editor's answer `info`:
/// its description, main source and metadata, and one file per module.
pub fn pull_plan(script_id: String, info: EditorScriptInfo) -> (r: PullPlan)
    ensures
        r.description@ == info.description@,
        r.main_source@ == info.source.main@,
        r.configuration.script_name@ == info.name@,
        r.configuration.script_id@ == script_id@,
        strings_view(r.configuration.whitelist@) == strings_view(info.whitelist@),
        r.configuration.is_public == info.is_public,
        r.module_files@.len() == info.source.modules@.len(),
        forall|i: int|
            0 <= i < r.module_files@.len() ==> r.module_files@[i].0@ == module_file_name_spec(
                info.source.modules@[i].0@,
            ) && r.module_files@[i].1@ == info.source.modules@[i].1@,
{
    let modules = &info.source.modules;
    let mut module_files: Vec<(String, String)> = Vec::new();
    let mut i: usize = 0;
    while i < modules.len()
        invariant
            i <= modules.len(),
            module_files@.len() == i,
            forall|t: int|
                0 <= t < i ==> module_files@[t].0@ == module_file_name_spec(modules@[t].0@)
                    && module_files@[t].1@ == modules@[t].1@,
        decreases modules.len() - i,
    {
        let file = module_file_name(&modules[i].0);
        module_files.push((file, modules[i].1.clone()));
        i = i + 1;
    }
    let whitelist = copy_strings(&info.whitelist);
    PullPlan {
        description: info.description.clone(),
        main_source: info.source.main.clone(),
        configuration: Configuration {
            script_name: info.name.clone(),
            script_id,
            whitelist,
            is_public: info.is_public,
        },
        module_files,
    }
}

/// The editor updates of a module list, in order.
pub open spec fn module_updates(modules: Seq<(Seq<char>, Seq<char>)>) -> Seq<EditorUpdateView> {
    modules.map_values(
        |m: (Seq<char>, Seq<char>)| EditorUpdateView::Module { name: m.0, source: m.1 },
    )
}

/// Everything a full push sends: description, main source, the metadata fields, and
/// every module.
pub open spec fn push_updates_spec(
    description: Seq<char>,
    main_source: Seq<char>,
    c: Configuration,
    modules: Seq<(Seq<char>, Seq<char>)>,
) -> Seq<EditorUpdateView> {
    seq![EditorUpdateView::Description(description), EditorUpdateView::MainSource(main_source)]
        + configuration_updates(c) + module_updates(modules)
}

/// The editor updates of a full push of a project.
pub fn push_updates(
    description: &String,
    main_source: &String,
    configuration: &Configuration,
    modules: &Vec<(String, String)>,
) -> (r: Vec<EditorUpdate>)
    ensures
        updates_view(r@) == push_updates_spec(
            description@,
            main_source@,
            *configuration,
            pairs_view(modules@),
        ),
{
    let mut r: Vec<EditorUpdate> = vec![
        EditorUpdate::Description(description.clone()),
        EditorUpdate::MainSource(main_source.clone()),
    ];
    let mut three = get_editor_updates_from_configuration(configuration);
    r.append(&mut three);
    let ghost head = updates_view(r@);
    assert(head =~= seq![
        EditorUpdateView::Description(description@),
        EditorUpdateView::MainSource(main_source@),
    ] + configuration_updates(*configuration));
    let mut i: usize = 0;
    while i < modules.len()
        invariant
            i <= modules.len(),
            updates_view(r@) == head + module_updates(pairs_view(modules@).subrange(0, i as int)),
        decreases modules.len() - i,
    {
        let ghost prev = r@;
        let u = EditorUpdate::Module { name: modules[i].0.clone(), source: modules[i].1.clone() };
        r.push(u);
        assert(updates_view(r@) =~= updates_view(prev).push(u@));
        assert(pairs_view(modules@)[i as int] == (modules@[i as int].0@, modules@[i as int].1@));
        assert(module_updates(pairs_view(modules@).subrange(0, i + 1)) =~= module_updates(
            pairs_view(modules@).subrange(0, i as int),
        ).push(u@));
        assert(updates_view(r@) =~= head + module_updates(
            pairs_view(modules@).subrange(0, i + 1),
        ));
        i = i + 1;
    }
    assert(pairs_view(modules@).subrange(0, modules@.len() as int) =~= pairs_view(modules@));
    r
}

/// The request of a full push of a project.
pub fn push_request(
    description: &String,
    main_source: &String,
    configuration: &Configuration,
    modules: &Vec<(String, String)>,
) -> (r: EditorRequest)
    ensures
        r.script_id@ == configuration.script_id@,
        r@ == request_spec(
            push_updates_spec(description@, main_source@, *configuration, pairs_view(modules@)),
        ),
{
    let updates = push_updates(description, main_source, configuration, modules);
    build_request(&configuration.script_id, &updates)
}

/// The request of one sync cycle: the resolved batch, with the project metadata as
/// read at the time of the cycle.
pub open spec fn sync_request_spec(us: Seq<ResolvedUpdateView>, c: Configuration) -> RequestView {
    request_spec(expand_all(us, c))
}

/// The one request that a sync cycle sends for a resolved batch, addressed to the
/// script of the current project metadata.
pub fn sync_request(resolved: &Vec<ResolvedUpdate>, configuration: &Configuration) -> (r:
    EditorRequest)
    ensures
        r.script_id@ == configuration.script_id@,
        r@ == sync_request_spec(resolved_view(resolved@), *configuration),
{
    let updates = editor_updates_from_resolved(resolved, configuration);
    build_request(&configuration.script_id, &updates)
}

/// A batch that holds the metadata update only, once or more, makes a request with
/// exactly the three metadata fields, from the metadata as read for the cycle, and
/// nothing of the sources or the description.
pub proof fn lemma_configuration_only_request(us: Seq<ResolvedUpdateView>, c: Configuration)
    requires
        us.len() > 0,
        forall|i: int| 0 <= i < us.len() ==> us[i] == ResolvedUpdateView::ProjectConfiguration,
    ensures
        sync_request_spec(us, c) == (RequestView {
            modules: None,
            main: None,
            description: None,
            whitelist: Some(strings_view(c.whitelist@)),
            name: Some(c.script_name@),
            is_public: Some(c.is_public),
        }),
    decreases us.len(),
{
    let prev = us.drop_last();
    let x = expand_all(prev, c);
    let all = x + configuration_updates(c);
    assert(us.last() == ResolvedUpdateView::ProjectConfiguration);
    assert(expand_all(us, c) == all);
    assert forall|i: int| 0 <= i < prev.len() implies prev[i]
        == ResolvedUpdateView::ProjectConfiguration by {
        assert(prev[i] == us[i]);
    }
    assert(all.drop_last() =~= x + seq![
        EditorUpdateView::Name(c.script_name@),
        EditorUpdateView::Whitelist(strings_view(c.whitelist@)),
    ]);
    assert(all.drop_last().drop_last() =~= x.push(EditorUpdateView::Name(c.script_name@)));
    assert(all.drop_last().drop_last().drop_last() =~= x);
    if prev.len() > 0 {
        lemma_configuration_only_request(prev, c);
    } else {
        assert(x =~= Seq::<EditorUpdateView>::empty());
    }
    let a1 = all.drop_last();
    let a2 = a1.drop_last();
    assert(request_spec(a2) == apply_update(request_spec(x), a2.last()));
    assert(request_spec(a1) == apply_update(request_spec(a2), a1.last()));
    assert(request_spec(all) == apply_update(request_spec(a1), all.last()));
}

} // verus!
