//! The remote side of a sync: project metadata, field-level editor updates, and the
//! partial-update request that one sync cycle sends.
use crate::path::{ComponentView, ProjectPath};
use crate::update::{module_name, module_name_spec, Update, UpdateView};
use vstd::prelude::*;

verus! {

/// The values of a sequence of strings.
pub open spec fn strings_view(s: Seq<String>) -> Seq<Seq<char>> {
    s.map_values(|x: String| x@)
}

/// The values of a sequence of name and text pairs.
pub open spec fn pairs_view(s: Seq<(String, String)>) -> Seq<(Seq<char>, Seq<char>)> {
    s.map_values(|p: (String, String)| (p.0@, p.1@))
}

/// A copy of a list of strings.
pub fn copy_strings(v: &Vec<String>) -> (r: Vec<String>)
    ensures
        strings_view(r@) == strings_view(v@),
{
    let mut out: Vec<String> = Vec::new();
    let mut i: usize = 0;
    while i < v.len()
        invariant
            i <= v.len(),
            strings_view(out@) =~= strings_view(v@).subrange(0, i as int),
        decreases v.len() - i,
    {
        let s = v[i].clone();
        let ghost prev = out@;
        out.push(s);
        proof {
            assert(strings_view(prev.push(s)) =~= strings_view(prev).push(s@));
        }
        i = i + 1;
    }
    out
}

/// The project metadata, kept in the metadata file of a project.
#[derive(Clone, Debug)]
pub struct Configuration {
    pub script_name: String,
    pub script_id: String,
    pub whitelist: Vec<String>,
    pub is_public: bool,
}

/// One field-level change to the remote script.
#[derive(Clone, Debug)]
pub enum EditorUpdate {
    Description(String),
    Module { name: String, source: String },
    MainSource(String),
    /// The list of user ids allowed to run the script; replaces the remote one.
    Whitelist(Vec<String>),
    Name(String),
    Publicity(bool),
}

/// The mathematical value of an editor update.
pub enum EditorUpdateView {
    Description(Seq<char>),
    Module { name: Seq<char>, source: Seq<char> },
    MainSource(Seq<char>),
    Whitelist(Seq<Seq<char>>),
    Name(Seq<char>),
    Publicity(bool),
}

impl View for EditorUpdate {
    type V = EditorUpdateView;

    open spec fn view(&self) -> EditorUpdateView {
        match self {
            EditorUpdate::Description(s) => EditorUpdateView::Description(s@),
            EditorUpdate::Module { name, source } => EditorUpdateView::Module {
                name: name@,
                source: source@,
            },
            EditorUpdate::MainSource(s) => EditorUpdateView::MainSource(s@),
            EditorUpdate::Whitelist(w) => EditorUpdateView::Whitelist(strings_view(w@)),
            EditorUpdate::Name(s) => EditorUpdateView::Name(s@),
            EditorUpdate::Publicity(b) => EditorUpdateView::Publicity(*b),
        }
    }
}

/// The values of a sequence of editor updates.
pub open spec fn updates_view(s: Seq<EditorUpdate>) -> Seq<EditorUpdateView> {
    s.map_values(|u: EditorUpdate| u@)
}

/// The three fields that the metadata of a project sets remotely.
pub open spec fn configuration_updates(c: Configuration) -> Seq<EditorUpdateView> {
    seq![
        EditorUpdateView::Name(c.script_name@),
        EditorUpdateView::Whitelist(strings_view(c.whitelist@)),
        EditorUpdateView::Publicity(c.is_public),
    ]
}

/// The name, whitelist and publicity updates for a project's metadata.
pub fn get_editor_updates_from_configuration(configuration: &Configuration) -> (r: Vec<
    EditorUpdate,
>)
    ensures
        updates_view(r@) == configuration_updates(*configuration),
{
    let whitelist = copy_strings(&configuration.whitelist);
    let r = vec![
        EditorUpdate::Name(configuration.script_name.clone()),
        EditorUpdate::Whitelist(whitelist),
        EditorUpdate::Publicity(configuration.is_public),
    ];
    assert(updates_view(r@) =~= configuration_updates(*configuration));
    r
}

/// What one sync cycle reads from disk for a queued update.
#[derive(Debug)]
pub enum ReadRequest {
    /// The main script file.
    MainSource,
    /// The description file.
    Description,
    /// Nothing: the metadata is read once for the whole cycle.
    ProjectConfiguration,
    /// The module file at `path`, relative to the project root, sent as `name`.
    Module { name: String, path: ProjectPath },
}

/// The mathematical value of a read request.
pub enum ReadRequestView {
    MainSource,
    Description,
    ProjectConfiguration,
    Module { name: Seq<char>, path: Seq<ComponentView> },
}

impl View for ReadRequest {
    type V = ReadRequestView;

    open spec fn view(&self) -> ReadRequestView {
        match self {
            ReadRequest::MainSource => ReadRequestView::MainSource,
            ReadRequest::Description => ReadRequestView::Description,
            ReadRequest::ProjectConfiguration => ReadRequestView::ProjectConfiguration,
            ReadRequest::Module { name, path } => ReadRequestView::Module {
                name: name@,
                path: path@,
            },
        }
    }
}

/// The read that an update calls for; a module path without a file name calls for
/// none and is dropped.
pub open spec fn read_for(u: UpdateView) -> Option<ReadRequestView> {
    match u {
        UpdateView::MainSource => Some(ReadRequestView::MainSource),
        UpdateView::Description => Some(ReadRequestView::Description),
        UpdateView::ProjectConfiguration => Some(ReadRequestView::ProjectConfiguration),
        UpdateView::Module(p) => match module_name_spec(p) {
            Some(name) => Some(ReadRequestView::Module { name, path: p }),
            None => None,
        },
    }
}

/// The reads for a drained batch, in order.
pub open spec fn reads_spec(us: Seq<UpdateView>) -> Seq<ReadRequestView>
    decreases us.len(),
{
    if us.len() == 0 {
        Seq::empty()
    } else {
        let prev = reads_spec(us.drop_last());
        match read_for(us.last()) {
            Some(r) => prev.push(r),
            None => prev,
        }
    }
}

/// The values of a sequence of read requests.
pub open spec fn reads_view(s: Seq<ReadRequest>) -> Seq<ReadRequestView> {
    s.map_values(|r: ReadRequest| r@)
}

/// The values of a sequence of updates.
pub open spec fn update_views(s: Seq<Update>) -> Seq<UpdateView> {
    s.map_values(|u: Update| u@)
}

/// The files to read for a drained batch of updates, in the order queued.
pub fn plan_reads(batch: &Vec<Update>) -> (r: Vec<ReadRequest>)
    ensures
        reads_view(r@) == reads_spec(update_views(batch@)),
{
    let mut out: Vec<ReadRequest> = Vec::new();
    let mut i: usize = 0;
    while i < batch.len()
        invariant
            i <= batch.len(),
            reads_view(out@) == reads_spec(update_views(batch@).subrange(0, i as int)),
        decreases batch.len() - i,
    {
        let ghost prev = out@;
        proof {
            assert(update_views(batch@).subrange(0, i + 1).drop_last() =~= update_views(
                batch@,
            ).subrange(0, i as int));
            assert(update_views(batch@)[i as int] == batch@[i as int]@);
        }
        match &batch[i] {
            Update::MainSource => {
                out.push(ReadRequest::MainSource);
            },
            Update::Description => {
                out.push(ReadRequest::Description);
            },
            Update::ProjectConfiguration => {
                out.push(ReadRequest::ProjectConfiguration);
            },
            Update::Module(p) => {
                match module_name(p) {
                    Some(name) => {
                        out.push(ReadRequest::Module { name, path: p.duplicate() });
                    },
                    None => {},
                }
            },
        }
        proof {
            if out@.len() > prev.len() {
                assert(reads_view(out@) =~= reads_view(prev).push(out@.last()@));
            } else {
                assert(out@ == prev);
            }
        }
        i = i + 1;
    }
    assert(update_views(batch@).subrange(0, batch@.len() as int) =~= update_views(batch@));
    out
}

/// An update with the file contents it sends, read during one sync cycle.
#[derive(Debug)]
pub enum ResolvedUpdate {
    MainSource(String),
    Description(String),
    ProjectConfiguration,
    Module { name: String, source: String },
}

/// The mathematical value of a resolved update.
pub enum ResolvedUpdateView {
    MainSource(Seq<char>),
    Description(Seq<char>),
    ProjectConfiguration,
    Module { name: Seq<char>, source: Seq<char> },
}

impl View for ResolvedUpdate {
    type V = ResolvedUpdateView;

    open spec fn view(&self) -> ResolvedUpdateView {
        match self {
            ResolvedUpdate::MainSource(s) => ResolvedUpdateView::MainSource(s@),
            ResolvedUpdate::Description(s) => ResolvedUpdateView::Description(s@),
            ResolvedUpdate::ProjectConfiguration => ResolvedUpdateView::ProjectConfiguration,
            ResolvedUpdate::Module { name, source } => ResolvedUpdateView::Module {
                name: name@,
                source: source@,
            },
        }
    }
}

/// The values of a sequence of resolved updates.
pub open spec fn resolved_view(s: Seq<ResolvedUpdate>) -> Seq<ResolvedUpdateView> {
    s.map_values(|u: ResolvedUpdate| u@)
}

/// The editor updates that one resolved update expands into: the metadata into its
/// three fields, everything else into one.
pub open spec fn expand_resolved(u: ResolvedUpdateView, c: Configuration) -> Seq<
    EditorUpdateView,
> {
    match u {
        ResolvedUpdateView::MainSource(s) => seq![EditorUpdateView::MainSource(s)],
        ResolvedUpdateView::Description(s) => seq![EditorUpdateView::Description(s)],
        ResolvedUpdateView::ProjectConfiguration => configuration_updates(c),
        ResolvedUpdateView::Module { name, source } => seq![
            EditorUpdateView::Module { name, source },
        ],
    }
}

/// The editor updates for a resolved batch, in order.
pub open spec fn expand_all(us: Seq<ResolvedUpdateView>, c: Configuration) -> Seq<
    EditorUpdateView,
>
    decreases us.len(),
{
    if us.len() == 0 {
        Seq::empty()
    } else {
        expand_all(us.drop_last(), c) + expand_resolved(us.last(), c)
    }
}

/// The editor updates for a resolved batch, given the current project metadata.
pub fn editor_updates_from_resolved(
    resolved: &Vec<ResolvedUpdate>,
    configuration: &Configuration,
) -> (r: Vec<EditorUpdate>)
    ensures
        updates_view(r@) == expand_all(resolved_view(resolved@), *configuration),
{
    let mut out: Vec<EditorUpdate> = Vec::new();
    let mut i: usize = 0;
    while i < resolved.len()
        invariant
            i <= resolved.len(),
            updates_view(out@) == expand_all(
                resolved_view(resolved@).subrange(0, i as int),
                *configuration,
            ),
        decreases resolved.len() - i,
    {
        let ghost prev = out@;
        proof {
            assert(resolved_view(resolved@).subrange(0, i + 1).drop_last() =~= resolved_view(
                resolved@,
            ).subrange(0, i as int));
            assert(resolved_view(resolved@)[i as int] == resolved@[i as int]@);
        }
        match &resolved[i] {
            ResolvedUpdate::MainSource(s) => {
                out.push(EditorUpdate::MainSource(s.clone()));
            },
            ResolvedUpdate::Description(s) => {
                out.push(EditorUpdate::Description(s.clone()));
            },
            ResolvedUpdate::ProjectConfiguration => {
                let mut three = get_editor_updates_from_configuration(configuration);
                out.append(&mut three);
            },
            ResolvedUpdate::Module { name, source } => {
                out.push(EditorUpdate::Module { name: name.clone(), source: source.clone() });
            },
        }
        proof {
            assert(updates_view(out@) =~= updates_view(prev) + expand_resolved(
                resolved@[i as int]@,
                *configuration,
            ));
        }
        i = i + 1;
    }
    assert(resolved_view(resolved@).subrange(0, resolved@.len() as int) =~= resolved_view(
        resolved@,
    ));
    out
}

/// The `source` part of a request: each field present only where the batch sets it.
#[derive(Clone, Debug)]
pub struct EditorSource {
    /// Module name and source, one entry per name.
    pub modules: Option<Vec<(String, String)>>,
    pub main: Option<String>,
}

/// The script fields of a request: each present only where the batch sets it.
#[derive(Clone, Debug)]
pub struct ScriptInfoUpdate {
    pub source: EditorSource,
    pub description: Option<String>,
    pub whitelist: Option<Vec<String>>,
    pub name: Option<String>,
    pub is_public: Option<bool>,
}

/// The body of one partial update of a remote script.
#[derive(Clone, Debug)]
pub struct EditorRequest {
    pub script_id: String,
    pub script_info: ScriptInfoUpdate,
}

/// The mathematical value of the fields of a request.
pub struct RequestView {
    pub modules: Option<Seq<(Seq<char>, Seq<char>)>>,
    pub main: Option<Seq<char>>,
    pub description: Option<Seq<char>>,
    pub whitelist: Option<Seq<Seq<char>>>,
    pub name: Option<Seq<char>>,
    pub is_public: Option<bool>,
}

/// The value of an optional string.
pub open spec fn opt_text(s: Option<String>) -> Option<Seq<char>> {
    match s {
        Some(t) => Some(t@),
        None => None,
    }
}

/// The value of the script fields of a request.
pub open spec fn info_view(info: ScriptInfoUpdate) -> RequestView {
    RequestView {
        modules: match info.source.modules {
            Some(m) => Some(pairs_view(m@)),
            None => None,
        },
        main: opt_text(info.source.main),
        description: opt_text(info.description),
        whitelist: match info.whitelist {
            Some(w) => Some(strings_view(w@)),
            None => None,
        },
        name: opt_text(info.name),
        is_public: info.is_public,
    }
}

impl View for EditorRequest {
    type V = RequestView;

    open spec fn view(&self) -> RequestView {
        info_view(self.script_info)
    }
}

/// `i` is the last position of key `k` in `s`.
pub open spec fn last_key_at(s: Seq<(Seq<char>, Seq<char>)>, k: Seq<char>, i: int) -> bool {
    0 <= i < s.len() && s[i].0 == k && forall|t: int| i < t < s.len() ==> s[t].0 != k
}

/// `s` with `k` set to `v`: the entry of `k` takes the new value in place, or a new
/// entry goes last.
pub open spec fn merge_module(s: Seq<(Seq<char>, Seq<char>)>, k: Seq<char>, v: Seq<char>) -> Seq<
    (Seq<char>, Seq<char>),
> {
    if exists|i: int| last_key_at(s, k, i) {
        let i = choose|i: int| last_key_at(s, k, i);
        s.update(i, (k, v))
    } else {
        s.push((k, v))
    }
}

/// A request with no field set.
pub open spec fn empty_request() -> RequestView {
    RequestView {
        modules: None,
        main: None,
        description: None,
        whitelist: None,
        name: None,
        is_public: None,
    }
}

/// A request with one more update applied: a later update of a field replaces an
/// earlier one, and modules merge by name.
pub open spec fn apply_update(r: RequestView, u: EditorUpdateView) -> RequestView {
    match u {
        EditorUpdateView::Description(s) => RequestView { description: Some(s), ..r },
        EditorUpdateView::Module { name, source } => RequestView {
            modules: Some(
                merge_module(
                    match r.modules {
                        Some(m) => m,
                        None => Seq::empty(),
                    },
                    name,
                    source,
                ),
            ),
            ..r
        },
        EditorUpdateView::MainSource(s) => RequestView { main: Some(s), ..r },
        EditorUpdateView::Whitelist(w) => RequestView { whitelist: Some(w), ..r },
        EditorUpdateView::Name(s) => RequestView { name: Some(s), ..r },
        EditorUpdateView::Publicity(b) => RequestView { is_public: Some(b), ..r },
    }
}

/// The fields of the request for a sequence of updates.
pub open spec fn request_spec(us: Seq<EditorUpdateView>) -> RequestView
    decreases us.len(),
{
    if us.len() == 0 {
        empty_request()
    } else {
        apply_update(request_spec(us.drop_last()), us.last())
    }
}

/// Sets module `name` to `source` in a list of modules.
fn merge_module_into(modules: &mut Vec<(String, String)>, name: &String, source: &String)
    ensures
        pairs_view(final(modules)@) == merge_module(pairs_view(old(modules)@), name@, source@),
{
    let ghost s = pairs_view(old(modules)@);
    let mut j: usize = modules.len();
    while j > 0 && !modules[j - 1].0.eq(name)
        invariant
            j <= modules.len(),
            *modules == *old(modules),
            s == pairs_view(modules@),
            forall|t: int| j <= t < s.len() ==> s[t].0 != name@,
        decreases j,
    {
        j = j - 1;
    }
    let entry = (name.clone(), source.clone());
    if j > 0 {
        proof {
            assert(last_key_at(s, name@, j - 1));
            let c = choose|c: int| last_key_at(s, name@, c);
            if c < j - 1 {
                assert(s[j - 1].0 != name@);
            }
            if c > j - 1 {
                assert(s[c].0 != name@);
            }
        }
        modules.set(j - 1, entry);
        assert(pairs_view(modules@) =~= s.update(j - 1, (name@, source@)));
    } else {
        modules.push(entry);
        assert(pairs_view(modules@) =~= s.push((name@, source@)));
    }
}

/// The partial-update request for script `script_id` that applies `updates` in order.
pub fn build_request(script_id: &String, updates: &Vec<EditorUpdate>) -> (r: EditorRequest)
    ensures
        r.script_id@ == script_id@,
        r@ == request_spec(updates_view(updates@)),
{
    let mut modules: Option<Vec<(String, String)>> = None;
    let mut main: Option<String> = None;
    let mut description: Option<String> = None;
    let mut whitelist: Option<Vec<String>> = None;
    let mut name: Option<String> = None;
    let mut is_public: Option<bool> = None;
    let mut i: usize = 0;
    while i < updates.len()
        invariant
            i <= updates.len(),
            info_view(
                (ScriptInfoUpdate {
                    source: EditorSource { modules, main },
                    description,
                    whitelist,
                    name,
                    is_public,
                }),
            ) == request_spec(updates_view(updates@).subrange(0, i as int)),
        decreases updates.len() - i,
    {
        proof {
            assert(updates_view(updates@).subrange(0, i + 1).drop_last() =~= updates_view(
                updates@,
            ).subrange(0, i as int));
            assert(updates_view(updates@)[i as int] == updates@[i as int]@);
        }
        match &updates[i] {
            EditorUpdate::Description(s) => {
                description = Some(s.clone());
            },
            EditorUpdate::Module { name: n, source } => {
                let mut m = match modules {
                    Some(m) => m,
                    None => {
                        let e: Vec<(String, String)> = Vec::new();
                        assert(pairs_view(e@) =~= Seq::empty());
                        e
                    },
                };
                merge_module_into(&mut m, n, source);
                modules = Some(m);
            },
            EditorUpdate::MainSource(s) => {
                main = Some(s.clone());
            },
            EditorUpdate::Whitelist(w) => {
                whitelist = Some(copy_strings(w));
            },
            EditorUpdate::Name(s) => {
                name = Some(s.clone());
            },
            EditorUpdate::Publicity(b) => {
                is_public = Some(*b);
            },
        }
        i = i + 1;
    }
    assert(updates_view(updates@).subrange(0, updates@.len() as int) =~= updates_view(
        updates@,
    ));
    EditorRequest {
        script_id: script_id.clone(),
        script_info: ScriptInfoUpdate {
            source: EditorSource { modules, main },
            description,
            whitelist,
            name,
            is_public,
        },
    }
}

/// No two module entries share a name.
pub open spec fn distinct_names(m: Seq<(Seq<char>, Seq<char>)>) -> bool {
    forall|i: int, j: int| 0 <= i < j < m.len() ==> m[i].0 != m[j].0
}

/// The source of module `n` in a module list, where it has an entry.
pub open spec fn lookup(m: Seq<(Seq<char>, Seq<char>)>, n: Seq<char>) -> Option<Seq<char>> {
    if exists|j: int| 0 <= j < m.len() && m[j].0 == n {
        Some(m[choose|j: int| 0 <= j < m.len() && m[j].0 == n].1)
    } else {
        None
    }
}

/// The source of the last update of module `n` in a sequence of updates.
pub open spec fn last_module_source(us: Seq<EditorUpdateView>, n: Seq<char>) -> Option<Seq<char>>
    decreases us.len(),
{
    if us.len() == 0 {
        None
    } else {
        match us.last() {
            EditorUpdateView::Module { name, source } => if name == n {
                Some(source)
            } else {
                last_module_source(us.drop_last(), n)
            },
            _ => last_module_source(us.drop_last(), n),
        }
    }
}

/// Some update in `us` is of the kind `kind` picks out.
pub open spec fn some_update(us: Seq<EditorUpdateView>, kind: spec_fn(EditorUpdateView) -> bool) -> bool {
    exists|i: int| 0 <= i < us.len() && kind(us[i])
}

/// Setting a module in a list with distinct names keeps the names distinct, gives
/// that module the new source, and leaves every other entry as it was.
proof fn lemma_merge_module(s: Seq<(Seq<char>, Seq<char>)>, k: Seq<char>, v: Seq<char>)
    requires
        distinct_names(s),
    ensures
        distinct_names(merge_module(s, k, v)),
        forall|n: Seq<char>|
            lookup(merge_module(s, k, v), n) == if n == k {
                Some(v)
            } else {
                lookup(s, n)
            },
{
    let r = merge_module(s, k, v);
    if exists|i: int| last_key_at(s, k, i) {
        let i = choose|i: int| last_key_at(s, k, i);
        assert(r == s.update(i, (k, v)));
        assert forall|n: Seq<char>| lookup(r, n) == if n == k {
            Some(v)
        } else {
            lookup(s, n)
        } by {
            if n == k {
                assert(r[i].0 == n);
                let j = choose|j: int| 0 <= j < r.len() && r[j].0 == n;
                if j != i {
                    assert(s[j].0 == k);
                }
            } else {
                if exists|j: int| 0 <= j < r.len() && r[j].0 == n {
                    let j = choose|j: int| 0 <= j < r.len() && r[j].0 == n;
                    assert(j != i);
                    assert(s[j].0 == n);
                    let j2 = choose|j2: int| 0 <= j2 < s.len() && s[j2].0 == n;
                    if j2 < j {
                        assert(s[j2].0 != s[j].0);
                    }
                    if j2 > j {
                        assert(s[j].0 != s[j2].0);
                    }
                } else {
                    assert forall|j: int| 0 <= j < s.len() implies s[j].0 != n by {
                        if j != i {
                            assert(r[j] == s[j]);
                        }
                    }
                }
            }
        }
    } else {
        assert forall|j: int| 0 <= j < s.len() implies s[j].0 != k by {
            if s[j].0 == k {
                assert(last_key_at(s, k, j));
            }
        }
        assert(r == s.push((k, v)));
        assert forall|n: Seq<char>| lookup(r, n) == if n == k {
            Some(v)
        } else {
            lookup(s, n)
        } by {
            if n == k {
                assert(r[s.len() as int].0 == n);
            } else {
                if exists|j: int| 0 <= j < r.len() && r[j].0 == n {
                    let j = choose|j: int| 0 <= j < r.len() && r[j].0 == n;
                    assert(j < s.len());
                    assert(s[j].0 == n);
                    let j2 = choose|j2: int| 0 <= j2 < s.len() && s[j2].0 == n;
                    if j2 < j {
                        assert(s[j2].0 != s[j].0);
                    }
                    if j2 > j {
                        assert(s[j].0 != s[j2].0);
                    }
                } else {
                    assert forall|j: int| 0 <= j < s.len() implies s[j].0 != n by {
                        assert(r[j] == s[j]);
                    }
                }
            }
        }
    }
}

/// The request for a batch of updates holds each field exactly when the batch has an
/// update of it, once however many there were; and its modules hold one entry per
/// module name in the batch, with the source of the last update of that module.
pub proof fn lemma_request_one_entry_per_field(us: Seq<EditorUpdateView>)
    ensures
        request_spec(us).description.is_some() == some_update(
            us,
            |u: EditorUpdateView| u is Description,
        ),
        request_spec(us).main.is_some() == some_update(us, |u: EditorUpdateView| u is MainSource),
        request_spec(us).whitelist.is_some() == some_update(
            us,
            |u: EditorUpdateView| u is Whitelist,
        ),
        request_spec(us).name.is_some() == some_update(us, |u: EditorUpdateView| u is Name),
        request_spec(us).is_public.is_some() == some_update(
            us,
            |u: EditorUpdateView| u is Publicity,
        ),
        request_spec(us).modules.is_some() == some_update(us, |u: EditorUpdateView| u is Module),
        match request_spec(us).modules {
            Some(m) => distinct_names(m) && forall|n: Seq<char>|
                lookup(m, n) == last_module_source(us, n),
            None => forall|n: Seq<char>| last_module_source(us, n).is_none(),
        },
    decreases us.len(),
{
    if us.len() > 0 {
        let prev = us.drop_last();
        lemma_request_one_entry_per_field(prev);
        let last = us.last();
        assert forall|i: int| 0 <= i < prev.len() implies prev[i] == us[i] by {}
        let kinds = seq![
            |u: EditorUpdateView| u is Description,
            |u: EditorUpdateView| u is MainSource,
            |u: EditorUpdateView| u is Whitelist,
            |u: EditorUpdateView| u is Name,
            |u: EditorUpdateView| u is Publicity,
            |u: EditorUpdateView| u is Module,
        ];
        assert forall|t: int| 0 <= t < kinds.len() implies some_update(us, kinds[t]) == (
        some_update(prev, kinds[t]) || kinds[t](last)) by {
            if some_update(us, kinds[t]) && !kinds[t](last) {
                let i = choose|i: int| 0 <= i < us.len() && kinds[t](us[i]);
                assert(i < prev.len());
            }
            if some_update(prev, kinds[t]) {
                let i = choose|i: int| 0 <= i < prev.len() && kinds[t](prev[i]);
                assert(kinds[t](us[i]));
            }
        }
        assert(kinds[0] == |u: EditorUpdateView| u is Description);
        assert(kinds[1] == |u: EditorUpdateView| u is MainSource);
        assert(kinds[2] == |u: EditorUpdateView| u is Whitelist);
        assert(kinds[3] == |u: EditorUpdateView| u is Name);
        assert(kinds[4] == |u: EditorUpdateView| u is Publicity);
        assert(kinds[5] == |u: EditorUpdateView| u is Module);
        let m0 = match request_spec(prev).modules {
            Some(m) => m,
            None => Seq::empty(),
        };
        assert forall|n: Seq<char>| lookup(m0, n) == last_module_source(prev, n) by {
            if request_spec(prev).modules.is_none() {
                assert(m0.len() == 0);
            }
        }
        assert(distinct_names(m0));
        match last {
            EditorUpdateView::Module { name, source } => {
                lemma_merge_module(m0, name, source);
                assert forall|n: Seq<char>|
                    lookup(merge_module(m0, name, source), n) == last_module_source(us, n) by {}
            },
            _ => {
                assert forall|n: Seq<char>|
                    last_module_source(us, n) == last_module_source(prev, n) by {}
            },
        }
    }
}

} // verus!
