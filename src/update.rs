//! What a change on disk means for the remote record: the fixed project layout, the
//! kinds of change worth a sync, and the classification of a changed path.
use crate::path::{
    diff_paths, diff_spec, ComponentView, PathComponent, ProjectPath,
};
use vstd::prelude::*;

verus! {

/// The metadata file of a project.
pub const SYNC_CONFIGURATION_FILE: &'static str = "fumosync.json";

/// The main script of a project.
pub const MAIN_SCRIPT_FILE: &'static str = "init.server.luau";

/// The directory that holds one file per module.
pub const PACKAGE_DIRECTORY: &'static str = "pkg";

/// The description of a project.
pub const DESCRIPTION_FILE: &'static str = "README.md";

/// The extension of a module file.
pub const MODULE_EXTENSION: &'static str = "luau";

/// A part of the project that has to be sent again.
#[derive(Debug)]
pub enum Update {
    MainSource,
    Description,
    ProjectConfiguration,
    /// A file under the module directory, by its path relative to the project root.
    Module(ProjectPath),
}

/// The mathematical value of an update.
pub enum UpdateView {
    MainSource,
    Description,
    ProjectConfiguration,
    Module(Seq<ComponentView>),
}

impl View for Update {
    type V = UpdateView;

    open spec fn view(&self) -> UpdateView {
        match self {
            Update::MainSource => UpdateView::MainSource,
            Update::Description => UpdateView::Description,
            Update::ProjectConfiguration => UpdateView::ProjectConfiguration,
            Update::Module(p) => UpdateView::Module(p@),
        }
    }
}

/// The kind of a filesystem event, as the watcher reports it.
#[derive(Clone, Copy, Debug, PartialEq, Eq, Structural)]
pub enum ChangeKind {
    Any,
    Access,
    Create,
    Remove,
    /// A change of permissions, times or other metadata only.
    ModifyMetadata,
    /// Any other modification: data, name, or unknown.
    Modify,
    Other,
}

/// Access and metadata churn, and events the watcher cannot name, carry no change.
pub open spec fn is_relevant_spec(kind: ChangeKind) -> bool {
    !(kind == ChangeKind::Access || kind == ChangeKind::ModifyMetadata || kind
        == ChangeKind::Other)
}

/// Whether an event of this kind may call for a sync.
pub fn is_relevant(kind: ChangeKind) -> (r: bool)
    ensures
        r == is_relevant_spec(kind),
{
    match kind {
        ChangeKind::Access | ChangeKind::ModifyMetadata | ChangeKind::Other => false,
        ChangeKind::Any | ChangeKind::Create | ChangeKind::Remove | ChangeKind::Modify => true,
    }
}

/// The path made of a single file name.
pub open spec fn single_file(name: Seq<char>) -> Seq<ComponentView> {
    seq![ComponentView::Normal(name)]
}

/// The last component, where it names a file or directory.
pub open spec fn file_name_spec(p: Seq<ComponentView>) -> Option<Seq<char>> {
    if p.len() > 0 {
        match p.last() {
            ComponentView::Normal(s) => Some(s),
            _ => None,
        }
    } else {
        None
    }
}

/// The parent directory is named like the module directory: the path has a parent
/// (its last component is not the root) whose own last component is that name.
pub open spec fn in_package_spec(p: Seq<ComponentView>) -> bool {
    &&& p.len() >= 2
    &&& p.last() != ComponentView::RootDir
    &&& p[p.len() - 2] == ComponentView::Normal(PACKAGE_DIRECTORY@)
}

/// The role of a path relative to the project root, given whether it is a directory
/// and whether it is a file on disk.
pub open spec fn classify_spec(p: Seq<ComponentView>, is_dir: bool, is_file: bool) -> Option<
    UpdateView,
> {
    if in_package_spec(p) {
        if !is_dir {
            Some(UpdateView::Module(p))
        } else {
            None
        }
    } else if is_file {
        if p == single_file(MAIN_SCRIPT_FILE@) {
            Some(UpdateView::MainSource)
        } else if p == single_file(DESCRIPTION_FILE@) {
            Some(UpdateView::Description)
        } else if p == single_file(SYNC_CONFIGURATION_FILE@) {
            Some(UpdateView::ProjectConfiguration)
        } else {
            None
        }
    } else {
        None
    }
}

/// The value of an optional update.
pub open spec fn opt_update_view(u: Option<Update>) -> Option<UpdateView> {
    match u {
        Some(v) => Some(v@),
        None => None,
    }
}

/// Whether a string holds exactly the text of `lit`.
pub fn text_is(s: &String, lit: &str) -> (r: bool)
    ensures
        r == (s@ == lit@),
{
    let t = lit.to_owned();
    s.eq(&t)
}

/// Whether a component is a name equal to `lit`.
fn component_is(c: &PathComponent, lit: &str) -> (r: bool)
    ensures
        r == (c@ == ComponentView::Normal(lit@)),
{
    match c {
        PathComponent::Normal(s) => text_is(s, lit),
        _ => false,
    }
}

/// Whether a path is the single file name `lit`.
fn is_single_file(p: &ProjectPath, lit: &str) -> (r: bool)
    ensures
        r == (p@ == single_file(lit@)),
{
    if p.components.len() == 1 {
        let r = component_is(&p.components[0], lit);
        assert(p@[0] == p.components@[0]@);
        if r {
            assert(p@ =~= single_file(lit@));
        } else {
            assert(p@[0] != single_file(lit@)[0]);
        }
        r
    } else {
        assert(single_file(lit@).len() == 1);
        false
    }
}

/// Whether the parent directory of a path is the module directory.
pub fn in_package(p: &ProjectPath) -> (r: bool)
    ensures
        r == in_package_spec(p@),
{
    let n = p.components.len();
    if n < 2 {
        return false;
    }
    assert(p@[n - 1] == p.components@[n - 1]@);
    assert(p@[n - 2] == p.components@[n - 2]@);
    let last_is_root = match &p.components[n - 1] {
        PathComponent::RootDir => true,
        _ => false,
    };
    !last_is_root && component_is(&p.components[n - 2], PACKAGE_DIRECTORY)
}

/// The role of a path relative to the project root. `is_dir` and `is_file` say what
/// the path is on disk now.
pub fn classify(p: ProjectPath, is_dir: bool, is_file: bool) -> (r: Option<Update>)
    ensures
        opt_update_view(r) == classify_spec(p@, is_dir, is_file),
{
    if in_package(&p) {
        if !is_dir {
            Some(Update::Module(p))
        } else {
            None
        }
    } else if is_file {
        if is_single_file(&p, MAIN_SCRIPT_FILE) {
            Some(Update::MainSource)
        } else if is_single_file(&p, DESCRIPTION_FILE) {
            Some(Update::Description)
        } else if is_single_file(&p, SYNC_CONFIGURATION_FILE) {
            Some(Update::ProjectConfiguration)
        } else {
            None
        }
    } else {
        None
    }
}

/// A path that an event names, with what it is on disk.
#[derive(Debug)]
pub struct EventPath {
    pub path: ProjectPath,
    pub is_dir: bool,
    pub is_file: bool,
}

/// The role of a path that an event names, once made relative to the project root.
/// A path that cannot be made relative has none.
pub open spec fn event_path_update(root: Seq<ComponentView>, e: EventPath) -> Option<UpdateView> {
    match diff_spec(e.path@, root) {
        Some(rel) => classify_spec(rel, e.is_dir, e.is_file),
        None => None,
    }
}

/// The role of a path that an event names, relative to the project root `root`.
pub fn classify_event_path(root: &ProjectPath, e: EventPath) -> (r: Option<Update>)
    ensures
        opt_update_view(r) == event_path_update(root@, e),
{
    match diff_paths(&e.path, root) {
        Some(rel) => classify(rel, e.is_dir, e.is_file),
        None => None,
    }
}

/// The last dot of a name, where there is one.
pub open spec fn has_dot_in(s: Seq<char>, k: int) -> bool {
    0 <= k < s.len() && s[k] == '.' && forall|j: int| k < j < s.len() ==> s[j] != '.'
}

/// A file name without its extension: the text after the last dot goes, with the
/// dot, unless that dot is the first character (a hidden file) or the name is `..`.
pub open spec fn without_extension(s: Seq<char>) -> Seq<char> {
    if s == seq!['.', '.'] {
        s
    } else if exists|k: int| 0 < k && has_dot_in(s, k) {
        let k = choose|k: int| 0 < k && has_dot_in(s, k);
        s.subrange(0, k)
    } else {
        s
    }
}

/// The name of a module, from the name of its file.
pub fn get_module_from_path(file_name: &String) -> (r: String)
    ensures
        r@ == without_extension(file_name@),
{
    let s = file_name.as_str();
    let n = s.unicode_len();
    if n == 2 && s.get_char(0) == '.' && s.get_char(1) == '.' {
        assert(s@ =~= seq!['.', '.']);
        return file_name.clone();
    }
    let mut i: usize = n;
    while i > 0 && s.get_char(i - 1) != '.'
        invariant
            i <= n,
            n == s@.len(),
            forall|j: int| i <= j < n ==> s@[j] != '.',
        decreases i,
    {
        i = i - 1;
    }
    if i > 1 {
        let k = i - 1;
        assert(has_dot_in(s@, k as int));
        proof {
            let c = choose|c: int| 0 < c && has_dot_in(s@, c);
            if c < k {
                assert(s@[k as int] != '.');
            }
            if c > k {
                assert(s@[c] != '.');
            }
        }
        s.substring_char(0, k).to_owned()
    } else {
        proof {
            assert forall|c: int| 0 < c implies !has_dot_in(s@, c) by {
                if 0 < c < s@.len() && s@[c] == '.' {
                    assert(i == 1 || c < i);
                    if i == 1 && c >= 1 {
                        assert(c >= i);
                    }
                }
            }
        }
        file_name.clone()
    }
}

/// The module name that a module path resolves to: its file name without the
/// extension, or none where the path ends in no file name.
pub open spec fn module_name_spec(p: Seq<ComponentView>) -> Option<Seq<char>> {
    match file_name_spec(p) {
        Some(f) => Some(without_extension(f)),
        None => None,
    }
}

/// The module name for a module path, or `None` where it ends in no file name.
pub fn module_name(p: &ProjectPath) -> (r: Option<String>)
    ensures
        match r {
            Some(s) => module_name_spec(p@) == Some(s@),
            None => module_name_spec(p@).is_none(),
        },
{
    let n = p.components.len();
    if n == 0 {
        return None;
    }
    assert(p@[n - 1] == p.components@[n - 1]@);
    match &p.components[n - 1] {
        PathComponent::Normal(f) => Some(get_module_from_path(f)),
        _ => None,
    }
}

/// A path classified as a module is the changed path itself, its parent directory
/// is the module directory, and the module it resolves to is named by its file name
/// without the extension.
pub proof fn lemma_module_classification(p: Seq<ComponentView>, is_dir: bool, is_file: bool)
    requires
        classify_spec(p, is_dir, is_file) matches Some(UpdateView::Module(_)),
    ensures
        classify_spec(p, is_dir, is_file) == Some(UpdateView::Module(p)),
        p[p.len() - 2] == ComponentView::Normal(PACKAGE_DIRECTORY@),
        !is_dir,
        match file_name_spec(p) {
            Some(f) => module_name_spec(p) == Some(without_extension(f)),
            None => module_name_spec(p).is_none(),
        },
{
}

/// Taking the extension off a name leaves the text before its last dot, so that the
/// name is what is left, a dot, and what follows.
pub proof fn lemma_without_extension_split(s: Seq<char>, k: int)
    requires
        0 < k,
        has_dot_in(s, k),
        s != seq!['.', '.'],
    ensures
        without_extension(s) == s.subrange(0, k),
        s == without_extension(s) + seq!['.'] + s.subrange(k + 1, s.len() as int),
{
    let c = choose|c: int| 0 < c && has_dot_in(s, c);
    if c < k {
        assert(s[k] != '.');
    }
    if c > k {
        assert(s[c] != '.');
    }
    assert(s =~= s.subrange(0, k) + seq!['.'] + s.subrange(k + 1, s.len() as int));
}

/// A path outside the module directory that is none of the three fixed project files
/// is ignored.
pub proof fn lemma_other_paths_ignored(p: Seq<ComponentView>, is_dir: bool, is_file: bool)
    requires
        !in_package_spec(p),
        p != single_file(MAIN_SCRIPT_FILE@),
        p != single_file(DESCRIPTION_FILE@),
        p != single_file(SYNC_CONFIGURATION_FILE@),
    ensures
        classify_spec(p, is_dir, is_file).is_none(),
{
}

} // verus!
