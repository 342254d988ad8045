//! Paths as sequences of components, and relativization of one path against another.
use vstd::prelude::*;

verus! {

/// The mathematical value of one path component.
pub enum ComponentView {
    RootDir,
    CurDir,
    ParentDir,
    Normal(Seq<char>),
}

/// One component of a Unix path, in the shape that `std::path::Component` gives it.
#[derive(Clone, Debug)]
pub enum PathComponent {
    RootDir,
    CurDir,
    ParentDir,
    Normal(String),
}

impl View for PathComponent {
    type V = ComponentView;

    open spec fn view(&self) -> ComponentView {
        match self {
            PathComponent::RootDir => ComponentView::RootDir,
            PathComponent::CurDir => ComponentView::CurDir,
            PathComponent::ParentDir => ComponentView::ParentDir,
            PathComponent::Normal(s) => ComponentView::Normal(s@),
        }
    }
}

impl PathComponent {
    /// A copy of this component with the same value.
    pub fn duplicate(&self) -> (r: PathComponent)
        ensures
            r@ == self@,
    {
        match self {
            PathComponent::RootDir => PathComponent::RootDir,
            PathComponent::CurDir => PathComponent::CurDir,
            PathComponent::ParentDir => PathComponent::ParentDir,
            PathComponent::Normal(s) => PathComponent::Normal(s.clone()),
        }
    }

    /// Whether two components are the same.
    pub fn same_as(&self, other: &PathComponent) -> (r: bool)
        ensures
            r == (self@ == other@),
    {
        match (self, other) {
            (PathComponent::RootDir, PathComponent::RootDir) => true,
            (PathComponent::CurDir, PathComponent::CurDir) => true,
            (PathComponent::ParentDir, PathComponent::ParentDir) => true,
            (PathComponent::Normal(a), PathComponent::Normal(b)) => a.eq(b),
            _ => false,
        }
    }
}

/// A path, held as the components that `Path::components` yields for it.
#[derive(Clone, Debug)]
pub struct ProjectPath {
    pub components: Vec<PathComponent>,
}

impl View for ProjectPath {
    type V = Seq<ComponentView>;

    open spec fn view(&self) -> Seq<ComponentView> {
        view_components(self.components@)
    }
}

/// The values of a sequence of components.
pub open spec fn view_components(s: Seq<PathComponent>) -> Seq<ComponentView> {
    s.map_values(|c: PathComponent| c@)
}

/// Pushing a component pushes its value.
proof fn lemma_view_push(s: Seq<PathComponent>, c: PathComponent)
    ensures
        view_components(s.push(c)) == view_components(s).push(c@),
{
    assert(view_components(s.push(c)) =~= view_components(s).push(c@));
}

/// A path is absolute when it starts at the root.
pub open spec fn is_absolute_spec(p: Seq<ComponentView>) -> bool {
    p.len() > 0 && p[0] == ComponentView::RootDir
}

/// `n` parent-directory components.
pub open spec fn parents(n: nat) -> Seq<ComponentView> {
    Seq::new(n, |i: int| ComponentView::ParentDir)
}

/// The components of `p` from `i` on, without a leading `.`.
pub open spec fn rest_from(p: Seq<ComponentView>, i: int) -> Seq<ComponentView> {
    if 0 <= i < p.len() && p[i] == ComponentView::CurDir {
        p.subrange(i + 1, p.len() as int)
    } else {
        p.subrange(i, p.len() as int)
    }
}

/// The walk of both paths in step, from position `i`, with `comps` gathered so far.
/// Equal leading components are dropped; each component of `base` that `path` does
/// not share becomes a `..`, and the rest of `path` follows. A `..` in `base` where
/// the two differ cannot be undone and fails.
pub open spec fn diff_from(
    path: Seq<ComponentView>,
    base: Seq<ComponentView>,
    i: int,
    comps: Seq<ComponentView>,
) -> Option<Seq<ComponentView>>
    decreases path.len() + base.len() - i,
{
    if i < 0 || i >= path.len() && i >= base.len() {
        Some(comps)
    } else if i >= base.len() {
        Some(comps + path.subrange(i, path.len() as int))
    } else if i >= path.len() {
        diff_from(path, base, i + 1, comps.push(ComponentView::ParentDir))
    } else if comps.len() == 0 && path[i] == base[i] {
        diff_from(path, base, i + 1, comps)
    } else if base[i] == ComponentView::CurDir {
        diff_from(path, base, i + 1, comps.push(path[i]))
    } else if base[i] == ComponentView::ParentDir {
        None
    } else {
        Some(
            comps.push(ComponentView::ParentDir) + parents((base.len() - i - 1) as nat)
                + rest_from(path, i),
        )
    }
}

/// `path` relative to `base`. Where exactly one of them is absolute, an absolute
/// `path` stands as it is and a relative one cannot be expressed.
pub open spec fn diff_spec(path: Seq<ComponentView>, base: Seq<ComponentView>) -> Option<
    Seq<ComponentView>,
> {
    if is_absolute_spec(path) != is_absolute_spec(base) {
        if is_absolute_spec(path) {
            Some(path)
        } else {
            None
        }
    } else {
        diff_from(path, base, 0, Seq::empty())
    }
}

/// The value of an optional path.
pub open spec fn opt_path_view(p: Option<ProjectPath>) -> Option<Seq<ComponentView>> {
    match p {
        Some(q) => Some(q@),
        None => None,
    }
}

impl ProjectPath {
    /// The empty path.
    pub fn empty() -> (r: ProjectPath)
        ensures
            r@ == Seq::<ComponentView>::empty(),
    {
        let r = ProjectPath { components: Vec::new() };
        assert(r@ =~= Seq::<ComponentView>::empty());
        r
    }

    /// A path made of the given components.
    pub fn from_components(components: Vec<PathComponent>) -> (r: ProjectPath)
        ensures
            r@ == view_components(components@),
    {
        ProjectPath { components }
    }

    /// The number of components.
    pub fn len(&self) -> (r: usize)
        ensures
            r == self@.len(),
    {
        self.components.len()
    }

    /// Whether the path starts at the root.
    pub fn is_absolute(&self) -> (r: bool)
        ensures
            r == is_absolute_spec(self@),
    {
        if self.components.len() == 0 {
            false
        } else {
            match &self.components[0] {
                PathComponent::RootDir => true,
                _ => false,
            }
        }
    }

    /// A copy of this path with the same components.
    pub fn duplicate(&self) -> (r: ProjectPath)
        ensures
            r@ == self@,
    {
        let mut out: Vec<PathComponent> = Vec::new();
        let mut i: usize = 0;
        while i < self.components.len()
            invariant
                i <= self.components.len(),
                view_components(out@) =~= self@.subrange(0, i as int),
            decreases self.components.len() - i,
        {
            let c = self.components[i].duplicate();
            let ghost prev = out@;
            out.push(c);
            proof {
                lemma_view_push(prev, c);
            }
            i = i + 1;
        }
        ProjectPath { components: out }
    }
}

/// Appends the components of `p` from `from` on to `comps`.
fn push_tail(comps: &mut Vec<PathComponent>, p: &ProjectPath, from: usize)
    requires
        from <= p@.len(),
    ensures
        view_components(final(comps)@) == view_components(old(comps)@) + p@.subrange(from as int, p@.len() as int),
{
    let ghost start = view_components(old(comps)@);
    let mut j: usize = from;
    while j < p.components.len()
        invariant
            from <= j <= p.components.len(),
            p@.len() == p.components.len(),
            view_components(comps@) =~= start + p@.subrange(
                from as int,
                j as int,
            ),
        decreases p.components.len() - j,
    {
        let c = p.components[j].duplicate();
        let ghost prev = comps@;
        comps.push(c);
        proof {
            lemma_view_push(prev, c);
            assert(p@.subrange(from as int, j + 1) =~= p@.subrange(from as int, j as int).push(c@));
        }
        j = j + 1;
    }
}

/// `path` expressed relative to `base`, or `None` where it cannot be.
pub fn diff_paths(path: &ProjectPath, base: &ProjectPath) -> (r: Option<ProjectPath>)
    ensures
        opt_path_view(r) == diff_spec(path@, base@),
{
    if path.is_absolute() != base.is_absolute() {
        if path.is_absolute() {
            return Some(path.duplicate());
        } else {
            return None;
        }
    }
    let np = path.components.len();
    let nb = base.components.len();
    let mut comps: Vec<PathComponent> = Vec::new();
    let mut i: usize = 0;
    assert(view_components(comps@) =~= Seq::<ComponentView>::empty());
    loop
        invariant
            np == path@.len(),
            nb == base@.len(),
            i <= np || i <= nb,
            is_absolute_spec(path@) == is_absolute_spec(base@),
            diff_from(path@, base@, 0, Seq::empty()) == diff_from(
                path@,
                base@,
                i as int,
                view_components(comps@),
            ),
        decreases np + nb - i,
    {
        let ghost cv = view_components(comps@);
        proof {
            if i < np {
                assert(path@[i as int] == path.components@[i as int]@);
            }
            if i < nb {
                assert(base@[i as int] == base.components@[i as int]@);
            }
        }
        if i >= np && i >= nb {
            return Some(ProjectPath { components: comps });
        } else if i >= nb {
            push_tail(&mut comps, path, i);
            return Some(ProjectPath { components: comps });
        } else if i >= np {
            let ghost prev = comps@;
            comps.push(PathComponent::ParentDir);
            proof {
                lemma_view_push(prev, PathComponent::ParentDir);
            }
            i = i + 1;
        } else if comps.len() == 0 && path.components[i].same_as(&base.components[i]) {
            i = i + 1;
        } else {
            match &base.components[i] {
                PathComponent::CurDir => {
                    let c = path.components[i].duplicate();
                    let ghost prev = comps@;
                    comps.push(c);
                    proof {
                        lemma_view_push(prev, c);
                    }
                    i = i + 1;
                },
                PathComponent::ParentDir => {
                    return None;
                },
                _ => {
                    let ghost prev = comps@;
                    comps.push(PathComponent::ParentDir);
                    proof {
                        lemma_view_push(prev, PathComponent::ParentDir);
                        assert(parents(0) =~= Seq::<ComponentView>::empty());
                        assert(cv.push(ComponentView::ParentDir) + parents(0) =~= cv.push(
                            ComponentView::ParentDir,
                        ));
                    }
                    let mut k: usize = i + 1;
                    while k < nb
                        invariant
                            i < k <= nb || k == i + 1,
                            i < nb,
                            view_components(comps@) =~= cv.push(
                                ComponentView::ParentDir,
                            ) + parents((k - i - 1) as nat),
                        decreases nb - k,
                    {
                        let ghost prev = comps@;
                        comps.push(PathComponent::ParentDir);
                        proof {
                            lemma_view_push(prev, PathComponent::ParentDir);
                            assert(parents((k + 1 - i - 1) as nat) =~= parents(
                                (k - i - 1) as nat,
                            ).push(ComponentView::ParentDir));
                        }
                        k = k + 1;
                    }
                    let skip_cur = match &path.components[i] {
                        PathComponent::CurDir => true,
                        _ => false,
                    };
                    let from = if skip_cur {
                        i + 1
                    } else {
                        i
                    };
                    push_tail(&mut comps, path, from);
                    return Some(ProjectPath { components: comps });
                },
            }
        }
    }
}

/// Equal leading components, walked with nothing gathered yet, are dropped.
proof fn lemma_skip_common(path: Seq<ComponentView>, base: Seq<ComponentView>, i: int, n: int)
    requires
        0 <= i <= n,
        n <= path.len(),
        n <= base.len(),
        forall|j: int| i <= j < n ==> path[j] == base[j],
    ensures
        diff_from(path, base, i, Seq::empty()) == diff_from(path, base, n, Seq::empty()),
    decreases n - i,
{
    if i < n {
        lemma_skip_common(path, base, i + 1, n);
    }
}

/// Once `path` is used up, each remaining component of `base` adds a `..`.
proof fn lemma_trailing_parents(
    path: Seq<ComponentView>,
    base: Seq<ComponentView>,
    i: int,
    k: nat,
)
    requires
        path.len() <= i <= base.len(),
    ensures
        diff_from(path, base, i, parents(k)) == Some(parents((k + base.len() - i) as nat)),
    decreases base.len() - i,
{
    if i < base.len() {
        assert(parents(k).push(ComponentView::ParentDir) =~= parents(k + 1));
        lemma_trailing_parents(path, base, i + 1, k + 1);
    } else {
        assert(parents(k) =~= parents((k + base.len() - i) as nat));
    }
}

/// A path relative to itself is empty.
pub proof fn lemma_diff_same(p: Seq<ComponentView>)
    ensures
        diff_spec(p, p) == Some(Seq::<ComponentView>::empty()),
{
    lemma_skip_common(p, p, 0, p.len() as int);
}

/// A path below `base` is, relative to `base`, the part below it.
pub proof fn lemma_diff_descendant(base: Seq<ComponentView>, suffix: Seq<ComponentView>)
    ensures
        diff_spec(base + suffix, base) == Some(suffix),
{
    let path = base + suffix;
    if base.len() > 0 {
        assert(path[0] == base[0]);
    }
    if is_absolute_spec(path) != is_absolute_spec(base) {
        assert(base.len() == 0);
        assert(path =~= suffix);
    } else {
        lemma_skip_common(path, base, 0, base.len() as int);
        assert(path.subrange(base.len() as int, path.len() as int) =~= suffix);
        assert(Seq::<ComponentView>::empty() + suffix =~= suffix);
    }
}

/// A path above `base` is, relative to `base`, one `..` for each component of
/// `base` below it.
pub proof fn lemma_diff_ancestor(path: Seq<ComponentView>, rest: Seq<ComponentView>)
    requires
        rest.len() > 0,
        path.len() > 0,
    ensures
        diff_spec(path, path + rest) == Some(parents(rest.len())),
{
    let base = path + rest;
    assert(base[0] == path[0]);
    lemma_skip_common(path, base, 0, path.len() as int);
    assert(parents(0) =~= Seq::<ComponentView>::empty());
    lemma_trailing_parents(path, base, path.len() as int, 0);
}

/// Where `path` and `base` share `common` and then part, the relative path climbs
/// out of the rest of `base` with one `..` per component and then goes down the
/// rest of `path`.
pub proof fn lemma_diff_diverging(
    common: Seq<ComponentView>,
    a: ComponentView,
    path_rest: Seq<ComponentView>,
    b: Seq<char>,
    base_rest: Seq<ComponentView>,
)
    requires
        a != ComponentView::Normal(b),
        a != ComponentView::CurDir,
        common.len() > 0 || a != ComponentView::RootDir,
    ensures
        diff_spec(
            common + seq![a] + path_rest,
            common + seq![ComponentView::Normal(b)] + base_rest,
        ) == Some(parents(1 + base_rest.len()) + seq![a] + path_rest),
{
    let path = common + seq![a] + path_rest;
    let base = common + seq![ComponentView::Normal(b)] + base_rest;
    let n = common.len() as int;
    assert(path[n] == a);
    assert(base[n] == ComponentView::Normal(b));
    if n > 0 {
        assert(path[0] == common[0]);
        assert(base[0] == common[0]);
    }
    assert forall|j: int| 0 <= j < n implies path[j] == base[j] by {
        assert(path[j] == common[j]);
        assert(base[j] == common[j]);
    }
    lemma_skip_common(path, base, 0, n);
    assert(path.subrange(n, path.len() as int) =~= seq![a] + path_rest);
    assert(Seq::<ComponentView>::empty().push(ComponentView::ParentDir) + parents(
        (base.len() - n - 1) as nat,
    ) =~= parents(1 + base_rest.len()));
}

/// Where exactly one of the two is absolute: a relative `path` cannot be made
/// relative to an absolute `base`, and an absolute `path` stands unchanged.
pub proof fn lemma_diff_mismatched(path: Seq<ComponentView>, base: Seq<ComponentView>)
    requires
        is_absolute_spec(path) != is_absolute_spec(base),
    ensures
        !is_absolute_spec(path) ==> diff_spec(path, base).is_none(),
        is_absolute_spec(path) ==> diff_spec(path, base) == Some(path),
{
}

} // verus!
