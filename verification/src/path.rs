//! Paths as sequences of components, with the lexical operations that the
//! workspace scope needs: joining, parent, file name and prefix test.
//!
//! A path is held as its components in the order `Path::components` yields
//! them on Unix: a leading root, a leading `.` only in front, and `..` and
//! normal names anywhere.
use vstd::prelude::*;

verus! {

#[derive(Debug, Clone)]
pub enum PathComponent {
    RootDir,
    CurDir,
    ParentDir,
    Normal(String),
}

/// The mathematical value of a component.
pub enum PartView {
    Root,
    Cur,
    Parent,
    Normal(Seq<char>),
}

impl View for PathComponent {
    type V = PartView;

    open spec fn view(&self) -> PartView {
        match self {
            PathComponent::RootDir => PartView::Root,
            PathComponent::CurDir => PartView::Cur,
            PathComponent::ParentDir => PartView::Parent,
            PathComponent::Normal(s) => PartView::Normal(s@),
        }
    }
}

#[derive(Debug, Clone)]
pub struct PathParts {
    pub parts: Vec<PathComponent>,
}

/// The values of a sequence of components.
pub open spec fn views(s: Seq<PathComponent>) -> Seq<PartView> {
    s.map_values(|c: PathComponent| c@)
}

proof fn lemma_views_push(s: Seq<PathComponent>, c: PathComponent)
    ensures
        views(s.push(c)) == views(s).push(c@),
{
    assert(views(s.push(c)) =~= views(s).push(c@));
}

impl View for PathParts {
    type V = Seq<PartView>;

    open spec fn view(&self) -> Seq<PartView> {
        views(self.parts@)
    }
}

/// A path is absolute when it begins at the root.
pub open spec fn is_absolute(p: Seq<PartView>) -> bool {
    p.len() > 0 && p[0] is Root
}

/// `Path::join`: an absolute `other` replaces `base`; otherwise `other` is
/// appended, without the `.` that may lead it when `base` is not empty.
pub open spec fn join(base: Seq<PartView>, other: Seq<PartView>) -> Seq<PartView> {
    if is_absolute(other) {
        other
    } else if other.len() > 0 && other[0] is Cur && base.len() > 0 {
        base + other.skip(1)
    } else {
        base + other
    }
}

/// `Path::parent`: the path without its last component, unless the path is
/// empty or ends at the root.
pub open spec fn parent(p: Seq<PartView>) -> Option<Seq<PartView>> {
    if p.len() == 0 || p.last() is Root {
        None
    } else {
        Some(p.drop_last())
    }
}

/// `Path::file_name`: the last component when it is a normal name.
pub open spec fn file_name(p: Seq<PartView>) -> Option<Seq<char>> {
    if p.len() > 0 && p.last() is Normal {
        Some(p.last()->Normal_0)
    } else {
        None
    }
}

/// `Path::starts_with`: `base` is a prefix of `p`, component by component.
pub open spec fn starts_with(p: Seq<PartView>, base: Seq<PartView>) -> bool {
    base.len() <= p.len() && p.take(base.len() as int) == base
}

impl PathComponent {
    /// An equal copy of the component.
    pub fn duplicate(&self) -> (c: PathComponent)
        ensures
            c@ == self@,
    {
        match self {
            PathComponent::RootDir => PathComponent::RootDir,
            PathComponent::CurDir => PathComponent::CurDir,
            PathComponent::ParentDir => PathComponent::ParentDir,
            PathComponent::Normal(s) => PathComponent::Normal(s.clone()),
        }
    }

    /// Whether two components are the same.
    pub fn same_as(&self, other: &PathComponent) -> (r: bool)
        ensures
            r == (self@ == other@),
    {
        match (self, other) {
            (PathComponent::RootDir, PathComponent::RootDir) => true,
            (PathComponent::CurDir, PathComponent::CurDir) => true,
            (PathComponent::ParentDir, PathComponent::ParentDir) => true,
            (PathComponent::Normal(a), PathComponent::Normal(b)) => a.eq(b),
            _ => false,
        }
    }
}

impl PathParts {
    /// The path made of `parts`.
    pub fn new(parts: Vec<PathComponent>) -> (p: PathParts)
        ensures
            p.parts@ == parts@,
    {
        PathParts { parts }
    }

    /// Appends the components `from[start..]` to `out`.
    fn extend_from(out: &mut Vec<PathComponent>, from: &Vec<PathComponent>, start: usize)
        requires
            start <= from.len(),
        ensures
            views(final(out)@) == views(old(out)@) + views(from@).skip(start as int),
    {
        let ghost before = views(out@);
        let ghost src = views(from@);
        let mut i = start;
        while i < from.len()
            invariant
                start <= i <= from.len(),
                src == views(from@),
                views(out@) == before + src.subrange(
                    start as int,
                    i as int,
                ),
            decreases from.len() - i,
        {
            let c = from[i].duplicate();
            proof {
                lemma_views_push(out@, c);
            }
            out.push(c);
            assert(views(out@) =~= before + src.subrange(
                start as int,
                i + 1,
            ));
            i = i + 1;
        }
        assert(src.subrange(start as int, from.len() as int) =~= src.skip(start as int));
    }

    /// An equal copy of the path.
    pub fn duplicate(&self) -> (p: PathParts)
        ensures
            p@ == self@,
    {
        let mut out: Vec<PathComponent> = Vec::new();
        Self::extend_from(&mut out, &self.parts, 0);
        assert(self@.skip(0) =~= self@);
        assert(views(out@) =~= self@);
        PathParts { parts: out }
    }

    /// Whether the path begins at the root.
    pub fn is_absolute(&self) -> (r: bool)
        ensures
            r == is_absolute(self@),
    {
        if self.parts.len() == 0 {
            false
        } else {
            match &self.parts[0] {
                PathComponent::RootDir => true,
                _ => false,
            }
        }
    }

    /// `self` joined with `other` (see [`join`]).
    pub fn join(&self, other: &PathParts) -> (p: PathParts)
        ensures
            p@ == join(self@, other@),
    {
        if other.is_absolute() {
            return other.duplicate();
        }
        let mut out: Vec<PathComponent> = Vec::new();
        Self::extend_from(&mut out, &self.parts, 0);
        assert(self@.skip(0) =~= self@);
        let leading_dot = other.parts.len() > 0 && match &other.parts[0] {
            PathComponent::CurDir => true,
            _ => false,
        };
        let start: usize = if leading_dot && self.parts.len() > 0 {
            1
        } else {
            0
        };
        Self::extend_from(&mut out, &other.parts, start);
        assert(other@.skip(0) =~= other@);
        let p = PathParts { parts: out };
        assert(p@ =~= join(self@, other@));
        p
    }

    /// `self` with the normal name `name` appended.
    pub fn push_name(&self, name: &String) -> (p: PathParts)
        ensures
            p@ == self@.push(PartView::Normal(name@)),
    {
        let mut out: Vec<PathComponent> = Vec::new();
        Self::extend_from(&mut out, &self.parts, 0);
        assert(self@.skip(0) =~= self@);
        out.push(PathComponent::Normal(name.clone()));
        let p = PathParts { parts: out };
        assert(p@ =~= self@.push(PartView::Normal(name@)));
        p
    }

    /// The parent directory (see [`parent`]).
    pub fn parent(&self) -> (r: Option<PathParts>)
        ensures
            r matches Some(p) ==> parent(self@) == Some(p@),
            r is None ==> parent(self@) is None,
    {
        let n = self.parts.len();
        if n == 0 {
            return None;
        }
        match &self.parts[n - 1] {
            PathComponent::RootDir => None,
            _ => {
                let mut out: Vec<PathComponent> = Vec::new();
                let mut i: usize = 0;
                while i < n - 1
                    invariant
                        n == self.parts.len(),
                        n > 0,
                        i <= n - 1,
                        views(out@) == self@.take(i as int),
                    decreases n - 1 - i,
                {
                    let c = self.parts[i].duplicate();
                    proof {
                        lemma_views_push(out@, c);
                    }
                    out.push(c);
                    assert(views(out@) =~= self@.take(i + 1));
                    i = i + 1;
                }
                let p = PathParts { parts: out };
                assert(p@ =~= self@.drop_last());
                Some(p)
            },
        }
    }

    /// The last component when it is a normal name (see [`file_name`]).
    pub fn file_name(&self) -> (r: Option<String>)
        ensures
            r matches Some(s) ==> file_name(self@) == Some(s@),
            r is None ==> file_name(self@) is None,
    {
        let n = self.parts.len();
        if n == 0 {
            return None;
        }
        match &self.parts[n - 1] {
            PathComponent::Normal(s) => Some(s.clone()),
            _ => None,
        }
    }

    /// Whether `base` is a component-wise prefix of `self`.
    pub fn starts_with(&self, base: &PathParts) -> (r: bool)
        ensures
            r == starts_with(self@, base@),
    {
        if base.parts.len() > self.parts.len() {
            return false;
        }
        let mut i: usize = 0;
        while i < base.parts.len()
            invariant
                base.parts.len() <= self.parts.len(),
                i <= base.parts.len(),
                forall|j: int| 0 <= j < i ==> self@[j] == base@[j],
            decreases base.parts.len() - i,
        {
            if !self.parts[i].same_as(&base.parts[i]) {
                assert(self@.take(base@.len() as int)[i as int] != base@[i as int]);
                return false;
            }
            i = i + 1;
        }
        assert(self@.take(base@.len() as int) =~= base@);
        true
    }
}

} // verus!
