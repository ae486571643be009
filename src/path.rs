use vstd::prelude::*;

verus! {

/// The abstract form of a path: its components, from the root down.
pub type PathView = Seq<Seq<char>>;

/// An absolute filesystem path held as its components; the root has none.
#[derive(Debug)]
pub struct Path {
    pub comps: Vec<String>,
}

impl View for Path {
    type V = PathView;

    open spec fn view(&self) -> PathView {
        self.comps@.map_values(|c: String| c@)
    }
}

/// The path one level up, where there is one.
pub open spec fn parent_of(p: PathView) -> Option<PathView> {
    if p.len() == 0 {
        None
    } else {
        Some(p.drop_last())
    }
}

impl Path {
    pub fn root() -> (r: Path)
        ensures
            r@ == Seq::<Seq<char>>::empty(),
    {
        let r = Path { comps: Vec::new() };
        assert(r@ =~= Seq::<Seq<char>>::empty());
        r
    }

    /// Builds a path from its components, root first.
    pub fn from_components(comps: Vec<String>) -> (r: Path)
        ensures
            r.comps@ == comps@,
    {
        Path { comps }
    }

    pub fn len(&self) -> (r: usize)
        ensures
            r == self@.len(),
    {
        self.comps.len()
    }

    /// An independent copy of this path.
    pub fn duplicate(&self) -> (r: Path)
        ensures
            r@ == self@,
    {
        let mut comps: Vec<String> = Vec::new();
        let mut i: usize = 0;
        while i < self.comps.len()
            invariant
                i <= self.comps.len(),
                comps@.len() == i,
                forall|j: int| 0 <= j < i ==> #[trigger] comps@[j]@ == self.comps@[j]@,
            decreases self.comps.len() - i,
        {
            comps.push(self.comps[i].clone());
            i = i + 1;
        }
        let r = Path { comps };
        assert(r@ =~= self@);
        r
    }

    /// Whether two paths name the same place.
    pub fn same_as(&self, other: &Path) -> (r: bool)
        ensures
            r == (self@ == other@),
    {
        if self.comps.len() != other.comps.len() {
            assert(self@.len() != other@.len());
            return false;
        }
        let mut i: usize = 0;
        while i < self.comps.len()
            invariant
                i <= self.comps.len(),
                self.comps.len() == other.comps.len(),
                forall|j: int| 0 <= j < i ==> #[trigger] self@[j] == other@[j],
            decreases self.comps.len() - i,
        {
            if self.comps[i] != other.comps[i] {
                assert(self@[i as int] != other@[i as int]);
                return false;
            }
            i = i + 1;
        }
        assert(self@ =~= other@);
        true
    }

    /// Appends one component.
    pub fn push(&mut self, name: String)
        ensures
            final(self)@ == old(self)@.push(name@),
    {
        self.comps.push(name);
        assert(final(self)@ =~= old(self)@.push(name@));
    }

    /// Removes the last component; false, with nothing changed, at the root.
    pub fn pop(&mut self) -> (r: bool)
        ensures
            r == (old(self)@.len() > 0),
            r ==> final(self)@ == old(self)@.drop_last(),
            !r ==> final(self)@ == old(self)@,
    {
        if self.comps.len() == 0 {
            return false;
        }
        self.comps.pop();
        assert(final(self)@ =~= old(self)@.drop_last());
        true
    }

    /// The directory that holds this path, or `None` at the root.
    pub fn parent(&self) -> (r: Option<Path>)
        ensures
            r matches Some(q) ==> parent_of(self@) == Some(q@),
            r is None ==> parent_of(self@) is None,
    {
        let mut q = self.duplicate();
        if q.pop() {
            Some(q)
        } else {
            None
        }
    }

    /// The last component, or `None` at the root.
    pub fn file_name(&self) -> (r: Option<String>)
        ensures
            r matches Some(n) ==> self@.len() > 0 && n@ == self@.last(),
            r is None ==> self@.len() == 0,
    {
        let n = self.comps.len();
        if n == 0 {
            None
        } else {
            Some(self.comps[n - 1].clone())
        }
    }

    /// This path with `name` appended as one more component.
    pub fn join(&self, name: String) -> (r: Path)
        ensures
            r@ == self@.push(name@),
    {
        let mut q = self.duplicate();
        q.push(name);
        q
    }
}

} // verus!
