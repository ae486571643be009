use vstd::prelude::*;
use crate::path::{Path, PathView};
use crate::snapshot::{DirList, SortRule};

verus! {

/// Listings of directories visited earlier, at most one per path.
#[derive(Debug)]
pub struct DirHistory {
    pub lists: Vec<DirList>,
}

/// What a lookup of `p` under `rule` hands out: the stored listing when it
/// was ordered by the same rule, nothing otherwise.
pub open spec fn popped(m: Map<PathView, DirList>, p: PathView, rule: SortRule) -> Option<DirList> {
    if m.contains_key(p) && m[p].rule == rule {
        Some(m[p])
    } else {
        None
    }
}

impl DirHistory {
    pub open spec fn has(&self, p: PathView) -> bool {
        exists|i: int| 0 <= i < self.lists@.len() && #[trigger] self.lists@[i].path@ == p
    }

    pub open spec fn wf(&self) -> bool {
        &&& forall|i: int, j: int|
            0 <= i < self.lists@.len() && 0 <= j < self.lists@.len() && i != j
                ==> #[trigger] self.lists@[i].path@ != #[trigger] self.lists@[j].path@
        &&& forall|i: int| 0 <= i < self.lists@.len() ==> #[trigger] self.lists@[i].wf()
    }

    /// Every listing stored, keyed by its own path.
    pub open spec fn view(&self) -> Map<PathView, DirList> {
        Map::new(
            |p: PathView| self.has(p),
            |p: PathView| self.lists@[choose|i: int| 0 <= i < self.lists@.len() && #[trigger] self.lists@[i].path@ == p],
        )
    }

    proof fn lemma_entry(&self, i: int)
        requires
            self.wf(),
            0 <= i < self.lists@.len(),
        ensures
            self.view().contains_key(self.lists@[i].path@),
            self.view()[self.lists@[i].path@] == self.lists@[i],
    {
        let p = self.lists@[i].path@;
        assert(self.has(p));
        let j = choose|j: int| 0 <= j < self.lists@.len() && #[trigger] self.lists@[j].path@ == p;
        assert(j == i);
    }

    /// The stored listings are keyed by their paths and well formed.
    pub proof fn lemma_keys(&self)
        requires
            self.wf(),
        ensures
            forall|p: PathView| #[trigger] self.view().contains_key(p) ==> self.view()[p].path@ == p
                && self.view()[p].wf(),
    {
        assert forall|p: PathView| #[trigger] self.view().contains_key(p) implies self.view()[p].path@ == p
            && self.view()[p].wf() by {
            let i = choose|i: int| 0 <= i < self.lists@.len() && #[trigger] self.lists@[i].path@ == p;
            self.lemma_entry(i);
        }
    }

    pub fn new() -> (r: DirHistory)
        ensures
            r.wf(),
            r.view() == Map::<PathView, DirList>::empty(),
    {
        let r = DirHistory { lists: Vec::new() };
        assert(r.view() =~= Map::<PathView, DirList>::empty());
        r
    }

    /// How many listings are stored.
    pub fn len(&self) -> (r: usize)
        ensures
            r == self.lists@.len(),
    {
        self.lists.len()
    }

    fn find(&self, path: &Path) -> (r: Option<usize>)
        ensures
            r matches Some(i) ==> i < self.lists@.len() && self.lists@[i as int].path@ == path@,
            r is None ==> !self.has(path@),
    {
        let mut i: usize = 0;
        while i < self.lists.len()
            invariant
                i <= self.lists@.len(),
                forall|j: int| 0 <= j < i ==> #[trigger] self.lists@[j].path@ != path@,
            decreases self.lists.len() - i,
        {
            if self.lists[i].path.same_as(path) {
                return Some(i);
            }
            i = i + 1;
        }
        None
    }

    /// Whether a listing of `path` is stored.
    pub fn contains(&self, path: &Path) -> (r: bool)
        ensures
            r == self.view().contains_key(path@),
    {
        self.find(path).is_some()
    }

    /// Takes the stored listing of `path` out of the cache. It is handed out
    /// only when it was ordered by `rule`; a listing under another rule is
    /// dropped, and the caller then builds a fresh one.
    pub fn pop_or_create(&mut self, path: &Path, rule: SortRule) -> (r: Option<DirList>)
        requires
            old(self).wf(),
        ensures
            final(self).wf(),
            r == popped(old(self).view(), path@, rule),
            final(self).view() == old(self).view().remove(path@),
    {
        match self.find(path) {
            None => {
                assert(self.view() =~= old(self).view().remove(path@));
                None
            },
            Some(i) => {
                proof {
                    self.lemma_entry(i as int);
                }
                let ghost before = *self;
                let list = self.lists.remove(i);
                proof {
                    assert forall|a: int, b: int|
                        0 <= a < self.lists@.len() && 0 <= b < self.lists@.len() && a != b
                            implies #[trigger] self.lists@[a].path@ != #[trigger] self.lists@[b].path@ by {
                        let a2 = if a < i { a } else { a + 1 };
                        let b2 = if b < i { b } else { b + 1 };
                        assert(before.lists@[a2] == self.lists@[a]);
                        assert(before.lists@[b2] == self.lists@[b]);
                    }
                    assert forall|a: int| 0 <= a < self.lists@.len() implies #[trigger] self.lists@[a].wf() by {
                        let a2 = if a < i { a } else { a + 1 };
                        assert(before.lists@[a2] == self.lists@[a]);
                    }
                    assert forall|q: PathView| #[trigger] self.view().contains_key(q)
                        == before.view().remove(path@).contains_key(q) by {
                        if self.has(q) {
                            let a = choose|a: int| 0 <= a < self.lists@.len() && #[trigger] self.lists@[a].path@ == q;
                            let a2 = if a < i { a } else { a + 1 };
                            assert(before.lists@[a2] == self.lists@[a]);
                            assert(before.has(q));
                        }
                        if before.has(q) && q != path@ {
                            let a = choose|a: int| 0 <= a < before.lists@.len() && #[trigger] before.lists@[a].path@ == q;
                            assert(a != i);
                            let a1 = if a < i { a } else { a - 1 };
                            assert(before.lists@[a] == self.lists@[a1]);
                            assert(self.has(q));
                        }
                    }
                    assert forall|q: PathView| #[trigger] self.view().contains_key(q)
                        implies self.view()[q] == before.view()[q] by {
                        let a = choose|a: int| 0 <= a < self.lists@.len() && #[trigger] self.lists@[a].path@ == q;
                        let a2 = if a < i { a } else { a + 1 };
                        assert(before.lists@[a2] == self.lists@[a]);
                        self.lemma_entry(a);
                        before.lemma_entry(a2);
                    }
                    assert(self.view() =~= before.view().remove(path@));
                }
                if list.rule == rule {
                    Some(list)
                } else {
                    None
                }
            },
        }
    }
    /// Stores `list` under its own path, replacing whatever was stored there.
    pub fn put_back(&mut self, list: DirList)
        requires
            old(self).wf(),
            list.wf(),
        ensures
            final(self).wf(),
            final(self).view() == old(self).view().insert(list.path@, list),
    {
        let ghost p = list.path@;
        let ghost entry = list;
        match self.find(&list.path) {
            Some(i) => {
                let ghost before = *self;
                self.lists.set(i, list);
                proof {
                    assert(self.lists@ == before.lists@.update(i as int, entry));
                    assert forall|a: int, b: int|
                        0 <= a < self.lists@.len() && 0 <= b < self.lists@.len() && a != b
                            implies #[trigger] self.lists@[a].path@ != #[trigger] self.lists@[b].path@ by {
                        if a != i && b != i {
                            assert(before.lists@[a] == self.lists@[a]);
                            assert(before.lists@[b] == self.lists@[b]);
                        } else if a == i {
                            assert(before.lists@[b] == self.lists@[b]);
                        } else {
                            assert(before.lists@[a] == self.lists@[a]);
                        }
                    }
                    assert forall|q: PathView| #[trigger] self.view().contains_key(q)
                        == before.view().insert(p, entry).contains_key(q) by {
                        if self.has(q) {
                            let a = choose|a: int| 0 <= a < self.lists@.len() && #[trigger] self.lists@[a].path@ == q;
                            if a != i {
                                assert(before.lists@[a] == self.lists@[a]);
                                assert(before.has(q));
                            }
                        }
                        if before.has(q) {
                            let a = choose|a: int| 0 <= a < before.lists@.len() && #[trigger] before.lists@[a].path@ == q;
                            if a != i {
                                assert(before.lists@[a] == self.lists@[a]);
                                assert(self.has(q));
                            }
                        }
                        if q == p {
                            assert(self.lists@[i as int].path@ == p);
                            assert(self.has(q));
                        }
                    }
                    assert forall|q: PathView| #[trigger] self.view().contains_key(q)
                        implies self.view()[q] == before.view().insert(p, entry)[q] by {
                        let a = choose|a: int| 0 <= a < self.lists@.len() && #[trigger] self.lists@[a].path@ == q;
                        self.lemma_entry(a);
                        if a != i {
                            assert(before.lists@[a] == self.lists@[a]);
                            before.lemma_entry(a);
                        }
                    }
                    assert(self.view() =~= before.view().insert(p, entry));
                }
            },
            None => {
                let ghost before = *self;
                self.lists.push(list);
                proof {
                    let n = before.lists@.len() as int;
                    assert forall|a: int| 0 <= a < n implies #[trigger] self.lists@[a] == before.lists@[a] by {}
                    assert(self.lists@[n] == entry);
                    assert forall|q: PathView| #[trigger] self.view().contains_key(q)
                        == before.view().insert(p, entry).contains_key(q) by {
                        if self.has(q) {
                            let a = choose|a: int| 0 <= a < self.lists@.len() && #[trigger] self.lists@[a].path@ == q;
                            if a != n {
                                assert(before.lists@[a] == self.lists@[a]);
                                assert(before.has(q));
                            }
                        }
                        if before.has(q) {
                            let a = choose|a: int| 0 <= a < before.lists@.len() && #[trigger] before.lists@[a].path@ == q;
                            assert(before.lists@[a] == self.lists@[a]);
                            assert(self.has(q));
                        }
                        if q == p {
                            assert(self.has(q));
                        }
                    }
                    assert forall|q: PathView| #[trigger] self.view().contains_key(q)
                        implies self.view()[q] == before.view().insert(p, entry)[q] by {
                        let a = choose|a: int| 0 <= a < self.lists@.len() && #[trigger] self.lists@[a].path@ == q;
                        self.lemma_entry(a);
                        if a != n {
                            assert(before.lists@[a] == self.lists@[a]);
                            before.lemma_entry(a);
                        }
                    }
                    assert(self.view() =~= before.view().insert(p, entry));
                }
            },
        }
    }

    /// A listing that was put back is handed out again, unchanged, when asked
    /// for under the rule it was ordered by, and never under another rule.
    pub proof fn lemma_put_back_then_pop(h: DirHistory, list: DirList, rule: SortRule)
        ensures
            popped(h.view().insert(list.path@, list), list.path@, rule)
                == (if rule == list.rule { Some(list) } else { None::<DirList> }),
    {
    }
}

} // verus!
