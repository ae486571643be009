use vstd::prelude::*;
use crate::history::{popped, DirHistory};
use crate::path::{parent_of, Path, PathView};
use crate::snapshot::{DirList, SortRule};

verus! {

/// The abstract navigation state of a tab.
pub struct TabModel {
    pub path: PathView,
    pub curr: Option<DirList>,
    pub parent: Option<DirList>,
    pub history: Map<PathView, DirList>,
}

/// The cache after `l`, if any, was put back.
pub open spec fn put_opt(h: Map<PathView, DirList>, l: Option<DirList>) -> Map<PathView, DirList> {
    match l {
        Some(x) => h.insert(x.path@, x),
        None => h,
    }
}

/// The listings agree with the tab's path, and the cache is keyed by path.
pub open spec fn tab_model_wf(m: TabModel) -> bool {
    &&& m.curr matches Some(l) ==> l.path@ == m.path
    &&& m.parent matches Some(l) ==> parent_of(m.path) == Some(l.path@)
    &&& forall|p: PathView| #[trigger] m.history.contains_key(p) ==> m.history[p].path@ == p
}

/// One level up: the current listing goes into the cache, the parent
/// listing becomes current, and the grandparent's listing comes out of the
/// cache when it was ordered by `rule`.
pub open spec fn model_to_parent(m: TabModel, rule: SortRule) -> TabModel {
    let h = put_opt(m.history, m.curr);
    let np = m.path.drop_last();
    if np.len() > 0 {
        let gp = np.drop_last();
        TabModel { path: np, curr: m.parent, parent: popped(h, gp, rule), history: h.remove(gp) }
    } else {
        TabModel { path: np, curr: m.parent, parent: None, history: h }
    }
}

/// One level down into `name`: the parent listing goes into the cache, the
/// current one becomes the parent, and the child's listing comes out of the
/// cache when it was ordered by `rule`.
pub open spec fn model_to_child(m: TabModel, name: Seq<char>, rule: SortRule) -> TabModel {
    let h = put_opt(m.history, m.parent);
    let np = m.path.push(name);
    TabModel { path: np, curr: popped(h, np, rule), parent: m.curr, history: h.remove(np) }
}

/// The navigation state of one tab: where it is, the listings it shows, and
/// the listings it has left behind.
#[derive(Debug)]
pub struct Tab {
    pub curr_path: Path,
    pub curr_list: Option<DirList>,
    pub parent_list: Option<DirList>,
    pub history: DirHistory,
}

/// On the abstract state: going up and then back into the directory just
/// left restores its listing from the cache.
pub proof fn lemma_parent_then_child_model(m: TabModel, rule: SortRule)
    requires
        tab_model_wf(m),
        m.path.len() > 0,
        m.curr matches Some(l) && l.rule == rule,
    ensures
        model_to_child(model_to_parent(m, rule), m.path.last(), rule).curr == m.curr,
        model_to_child(model_to_parent(m, rule), m.path.last(), rule).path == m.path,
{
    let l = m.curr->0;
    let h1 = put_opt(m.history, m.curr);
    let m1 = model_to_parent(m, rule);
    assert(h1.contains_key(m.path) && h1[m.path] == l);
    let np = m.path.drop_last();
    if np.len() > 0 {
        let gp = np.drop_last();
        assert(gp.len() != m.path.len());
        assert(m1.history.contains_key(m.path) && m1.history[m.path] == l);
        if popped(h1, gp, rule) is Some {
            if gp == m.path {
            } else {
                assert(h1[gp].path@ == gp) by {
                    if m.history.contains_key(gp) {
                    }
                }
            }
        }
    }
    let h2 = put_opt(m1.history, m1.parent);
    assert(m.path.drop_last().push(m.path.last()) =~= m.path);
    assert(h2.contains_key(m.path) && h2[m.path] == l);
}

/// Going up and then back into the directory just left restores its
/// listing, cursor and selection included, from the cache rather than from a
/// fresh read, when both steps use the rule that listing was ordered by.
pub proof fn lemma_parent_then_child(t: Tab, rule: SortRule)
    requires
        t.wf(),
        t@.path.len() > 0,
        t.curr_list matches Some(l) && l.rule == rule,
    ensures
        model_to_child(model_to_parent(t@, rule), t@.path.last(), rule).curr == t.curr_list,
        model_to_child(model_to_parent(t@, rule), t@.path.last(), rule).path == t@.path,
{
    t.lemma_model_wf();
    lemma_parent_then_child_model(t@, rule);
}

/// Where the parent pane's listing comes from after a step up.
#[derive(Debug)]
pub enum ParentLoad {
    /// From the cache; nothing to read.
    Cached,
    /// The tab is at the root now: the pane is cleared.
    Cleared,
    /// Not cached under the current rule: the caller reads this directory.
    NeedsRead(Path),
}

impl View for Tab {
    type V = TabModel;

    open spec fn view(&self) -> TabModel {
        TabModel {
            path: self.curr_path@,
            curr: self.curr_list,
            parent: self.parent_list,
            history: self.history.view(),
        }
    }
}

impl Tab {
    pub open spec fn wf(&self) -> bool {
        &&& self.history.wf()
        &&& self.curr_list matches Some(l) ==> l.wf() && l.path@ == self.curr_path@
        &&& self.parent_list matches Some(l) ==> l.wf() && parent_of(self.curr_path@) == Some(l.path@)
    }

    pub proof fn lemma_model_wf(&self)
        requires
            self.wf(),
        ensures
            tab_model_wf(self@),
    {
        self.history.lemma_keys();
    }

    /// A tab at `curr_path` showing `curr_list`, with nothing cached yet.
    pub fn new(curr_path: Path, curr_list: Option<DirList>, parent_list: Option<DirList>) -> (r: Tab)
        requires
            curr_list matches Some(l) ==> l.wf() && l.path@ == curr_path@,
            parent_list matches Some(l) ==> l.wf() && parent_of(curr_path@) == Some(l.path@),
        ensures
            r.wf(),
            r@.path == curr_path@,
            r@.curr == curr_list,
            r@.parent == parent_list,
            r@.history == Map::<PathView, DirList>::empty(),
    {
        Tab { curr_path, curr_list, parent_list, history: DirHistory::new() }
    }

    /// The directory a step up would enter, or `None` at the root.
    pub fn parent_target(&self) -> (r: Option<Path>)
        ensures
            r matches Some(p) ==> parent_of(self@.path) == Some(p@),
            r is None ==> parent_of(self@.path) is None,
    {
        self.curr_path.parent()
    }

    /// Takes the step up, once the process has entered the parent directory.
    pub fn enter_parent(&mut self, rule: SortRule) -> (r: ParentLoad)
        requires
            old(self).wf(),
            old(self)@.path.len() > 0,
        ensures
            final(self).wf(),
            final(self)@ == model_to_parent(old(self)@, rule),
            r is Cleared <==> final(self)@.path.len() == 0,
            r is Cached ==> final(self).parent_list is Some,
            r matches ParentLoad::NeedsRead(p) ==> final(self).parent_list is None
                && parent_of(final(self)@.path) == Some(p@),
    {
        let curr = self.curr_list.take();
        match curr {
            Some(l) => self.history.put_back(l),
            None => {},
        }
        self.curr_list = self.parent_list.take();
        self.curr_path.pop();
        proof {
            self.history.lemma_keys();
        }
        match self.curr_path.parent() {
            Some(gp) => {
                let found = self.history.pop_or_create(&gp, rule);
                proof {
                    self.history.lemma_keys();
                }
                match found {
                    Some(l) => {
                        self.parent_list = Some(l);
                        ParentLoad::Cached
                    },
                    None => ParentLoad::NeedsRead(gp),
                }
            },
            None => ParentLoad::Cleared,
        }
    }

    /// Shows a freshly read listing of the parent directory.
    pub fn set_parent_list(&mut self, list: DirList)
        requires
            old(self).wf(),
            list.wf(),
            parent_of(old(self)@.path) == Some(list.path@),
        ensures
            final(self).wf(),
            final(self)@ == (TabModel { parent: Some(list), ..old(self)@ }),
    {
        self.parent_list = Some(list);
    }

    /// Shows a freshly read listing of the current directory.
    pub fn set_curr_list(&mut self, list: DirList)
        requires
            old(self).wf(),
            list.wf(),
            list.path@ == old(self)@.path,
        ensures
            final(self).wf(),
            final(self)@ == (TabModel { curr: Some(list), ..old(self)@ }),
    {
        self.curr_list = Some(list);
    }

    /// Takes a step down into `name`, once the process has entered it.
    /// Returns the directory to read when its listing was not cached under
    /// `rule`.
    pub fn enter_child(&mut self, name: String, rule: SortRule) -> (r: Option<Path>)
        requires
            old(self).wf(),
        ensures
            final(self).wf(),
            final(self)@ == model_to_child(old(self)@, name@, rule),
            r is None <==> final(self).curr_list is Some,
            r matches Some(p) ==> p@ == final(self)@.path,
    {
        let parent = self.parent_list.take();
        match parent {
            Some(l) => self.history.put_back(l),
            None => {},
        }
        self.parent_list = self.curr_list.take();
        self.curr_path.push(name);
        assert(self.curr_path@.drop_last() =~= old(self)@.path);
        let found = self.history.pop_or_create(&self.curr_path, rule);
        proof {
            self.history.lemma_keys();
        }
        match found {
            Some(l) => {
                self.curr_list = Some(l);
                None
            },
            None => Some(self.curr_path.duplicate()),
        }
    }
}

/// The command that moves a tab one directory up.
#[derive(Clone, Copy, Debug)]
pub struct ParentDirectory;

impl ParentDirectory {
    pub fn new() -> (r: ParentDirectory) {
        ParentDirectory
    }

    pub fn command() -> (r: &'static str)
        ensures
            r@ == "parent_directory"@,
    {
        "parent_directory"
    }

    /// Moves `tab` up, given whether the process could enter the parent
    /// directory (see `Tab::parent_target`). At the root, or when that
    /// failed, the tab is left as it was and `None` comes back.
    pub fn parent_directory(tab: &mut Tab, rule: SortRule, entered: bool) -> (r: Option<ParentLoad>)
        requires
            old(tab).wf(),
        ensures
            final(tab).wf(),
            r is Some <==> (old(tab)@.path.len() > 0 && entered),
            r is Some ==> final(tab)@ == model_to_parent(old(tab)@, rule),
            r is None ==> final(tab)@ == old(tab)@,
    {
        if tab.curr_path.len() == 0 || !entered {
            return None;
        }
        Some(tab.enter_parent(rule))
    }
}

} // verus!
