use vstd::prelude::*;
use crate::order::{is_ordered, sort_entries};
use crate::path::{Path, PathView};

verus! {

/// Which field a listing is ordered by.
#[derive(Clone, Copy, Debug, PartialEq, Eq, Structural)]
pub enum SortKey {
    Natural,
    Size,
    Modified,
}

/// The rule a listing was ordered with. Two snapshots built under different
/// rules are not interchangeable.
#[derive(Clone, Copy, Debug, PartialEq, Eq, Structural)]
pub struct SortRule {
    pub key: SortKey,
    pub folders_first: bool,
    pub reverse: bool,
}

/// One object in a directory listing.
#[derive(Debug)]
pub struct DirEntry {
    pub path: Path,
    pub file_name: String,
    pub is_dir: bool,
    pub size: u64,
    pub modified: u64,
    pub selected: bool,
}

/// A listing of one directory, with a cursor into it.
#[derive(Debug)]
pub struct DirList {
    pub path: Path,
    pub contents: Vec<DirEntry>,
    pub index: Option<usize>,
    pub rule: SortRule,
}

/// The paths of the selected entries, in listing order.
pub open spec fn selected_paths(s: Seq<DirEntry>) -> Seq<PathView>
    decreases s.len(),
{
    if s.len() == 0 {
        Seq::empty()
    } else {
        let rest = selected_paths(s.drop_last());
        if s.last().selected {
            rest.push(s.last().path@)
        } else {
            rest
        }
    }
}

/// What a cut or copy would operate on: the selected entries, else the entry
/// under the cursor, else nothing.
pub open spec fn path_set_of(l: DirList) -> Option<Seq<PathView>> {
    let sel = selected_paths(l.contents@);
    if sel.len() > 0 {
        Some(sel)
    } else if l.index is Some {
        Some(seq![l.contents@[l.index->0 as int].path@])
    } else {
        None
    }
}

pub open spec fn paths_view(v: Seq<Path>) -> Seq<PathView> {
    v.map_values(|p: Path| p@)
}

impl DirList {
    /// The cursor, where present, points into the listing.
    pub open spec fn wf(&self) -> bool {
        self.index matches Some(i) ==> i < self.contents@.len()
    }

    /// A fresh listing of `path`: the entries as read, ordered by `rule`,
    /// with the cursor on the first entry if any.
    pub fn new(path: Path, contents: Vec<DirEntry>, rule: SortRule) -> (r: DirList)
        ensures
            r.wf(),
            r.path@ == path@,
            r.contents@.to_multiset() == contents@.to_multiset(),
            is_ordered(r.contents@, rule),
            r.rule == rule,
            r.index == (if contents@.len() == 0 { None } else { Some(0usize) }),
    {
        let ghost read = contents@;
        let sorted = sort_entries(contents, rule);
        proof {
            vstd::seq_lib::to_multiset_len(sorted@);
            vstd::seq_lib::to_multiset_len(read);
        }
        let index = if sorted.len() == 0 { None } else { Some(0usize) };
        DirList { path, contents: sorted, index, rule }
    }

    /// The entry under the cursor, if any.
    pub fn get_curr_entry(&self) -> (r: Option<&DirEntry>)
        requires
            self.wf(),
        ensures
            r matches Some(e) ==> self.index is Some && *e == self.contents@[self.index->0 as int],
            r is None ==> self.index is None,
    {
        match self.index {
            Some(i) => Some(&self.contents[i]),
            None => None,
        }
    }
}

/// The paths a cut or copy would take from `dirlist`: every selected entry,
/// or else the one under the cursor; `None` when there is neither.
pub fn collect_selected_paths(dirlist: &DirList) -> (r: Option<Vec<Path>>)
    requires
        dirlist.wf(),
    ensures
        r matches Some(v) ==> path_set_of(*dirlist) == Some(paths_view(v@)),
        r is None ==> path_set_of(*dirlist) is None,
{
    let mut selected: Vec<Path> = Vec::new();
    let mut i: usize = 0;
    while i < dirlist.contents.len()
        invariant
            i <= dirlist.contents@.len(),
            paths_view(selected@) == selected_paths(dirlist.contents@.take(i as int)),
        decreases dirlist.contents.len() - i,
    {
        let ghost before = selected@;
        assert(dirlist.contents@.take(i + 1).drop_last() == dirlist.contents@.take(i as int));
        if dirlist.contents[i].selected {
            selected.push(dirlist.contents[i].path.duplicate());
            assert(paths_view(selected@) =~= paths_view(before).push(dirlist.contents@[i as int].path@));
        }
        i = i + 1;
    }
    assert(dirlist.contents@.take(i as int) == dirlist.contents@);
    if selected.len() > 0 {
        Some(selected)
    } else {
        match dirlist.index {
            Some(idx) => {
                let mut v: Vec<Path> = Vec::new();
                v.push(dirlist.contents[idx].path.duplicate());
                assert(paths_view(v@) =~= seq![dirlist.contents@[idx as int].path@]);
                Some(v)
            },
            None => None,
        }
    }
}

} // verus!
