use vstd::prelude::*;
use crate::path::{Path, PathView};
use crate::snapshot::{collect_selected_paths, path_set_of, paths_view, DirList};

verus! {

/// What a paste does with the pending paths.
#[derive(Clone, Copy, Debug, PartialEq, Eq, Structural)]
pub enum FileOp {
    Cut,
    Copy,
}

/// The abstract pending operation: the path set and its kind.
pub struct PendingModel {
    pub paths: Seq<PathView>,
    pub kind: FileOp,
}

/// The one pending cut-or-copy context: the paths marked last, and whether
/// a paste moves or duplicates them.
#[derive(Debug)]
pub struct PendingOperation {
    pub paths: Vec<Path>,
    pub kind: FileOp,
}

impl View for PendingOperation {
    type V = PendingModel;

    open spec fn view(&self) -> PendingModel {
        PendingModel { paths: paths_view(self.paths@), kind: self.kind }
    }
}

/// The pending state after marking `l` for `kind`: replaced when the listing
/// yields a path set, untouched otherwise.
pub open spec fn marked(m: PendingModel, l: DirList, kind: FileOp) -> PendingModel {
    match path_set_of(l) {
        Some(ps) => PendingModel { paths: ps, kind },
        None => m,
    }
}

/// Marking the same listing twice leaves the same pending state as marking
/// it once.
pub proof fn lemma_mark_idempotent(m: PendingModel, l: DirList, kind: FileOp)
    ensures
        marked(marked(m, l, kind), l, kind) == marked(m, l, kind),
{
}

impl PendingOperation {
    /// Nothing pending; a paste would copy.
    pub fn new() -> (r: PendingOperation)
        ensures
            r@.paths.len() == 0,
            r.kind == FileOp::Copy,
    {
        PendingOperation { paths: Vec::new(), kind: FileOp::Copy }
    }

    pub fn len(&self) -> (r: usize)
        ensures
            r == self@.paths.len(),
    {
        self.paths.len()
    }

    pub fn is_empty(&self) -> (r: bool)
        ensures
            r == (self@.paths.len() == 0),
    {
        self.paths.len() == 0
    }

    /// Records which operation a later paste performs.
    pub fn set_file_op(&mut self, operation: FileOp)
        ensures
            final(self).kind == operation,
            final(self)@.paths == old(self)@.paths,
    {
        self.kind = operation;
    }

    /// Replaces the path set with the one `dirlist` yields; false, with
    /// nothing changed, when it yields none.
    pub fn repopulated_selected_files(&mut self, dirlist: &DirList) -> (r: bool)
        requires
            dirlist.wf(),
        ensures
            r == (path_set_of(*dirlist) is Some),
            r ==> final(self)@.paths == path_set_of(*dirlist)->0,
            final(self).kind == old(self).kind,
            !r ==> final(self)@ == old(self)@,
    {
        match collect_selected_paths(dirlist) {
            Some(contents) => {
                self.paths = contents;
                true
            },
            None => false,
        }
    }

    /// Marks the paths of `dirlist` for `kind`.
    pub fn mark(&mut self, dirlist: &DirList, kind: FileOp) -> (r: bool)
        requires
            dirlist.wf(),
        ensures
            r == (path_set_of(*dirlist) is Some),
            final(self)@ == marked(old(self)@, *dirlist, kind),
    {
        if self.repopulated_selected_files(dirlist) {
            self.set_file_op(kind);
            true
        } else {
            false
        }
    }

    /// Hands the path set over to a worker, leaving it empty.
    pub fn take_paths(&mut self) -> (r: Vec<Path>)
        ensures
            paths_view(r@) == old(self)@.paths,
            final(self)@.paths.len() == 0,
            final(self).kind == old(self).kind,
    {
        let mut taken: Vec<Path> = Vec::new();
        std::mem::swap(&mut taken, &mut self.paths);
        taken
    }
}

/// The command that marks the current selection to be moved.
#[derive(Clone, Copy, Debug)]
pub struct CutFiles;

impl CutFiles {
    pub fn new() -> (r: CutFiles) {
        CutFiles
    }

    pub fn command() -> (r: &'static str)
        ensures
            r@ == "cut_files"@,
    {
        "cut_files"
    }

    /// Marks the paths of the current listing, if there is one, for a move.
    pub fn execute(&self, pending: &mut PendingOperation, curr_list: Option<&DirList>) -> (r: bool)
        requires
            curr_list matches Some(l) ==> l.wf(),
        ensures
            curr_list matches Some(l) ==> final(pending)@ == marked(old(pending)@, *l, FileOp::Cut)
                && r == (path_set_of(*l) is Some),
            curr_list is None ==> final(pending)@ == old(pending)@ && !r,
    {
        match curr_list {
            Some(l) => pending.mark(l, FileOp::Cut),
            None => false,
        }
    }
}

/// The command that marks the current selection to be duplicated.
#[derive(Clone, Copy, Debug)]
pub struct CopyFiles;

impl CopyFiles {
    pub fn new() -> (r: CopyFiles) {
        CopyFiles
    }

    pub fn command() -> (r: &'static str)
        ensures
            r@ == "copy_files"@,
    {
        "copy_files"
    }

    /// Marks the paths of the current listing, if there is one, for a copy.
    pub fn execute(&self, pending: &mut PendingOperation, curr_list: Option<&DirList>) -> (r: bool)
        requires
            curr_list matches Some(l) ==> l.wf(),
        ensures
            curr_list matches Some(l) ==> final(pending)@ == marked(old(pending)@, *l, FileOp::Copy)
                && r == (path_set_of(*l) is Some),
            curr_list is None ==> final(pending)@ == old(pending)@ && !r,
    {
        match curr_list {
            Some(l) => pending.mark(l, FileOp::Copy),
            None => false,
        }
    }
}

} // verus!
