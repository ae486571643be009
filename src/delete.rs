use vstd::prelude::*;
use crate::path::{Path, PathView};
use crate::progress::{item_report, lemma_item_reports_monotone, ProgressInfo};
use crate::snapshot::{collect_selected_paths, path_set_of, paths_view, DirList};

verus! {

/// The key that answers the delete prompt with enter.
pub const ENTER: i32 = 10;

/// Where a delete stands within the current item.
#[derive(Clone, Copy, Debug, PartialEq, Eq, Structural)]
pub enum DeleteStage {
    /// Between items: ask for the next action.
    Idle,
    AwaitStat,
    AwaitRemove,
}

/// The filesystem work a delete asks its runner to do next.
#[derive(Debug)]
pub enum DeleteAction {
    /// Report whether `path` is a directory, or that it no longer exists.
    Stat { path: Path },
    /// Remove the directory `path` and everything under it.
    RemoveDir { path: Path },
    /// Remove the file `path`.
    RemoveFile { path: Path },
    /// One more item is finished.
    Report(ProgressInfo),
    /// Every item is finished.
    Done,
}

impl DeleteAction {
    pub open spec fn is_stat(&self, path: PathView) -> bool {
        self matches DeleteAction::Stat { path: p } && p@ == path
    }

    pub open spec fn is_remove_dir(&self, path: PathView) -> bool {
        self matches DeleteAction::RemoveDir { path: p } && p@ == path
    }

    pub open spec fn is_remove_file(&self, path: PathView) -> bool {
        self matches DeleteAction::RemoveFile { path: p } && p@ == path
    }
}

/// What the runner found when it did the last action.
#[derive(Clone, Copy, Debug, PartialEq, Eq, Structural)]
pub enum DeleteEvent {
    Stat(Option<bool>),
    Removed(bool),
}

pub open spec fn delete_event_fits(stage: DeleteStage, ev: DeleteEvent) -> bool {
    match ev {
        DeleteEvent::Stat(_) => stage == DeleteStage::AwaitStat,
        DeleteEvent::Removed(_) => stage == DeleteStage::AwaitRemove,
    }
}

/// A removal of every path in `paths`, one item at a time. An item that
/// cannot be removed is recorded in `failures` and the batch goes on.
pub struct DeleteJob {
    pub paths: Vec<Path>,
    pub next: usize,
    pub stage: DeleteStage,
    pub progress: ProgressInfo,
    pub failures: Vec<Path>,
    pub reports: Ghost<Seq<ProgressInfo>>,
}

impl DeleteJob {
    pub open spec fn total(&self) -> int {
        self.paths@.len() as int
    }

    pub open spec fn current(&self) -> PathView {
        self.paths@[self.next as int]@
    }

    pub open spec fn wf(&self) -> bool {
        &&& self.next <= self.paths@.len()
        &&& self.progress.bytes_finished == self.next
        &&& self.progress.total_bytes == self.paths@.len()
        &&& self.reports@.len() == self.next
        &&& forall|i: int| 0 <= i < self.next ==> #[trigger] self.reports@[i] == item_report(i, self.total())
        &&& self.failures@.len() <= self.next
        &&& self.stage != DeleteStage::Idle ==> self.next < self.paths@.len()
    }

    /// A removal of `paths` that has not started.
    pub fn new(paths: Vec<Path>) -> (r: DeleteJob)
        ensures
            r.wf(),
            paths_view(r.paths@) == paths_view(paths@),
            r.next == 0,
            r.stage == DeleteStage::Idle,
            r.failures@.len() == 0,
    {
        let total = paths.len() as u64;
        DeleteJob {
            paths,
            next: 0,
            stage: DeleteStage::Idle,
            progress: ProgressInfo { bytes_finished: 0, total_bytes: total },
            failures: Vec::new(),
            reports: Ghost(Seq::empty()),
        }
    }

    /// Whether every item is finished.
    pub fn is_done(&self) -> (r: bool)
        ensures
            r == (self.next == self.paths@.len()),
    {
        self.next == self.paths.len()
    }

    /// Whether `ev` answers the action that was asked for last.
    pub fn accepts(&self, ev: DeleteEvent) -> (r: bool)
        ensures
            r == delete_event_fits(self.stage, ev),
    {
        match ev {
            DeleteEvent::Stat(_) => self.stage == DeleteStage::AwaitStat,
            DeleteEvent::Removed(_) => self.stage == DeleteStage::AwaitRemove,
        }
    }

    fn complete_item(&mut self, failed: bool) -> (r: DeleteAction)
        requires
            old(self).wf(),
            old(self).next < old(self).paths@.len(),
        ensures
            final(self).wf(),
            final(self).paths == old(self).paths,
            final(self).next == old(self).next + 1,
            final(self).stage == DeleteStage::Idle,
            failed ==> paths_view(final(self).failures@) == paths_view(old(self).failures@).push(old(self).current()),
            !failed ==> final(self).failures == old(self).failures,
            r == DeleteAction::Report(item_report(old(self).next as int, old(self).total())),
            final(self).reports@ == old(self).reports@.push(item_report(old(self).next as int, old(self).total())),
    {
        if failed {
            let p = self.paths[self.next].duplicate();
            self.failures.push(p);
            assert(paths_view(self.failures@) =~= paths_view(old(self).failures@).push(old(self).current()));
        }
        let total = self.paths.len();
        assert(self.next < total);
        self.next = self.next + 1;
        self.progress.bytes_finished = self.next as u64;
        self.stage = DeleteStage::Idle;
        let report = self.progress;
        self.reports = Ghost(self.reports@.push(report));
        DeleteAction::Report(report)
    }

    /// Starts the next item with a look at what it is; `Done` once every
    /// item is finished.
    pub fn next_action(&mut self) -> (r: DeleteAction)
        requires
            old(self).wf(),
            old(self).stage == DeleteStage::Idle,
        ensures
            final(self).wf(),
            final(self).paths == old(self).paths,
            final(self).next == old(self).next,
            final(self).failures == old(self).failures,
            final(self).reports == old(self).reports,
            old(self).next == old(self).paths@.len() ==> r == DeleteAction::Done && final(self).stage == DeleteStage::Idle,
            old(self).next < old(self).paths@.len() ==> r.is_stat(old(self).current())
                && final(self).stage == DeleteStage::AwaitStat,
    {
        if self.next == self.paths.len() {
            return DeleteAction::Done;
        }
        self.stage = DeleteStage::AwaitStat;
        DeleteAction::Stat { path: self.paths[self.next].duplicate() }
    }

    /// Takes what the runner found: a directory is removed with its contents,
    /// a file directly, a path that is gone already counts as finished; a
    /// removal that failed is recorded and the batch goes on.
    pub fn on_event(&mut self, ev: DeleteEvent) -> (r: DeleteAction)
        requires
            old(self).wf(),
            delete_event_fits(old(self).stage, ev),
        ensures
            final(self).wf(),
            final(self).paths == old(self).paths,
            r is Report ==> {
                &&& final(self).stage == DeleteStage::Idle
                &&& final(self).next == old(self).next + 1
                &&& r == DeleteAction::Report(item_report(old(self).next as int, old(self).total()))
                &&& final(self).reports@ == old(self).reports@.push(item_report(old(self).next as int, old(self).total()))
            },
            !(r is Report) ==> final(self).next == old(self).next && final(self).reports == old(self).reports,
            ev == DeleteEvent::Stat(Some(true)) ==> r.is_remove_dir(old(self).current())
                && final(self).stage == DeleteStage::AwaitRemove && final(self).failures == old(self).failures,
            ev == DeleteEvent::Stat(Some(false)) ==> r.is_remove_file(old(self).current())
                && final(self).stage == DeleteStage::AwaitRemove && final(self).failures == old(self).failures,
            ev == DeleteEvent::Stat(None) ==> r is Report && final(self).failures == old(self).failures,
            ev == DeleteEvent::Removed(true) ==> r is Report && final(self).failures == old(self).failures,
            ev == DeleteEvent::Removed(false) ==> r is Report
                && paths_view(final(self).failures@) == paths_view(old(self).failures@).push(old(self).current()),
    {
        match ev {
            DeleteEvent::Stat(Some(true)) => {
                self.stage = DeleteStage::AwaitRemove;
                DeleteAction::RemoveDir { path: self.paths[self.next].duplicate() }
            },
            DeleteEvent::Stat(Some(false)) => {
                self.stage = DeleteStage::AwaitRemove;
                DeleteAction::RemoveFile { path: self.paths[self.next].duplicate() }
            },
            DeleteEvent::Stat(None) => self.complete_item(false),
            DeleteEvent::Removed(ok) => self.complete_item(!ok),
        }
    }

    /// Once a removal is done it has reported once per item, with finished
    /// counts that never go down and end at the number of items.
    pub proof fn lemma_progress_monotone(&self)
        requires
            self.wf(),
            self.next == self.paths@.len(),
        ensures
            self.reports@.len() == self.total(),
            forall|i: int, j: int| 0 <= i <= j < self.total()
                ==> #[trigger] self.reports@[i].bytes_finished <= #[trigger] self.reports@[j].bytes_finished,
            self.total() > 0 ==> self.reports@.last().bytes_finished == self.total(),
    {
        lemma_item_reports_monotone(self.reports@, self.total());
    }
}

/// The command that removes the current selection after a yes from the user.
#[derive(Clone, Copy, Debug)]
pub struct DeleteFiles;

impl DeleteFiles {
    pub fn new() -> (r: DeleteFiles) {
        DeleteFiles
    }

    pub fn command() -> (r: &'static str)
        ensures
            r@ == "delete_files"@,
    {
        "delete_files"
    }

    /// Whether the key pressed at the prompt confirms: `y` or enter.
    pub fn confirms(ch: i32) -> (r: bool)
        ensures
            r == (ch == 'y' as i32 || ch == ENTER),
    {
        ch == 'y' as i32 || ch == ENTER
    }

    /// A removal of `paths`, to be run by a worker.
    pub fn remove_files(paths: Vec<Path>) -> (r: DeleteJob)
        ensures
            r.wf(),
            paths_view(r.paths@) == paths_view(paths@),
            r.next == 0,
            r.stage == DeleteStage::Idle,
            r.failures@.len() == 0,
    {
        DeleteJob::new(paths)
    }

    /// After the prompt was answered with `ch`: a removal of what the current
    /// listing yields, when the answer confirms and there is something to
    /// remove.
    pub fn execute(&self, ch: i32, curr_list: Option<&DirList>) -> (r: Option<DeleteJob>)
        requires
            curr_list matches Some(l) ==> l.wf(),
        ensures
            r is Some <==> ((ch == 'y' as i32 || ch == ENTER) && curr_list is Some && path_set_of(*curr_list->0) is Some),
            r matches Some(j) ==> j.wf() && j.next == 0 && j.stage == DeleteStage::Idle
                && j.failures@.len() == 0
                && Some(paths_view(j.paths@)) == path_set_of(*curr_list->0),
    {
        if !Self::confirms(ch) {
            return None;
        }
        match curr_list {
            Some(l) => match collect_selected_paths(l) {
                Some(paths) => Some(Self::remove_files(paths)),
                None => None,
            },
            None => None,
        }
    }
}

} // verus!
