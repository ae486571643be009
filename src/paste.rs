use vstd::prelude::*;
use crate::path::{Path, PathView};
use crate::progress::{item_report, lemma_item_reports_monotone, ProgressInfo};
use crate::selection::{FileOp, PendingOperation};
use crate::snapshot::paths_view;

verus! {

/// How a paste treats names that already exist, and the copy chunk size.
#[derive(Clone, Copy, Debug, PartialEq, Eq, Structural)]
pub struct PasteOptions {
    pub overwrite: bool,
    pub skip_exist: bool,
    pub buffer_size: usize,
}

/// Where a moved or copied path lands inside `dest`.
pub open spec fn target_of(dest: PathView, src: PathView) -> PathView {
    dest.push(src.last())
}

/// A copy of every path in `sources` into `destination`, run by a worker
/// that reports copied bytes.
#[derive(Debug)]
pub struct CopyJob {
    pub sources: Vec<Path>,
    pub destination: Path,
    pub options: PasteOptions,
}

/// Where a move stands within the current item.
#[derive(Clone, Copy, Debug, PartialEq, Eq, Structural)]
pub enum CutStage {
    /// Between items: ask for the next action.
    Idle,
    AwaitExists,
    AwaitRename,
    AwaitStat,
    AwaitMove,
}

/// The filesystem work a move asks its runner to do next.
#[derive(Debug)]
pub enum CutAction {
    /// Report whether `target` exists.
    CheckExists { target: Path },
    /// Rename `from` to `to` in one step.
    Rename { from: Path, to: Path },
    /// Report whether `path` is a directory, or that it cannot be read.
    Stat { path: Path },
    /// Move the directory `from` into the directory `into`, by copy and delete.
    MoveDir { from: Path, into: Path },
    /// Move the file `from` to `to`, by copy and delete.
    MoveFile { from: Path, to: Path },
    /// One more item is finished.
    Report(ProgressInfo),
    /// Every item is finished.
    Done,
}

impl CutAction {
    pub open spec fn is_check_exists(&self, target: PathView) -> bool {
        self matches CutAction::CheckExists { target: t } && t@ == target
    }

    pub open spec fn is_rename(&self, from: PathView, to: PathView) -> bool {
        self matches CutAction::Rename { from: f, to: t } && f@ == from && t@ == to
    }

    pub open spec fn is_stat(&self, path: PathView) -> bool {
        self matches CutAction::Stat { path: p } && p@ == path
    }

    pub open spec fn is_move_dir(&self, from: PathView, into: PathView) -> bool {
        self matches CutAction::MoveDir { from: f, into: i } && f@ == from && i@ == into
    }

    pub open spec fn is_move_file(&self, from: PathView, to: PathView) -> bool {
        self matches CutAction::MoveFile { from: f, to: t } && f@ == from && t@ == to
    }
}

/// What the runner found when it did the last action.
#[derive(Clone, Copy, Debug, PartialEq, Eq, Structural)]
pub enum CutEvent {
    Exists(bool),
    Renamed(bool),
    Stat(Option<bool>),
    Moved(bool),
}

pub open spec fn cut_event_fits(stage: CutStage, ev: CutEvent) -> bool {
    match ev {
        CutEvent::Exists(_) => stage == CutStage::AwaitExists,
        CutEvent::Renamed(_) => stage == CutStage::AwaitRename,
        CutEvent::Stat(_) => stage == CutStage::AwaitStat,
        CutEvent::Moved(_) => stage == CutStage::AwaitMove,
    }
}

/// A move of every path in `sources` into `destination`, one item at a time:
/// a rename first, and a copy-then-delete where the rename fails.
pub struct CutJob {
    pub sources: Vec<Path>,
    pub destination: Path,
    pub options: PasteOptions,
    pub next: usize,
    pub stage: CutStage,
    pub progress: ProgressInfo,
    pub failed: u64,
    pub reports: Ghost<Seq<ProgressInfo>>,
}

/// The work a paste hands to a worker.
pub enum PasteJob {
    Copy(CopyJob),
    Cut(CutJob),
}

impl CutJob {
    pub open spec fn total(&self) -> int {
        self.sources@.len() as int
    }

    pub open spec fn source(&self) -> PathView {
        self.sources@[self.next as int]@
    }

    pub open spec fn wf(&self) -> bool {
        &&& self.next <= self.sources@.len()
        &&& self.progress.bytes_finished == self.next
        &&& self.progress.total_bytes == self.sources@.len()
        &&& self.reports@.len() == self.next
        &&& forall|i: int| 0 <= i < self.next ==> #[trigger] self.reports@[i] == item_report(i, self.total())
        &&& self.failed <= self.next
        &&& self.stage != CutStage::Idle ==> self.next < self.sources@.len() && self.source().len() > 0
    }

    /// A move of `sources` into `destination` that has not started.
    pub fn new(sources: Vec<Path>, destination: Path, options: PasteOptions) -> (r: CutJob)
        ensures
            r.wf(),
            paths_view(r.sources@) == paths_view(sources@),
            r.destination@ == destination@,
            r.options == options,
            r.next == 0,
            r.stage == CutStage::Idle,
            r.failed == 0,
    {
        let total = sources.len() as u64;
        CutJob {
            sources,
            destination,
            options,
            next: 0,
            stage: CutStage::Idle,
            progress: ProgressInfo { bytes_finished: 0, total_bytes: total },
            failed: 0,
            reports: Ghost(Seq::empty()),
        }
    }

    /// Whether every item is finished.
    pub fn is_done(&self) -> (r: bool)
        ensures
            r == (self.next == self.sources@.len()),
    {
        self.next == self.sources.len()
    }

    /// Whether `ev` answers the action that was asked for last.
    pub fn accepts(&self, ev: CutEvent) -> (r: bool)
        ensures
            r == cut_event_fits(self.stage, ev),
    {
        match ev {
            CutEvent::Exists(_) => self.stage == CutStage::AwaitExists,
            CutEvent::Renamed(_) => self.stage == CutStage::AwaitRename,
            CutEvent::Stat(_) => self.stage == CutStage::AwaitStat,
            CutEvent::Moved(_) => self.stage == CutStage::AwaitMove,
        }
    }

    fn complete_item(&mut self, failed: bool) -> (r: CutAction)
        requires
            old(self).wf(),
            old(self).next < old(self).sources@.len(),
        ensures
            final(self).wf(),
            final(self).next == old(self).next + 1,
            final(self).stage == CutStage::Idle,
            final(self).failed == old(self).failed + (if failed { 1u64 } else { 0u64 }),
            r == CutAction::Report(item_report(old(self).next as int, old(self).total())),
            final(self).reports@ == old(self).reports@.push(item_report(old(self).next as int, old(self).total())),
            final(self).sources == old(self).sources,
            final(self).destination == old(self).destination,
            final(self).options == old(self).options,
    {
        let total = self.sources.len();
        assert(self.next < total);
        self.next = self.next + 1;
        self.progress.bytes_finished = self.next as u64;
        if failed {
            self.failed = self.failed + 1;
        }
        self.stage = CutStage::Idle;
        let report = self.progress;
        self.reports = Ghost(self.reports@.push(report));
        CutAction::Report(report)
    }

    fn current_target(&self) -> (r: Path)
        requires
            self.next < self.sources@.len(),
            self.source().len() > 0,
        ensures
            r@ == target_of(self.destination@, self.source()),
    {
        let name = self.sources[self.next].file_name();
        match name {
            Some(n) => self.destination.join(n),
            None => self.destination.duplicate(),
        }
    }

    /// Starts the next item: a check that its target is free where existing
    /// names are skipped, else a rename. `Done` once every item is finished.
    /// A path without a name (the root) cannot be moved and counts as failed.
    pub fn next_action(&mut self) -> (r: CutAction)
        requires
            old(self).wf(),
            old(self).stage == CutStage::Idle,
        ensures
            final(self).wf(),
            final(self).sources == old(self).sources,
            final(self).destination == old(self).destination,
            final(self).options == old(self).options,
            old(self).next == old(self).sources@.len() ==> r == CutAction::Done && *final(self) == *old(self),
            old(self).next < old(self).sources@.len() && old(self).source().len() == 0 ==> {
                &&& r == CutAction::Report(item_report(old(self).next as int, old(self).total()))
                &&& final(self).next == old(self).next + 1
                &&& final(self).failed == old(self).failed + 1
                &&& final(self).reports@ == old(self).reports@.push(item_report(old(self).next as int, old(self).total()))
            },
            old(self).next < old(self).sources@.len() && old(self).source().len() > 0 ==> {
                &&& final(self).next == old(self).next
                &&& final(self).failed == old(self).failed
                &&& final(self).reports == old(self).reports
                &&& old(self).options.skip_exist ==> final(self).stage == CutStage::AwaitExists
                    && r.is_check_exists(target_of(old(self).destination@, old(self).source()))
                &&& !old(self).options.skip_exist ==> final(self).stage == CutStage::AwaitRename
                    && r.is_rename(old(self).source(), target_of(old(self).destination@, old(self).source()))
            },
    {
        if self.next == self.sources.len() {
            return CutAction::Done;
        }
        if self.sources[self.next].len() == 0 {
            return self.complete_item(true);
        }
        let target = self.current_target();
        if self.options.skip_exist {
            self.stage = CutStage::AwaitExists;
            CutAction::CheckExists { target }
        } else {
            self.stage = CutStage::AwaitRename;
            CutAction::Rename { from: self.sources[self.next].duplicate(), to: target }
        }
    }

    /// Takes what the runner found and decides the next action for the
    /// current item. A target that exists under `skip_exist` finishes the
    /// item with nothing touched; a failed rename falls back to a
    /// copy-then-delete move, of a directory into the destination, of a file
    /// onto its target; a source that cannot be read finishes as failed.
    pub fn on_event(&mut self, ev: CutEvent) -> (r: CutAction)
        requires
            old(self).wf(),
            cut_event_fits(old(self).stage, ev),
        ensures
            final(self).wf(),
            final(self).sources == old(self).sources,
            final(self).destination == old(self).destination,
            final(self).options == old(self).options,
            r is Report ==> {
                &&& final(self).stage == CutStage::Idle
                &&& final(self).next == old(self).next + 1
                &&& r == CutAction::Report(item_report(old(self).next as int, old(self).total()))
                &&& final(self).reports@ == old(self).reports@.push(item_report(old(self).next as int, old(self).total()))
            },
            !(r is Report) ==> final(self).next == old(self).next && final(self).reports == old(self).reports
                && final(self).failed == old(self).failed,
            ev == CutEvent::Exists(true) ==> r is Report && final(self).failed == old(self).failed,
            ev == CutEvent::Exists(false) ==> final(self).stage == CutStage::AwaitRename
                && r.is_rename(old(self).source(), target_of(old(self).destination@, old(self).source())),
            ev == CutEvent::Renamed(true) ==> r is Report && final(self).failed == old(self).failed,
            ev == CutEvent::Renamed(false) ==> final(self).stage == CutStage::AwaitStat
                && r.is_stat(old(self).source()),
            ev == CutEvent::Stat(Some(true)) ==> final(self).stage == CutStage::AwaitMove
                && r.is_move_dir(old(self).source(), old(self).destination@),
            ev == CutEvent::Stat(Some(false)) ==> final(self).stage == CutStage::AwaitMove
                && r.is_move_file(old(self).source(), target_of(old(self).destination@, old(self).source())),
            ev == CutEvent::Stat(None) ==> r is Report && final(self).failed == old(self).failed + 1,
            ev == CutEvent::Moved(true) ==> r is Report && final(self).failed == old(self).failed,
            ev == CutEvent::Moved(false) ==> r is Report && final(self).failed == old(self).failed + 1,
    {
        match ev {
            CutEvent::Exists(true) => self.complete_item(false),
            CutEvent::Exists(false) => {
                let to = self.current_target();
                self.stage = CutStage::AwaitRename;
                CutAction::Rename { from: self.sources[self.next].duplicate(), to }
            },
            CutEvent::Renamed(true) => self.complete_item(false),
            CutEvent::Renamed(false) => {
                self.stage = CutStage::AwaitStat;
                CutAction::Stat { path: self.sources[self.next].duplicate() }
            },
            CutEvent::Stat(Some(true)) => {
                self.stage = CutStage::AwaitMove;
                CutAction::MoveDir { from: self.sources[self.next].duplicate(), into: self.destination.duplicate() }
            },
            CutEvent::Stat(Some(false)) => {
                let to = self.current_target();
                self.stage = CutStage::AwaitMove;
                CutAction::MoveFile { from: self.sources[self.next].duplicate(), to }
            },
            CutEvent::Stat(None) => self.complete_item(true),
            CutEvent::Moved(ok) => self.complete_item(!ok),
        }
    }

    /// Once a move is done it has reported once per item, with finished
    /// counts that never go down and end at the number of items.
    pub proof fn lemma_progress_monotone(&self)
        requires
            self.wf(),
            self.next == self.sources@.len(),
        ensures
            self.reports@.len() == self.total(),
            forall|i: int, j: int| 0 <= i <= j < self.total()
                ==> #[trigger] self.reports@[i].bytes_finished <= #[trigger] self.reports@[j].bytes_finished,
            forall|i: int| 0 <= i < self.total() ==> #[trigger] self.reports@[i].total_bytes == self.total(),
            self.total() > 0 ==> self.reports@.last().bytes_finished == self.total(),
    {
        lemma_item_reports_monotone(self.reports@, self.total());
    }
}

/// The command that pastes the pending paths into a directory.
#[derive(Clone, Copy, Debug)]
pub struct PasteFiles {
    pub options: PasteOptions,
}

impl PasteFiles {
    pub fn new(options: PasteOptions) -> (r: PasteFiles)
        ensures
            r.options == options,
    {
        PasteFiles { options }
    }

    pub fn command() -> (r: &'static str)
        ensures
            r@ == "paste_files"@,
    {
        "paste_files"
    }

    /// The command as shown to the user, with its overwrite setting.
    pub fn to_string(&self) -> (r: String)
        ensures
            r@ == "paste_files overwrite="@ + (if self.options.overwrite { "true"@ } else { "false"@ }),
    {
        let mut s = String::from_str("paste_files overwrite=");
        s.append(if self.options.overwrite { "true" } else { "false" });
        s
    }

    /// A move of the pending paths into `destination`; the path set is left
    /// empty.
    pub fn cut(&self, pending: &mut PendingOperation, destination: &Path) -> (r: CutJob)
        ensures
            r.wf(),
            paths_view(r.sources@) == old(pending)@.paths,
            r.destination@ == destination@,
            r.options == self.options,
            r.next == 0,
            r.stage == CutStage::Idle,
            r.failed == 0,
            final(pending)@.paths.len() == 0,
            final(pending).kind == old(pending).kind,
    {
        let sources = pending.take_paths();
        CutJob::new(sources, destination.duplicate(), self.options)
    }

    /// A copy of the pending paths into `destination`; the path set is left
    /// empty.
    pub fn copy(&self, pending: &mut PendingOperation, destination: &Path) -> (r: CopyJob)
        ensures
            paths_view(r.sources@) == old(pending)@.paths,
            r.destination@ == destination@,
            r.options == self.options,
            final(pending)@.paths.len() == 0,
            final(pending).kind == old(pending).kind,
    {
        let sources = pending.take_paths();
        CopyJob { sources, destination: destination.duplicate(), options: self.options }
    }

    /// Hands the pending paths to a move or a copy into `destination`, as
    /// the pending kind says.
    pub fn execute(&self, pending: &mut PendingOperation, destination: &Path) -> (r: PasteJob)
        ensures
            final(pending)@.paths.len() == 0,
            final(pending).kind == old(pending).kind,
            old(pending).kind == FileOp::Copy ==> (r matches PasteJob::Copy(j)
                && paths_view(j.sources@) == old(pending)@.paths
                && j.destination@ == destination@ && j.options == self.options),
            old(pending).kind == FileOp::Cut ==> (r matches PasteJob::Cut(j)
                && j.wf() && j.next == 0 && j.stage == CutStage::Idle && j.failed == 0
                && paths_view(j.sources@) == old(pending)@.paths
                && j.destination@ == destination@ && j.options == self.options),
    {
        match pending.kind {
            FileOp::Copy => PasteJob::Copy(self.copy(pending, destination)),
            FileOp::Cut => PasteJob::Cut(self.cut(pending, destination)),
        }
    }
}

} // verus!
