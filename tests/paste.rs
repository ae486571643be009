use joshuto::paste::{CutAction, CutEvent, CutStage, PasteFiles, PasteJob, PasteOptions};
use joshuto::path::Path;
use joshuto::progress::ProgressInfo;
use joshuto::selection::{FileOp, PendingOperation};
use joshuto::snapshot::{DirEntry, DirList, SortKey, SortRule};

fn p(parts: &[&str]) -> Path {
    Path::from_components(parts.iter().map(|s| s.to_string()).collect())
}

fn comps(q: &Path) -> Vec<&str> {
    q.comps.iter().map(|s| s.as_str()).collect()
}

fn opts(skip_exist: bool) -> PasteOptions {
    PasteOptions { overwrite: false, skip_exist, buffer_size: 64000 }
}

fn pending_with(paths: &[&[&str]], kind: FileOp) -> PendingOperation {
    let rule = SortRule { key: SortKey::Natural, folders_first: false, reverse: false };
    let contents = paths
        .iter()
        .map(|parts| {
            let path = p(parts);
            let name = parts.last().unwrap().to_string();
            DirEntry { path, file_name: name, is_dir: false, size: 0, modified: 0, selected: true }
        })
        .collect();
    let list = DirList::new(p(&["a"]), contents, rule);
    let mut pending = PendingOperation::new();
    assert!(pending.mark(&list, kind));
    pending
}

#[test]
fn cut_on_one_filesystem_renames_each_item() {
    let mut pending = pending_with(&[&["a", "x.txt"], &["a", "y"]], FileOp::Cut);
    let paste = PasteFiles::new(opts(false));
    let mut job = match paste.execute(&mut pending, &p(&["b"])) {
        PasteJob::Cut(j) => j,
        PasteJob::Copy(_) => panic!("expected a move"),
    };
    assert!(pending.is_empty());

    match job.next_action() {
        CutAction::Rename { from, to } => {
            assert_eq!(comps(&from), vec!["a", "x.txt"]);
            assert_eq!(comps(&to), vec!["b", "x.txt"]);
        },
        other => panic!("unexpected {:?}", other),
    }
    match job.on_event(CutEvent::Renamed(true)) {
        CutAction::Report(info) => assert_eq!(info, ProgressInfo::new(1, 2)),
        other => panic!("unexpected {:?}", other),
    }
    match job.next_action() {
        CutAction::Rename { from, to } => {
            assert_eq!(comps(&from), vec!["a", "y"]);
            assert_eq!(comps(&to), vec!["b", "y"]);
        },
        other => panic!("unexpected {:?}", other),
    }
    match job.on_event(CutEvent::Renamed(true)) {
        CutAction::Report(info) => assert_eq!(info, ProgressInfo::new(2, 2)),
        other => panic!("unexpected {:?}", other),
    }
    assert!(matches!(job.next_action(), CutAction::Done));
    assert!(job.is_done());
    assert_eq!(job.failed, 0);
}

#[test]
fn skip_existing_leaves_item_untouched() {
    let mut pending = pending_with(&[&["a", "x.txt"]], FileOp::Cut);
    let mut job = PasteFiles::new(opts(true)).cut(&mut pending, &p(&["b"]));
    match job.next_action() {
        CutAction::CheckExists { target } => assert_eq!(comps(&target), vec!["b", "x.txt"]),
        other => panic!("unexpected {:?}", other),
    }
    match job.on_event(CutEvent::Exists(true)) {
        CutAction::Report(info) => assert_eq!(info, ProgressInfo::new(1, 1)),
        other => panic!("unexpected {:?}", other),
    }
    assert!(matches!(job.next_action(), CutAction::Done));
    assert_eq!(job.failed, 0);
}

#[test]
fn skip_existing_with_free_target_renames() {
    let mut pending = pending_with(&[&["a", "x.txt"]], FileOp::Cut);
    let mut job = PasteFiles::new(opts(true)).cut(&mut pending, &p(&["b"]));
    assert!(matches!(job.next_action(), CutAction::CheckExists { .. }));
    assert!(!job.accepts(CutEvent::Renamed(true)));
    assert!(job.accepts(CutEvent::Exists(false)));
    match job.on_event(CutEvent::Exists(false)) {
        CutAction::Rename { from, to } => {
            assert_eq!(comps(&from), vec!["a", "x.txt"]);
            assert_eq!(comps(&to), vec!["b", "x.txt"]);
        },
        other => panic!("unexpected {:?}", other),
    }
}

#[test]
fn failed_rename_of_directory_falls_back_to_move_dir() {
    let mut pending = pending_with(&[&["a", "y"]], FileOp::Cut);
    let mut job = PasteFiles::new(opts(false)).cut(&mut pending, &p(&["mnt", "b"]));
    job.next_action();
    match job.on_event(CutEvent::Renamed(false)) {
        CutAction::Stat { path } => assert_eq!(comps(&path), vec!["a", "y"]),
        other => panic!("unexpected {:?}", other),
    }
    assert_eq!(job.stage, CutStage::AwaitStat);
    match job.on_event(CutEvent::Stat(Some(true))) {
        CutAction::MoveDir { from, into } => {
            assert_eq!(comps(&from), vec!["a", "y"]);
            assert_eq!(comps(&into), vec!["mnt", "b"]);
        },
        other => panic!("unexpected {:?}", other),
    }
    match job.on_event(CutEvent::Moved(true)) {
        CutAction::Report(info) => assert_eq!(info, ProgressInfo::new(1, 1)),
        other => panic!("unexpected {:?}", other),
    }
    assert_eq!(job.failed, 0);
}

#[test]
fn failed_rename_of_file_falls_back_to_move_file() {
    let mut pending = pending_with(&[&["a", "x.txt"]], FileOp::Cut);
    let mut job = PasteFiles::new(opts(false)).cut(&mut pending, &p(&["mnt"]));
    job.next_action();
    job.on_event(CutEvent::Renamed(false));
    match job.on_event(CutEvent::Stat(Some(false))) {
        CutAction::MoveFile { from, to } => {
            assert_eq!(comps(&from), vec!["a", "x.txt"]);
            assert_eq!(comps(&to), vec!["mnt", "x.txt"]);
        },
        other => panic!("unexpected {:?}", other),
    }
    job.on_event(CutEvent::Moved(false));
    assert_eq!(job.failed, 1);
    assert!(job.is_done());
}

#[test]
fn unreadable_source_counts_as_failed() {
    let mut pending = pending_with(&[&["a", "gone"]], FileOp::Cut);
    let mut job = PasteFiles::new(opts(false)).cut(&mut pending, &p(&["b"]));
    job.next_action();
    job.on_event(CutEvent::Renamed(false));
    assert!(matches!(job.on_event(CutEvent::Stat(None)), CutAction::Report(_)));
    assert_eq!(job.failed, 1);
}

#[test]
fn progress_counts_up_to_item_total() {
    let mut pending = pending_with(&[&["a", "1"], &["a", "2"], &["a", "3"], &["a", "4"]], FileOp::Cut);
    let mut job = PasteFiles::new(opts(true)).cut(&mut pending, &p(&["b"]));
    let events = [CutEvent::Exists(true), CutEvent::Exists(false), CutEvent::Exists(false), CutEvent::Exists(false)];
    let mut seen: Vec<u64> = Vec::new();
    for (i, ev) in events.iter().enumerate() {
        job.next_action();
        let mut action = job.on_event(*ev);
        if i == 1 {
            action = job.on_event(CutEvent::Renamed(true));
        } else if i == 2 {
            job.on_event(CutEvent::Renamed(false));
            job.on_event(CutEvent::Stat(Some(false)));
            action = job.on_event(CutEvent::Moved(true));
        } else if i == 3 {
            job.on_event(CutEvent::Renamed(false));
            action = job.on_event(CutEvent::Stat(None));
        }
        match action {
            CutAction::Report(info) => {
                assert_eq!(info.total_bytes, 4);
                seen.push(info.bytes_finished);
            },
            other => panic!("unexpected {:?}", other),
        }
    }
    assert_eq!(seen, vec![1, 2, 3, 4]);
    assert!(job.progress.is_complete());
}

#[test]
fn empty_cut_is_done_at_once() {
    let mut pending = PendingOperation::new();
    pending.set_file_op(FileOp::Cut);
    let mut job = PasteFiles::new(opts(false)).cut(&mut pending, &p(&["b"]));
    assert!(matches!(job.next_action(), CutAction::Done));
    assert_eq!(job.progress, ProgressInfo::new(0, 0));
}

#[test]
fn root_source_cannot_be_moved() {
    let mut pending = PendingOperation::new();
    pending.paths.push(Path::root());
    let mut job = PasteFiles::new(opts(false)).cut(&mut pending, &p(&["b"]));
    assert!(matches!(job.next_action(), CutAction::Report(_)));
    assert_eq!(job.failed, 1);
}

#[test]
fn copy_paste_hands_over_all_paths() {
    let mut pending = pending_with(&[&["a", "x.txt"], &["a", "y"]], FileOp::Copy);
    let paste = PasteFiles::new(opts(false));
    match paste.execute(&mut pending, &p(&["b"])) {
        PasteJob::Copy(job) => {
            assert_eq!(job.sources.len(), 2);
            assert_eq!(comps(&job.destination), vec!["b"]);
            assert_eq!(job.options, opts(false));
        },
        PasteJob::Cut(_) => panic!("expected a copy"),
    }
    assert!(pending.is_empty());
    assert_eq!(PasteFiles::command(), "paste_files");
}

#[test]
fn paste_display_shows_overwrite() {
    assert_eq!(PasteFiles::new(opts(false)).to_string(), "paste_files overwrite=false");
    let o = PasteOptions { overwrite: true, skip_exist: false, buffer_size: 1 };
    assert_eq!(PasteFiles::new(o).to_string(), "paste_files overwrite=true");
}
