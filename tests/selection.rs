use joshuto::path::Path;
use joshuto::selection::{CopyFiles, CutFiles, FileOp, PendingOperation};
use joshuto::snapshot::{collect_selected_paths, DirEntry, DirList, SortKey, SortRule};

fn p(parts: &[&str]) -> Path {
    Path::from_components(parts.iter().map(|s| s.to_string()).collect())
}

fn rule() -> SortRule {
    SortRule { key: SortKey::Natural, folders_first: true, reverse: false }
}

fn entry(dir: &[&str], name: &str, selected: bool) -> DirEntry {
    let mut path = p(dir);
    path.push(name.to_string());
    DirEntry { path, file_name: name.to_string(), is_dir: false, size: 1, modified: 0, selected }
}

fn names(paths: &[Path]) -> Vec<Vec<String>> {
    paths.iter().map(|q| q.comps.clone()).collect()
}

#[test]
fn selected_entries_win_over_cursor() {
    let list = DirList::new(p(&["a"]), vec![entry(&["a"], "x", false), entry(&["a"], "y", true), entry(&["a"], "z", true)], rule());
    let got = collect_selected_paths(&list).unwrap();
    assert_eq!(names(&got), vec![vec!["a".to_string(), "y".to_string()], vec!["a".to_string(), "z".to_string()]]);
}

#[test]
fn cursor_entry_when_nothing_selected() {
    let mut list = DirList::new(p(&["a"]), vec![entry(&["a"], "x", false), entry(&["a"], "y", false)], rule());
    list.index = Some(1);
    let got = collect_selected_paths(&list).unwrap();
    assert_eq!(names(&got), vec![vec!["a".to_string(), "y".to_string()]]);
}

#[test]
fn empty_listing_yields_nothing() {
    let list = DirList::new(p(&["a"]), vec![], rule());
    assert!(list.index.is_none());
    assert!(collect_selected_paths(&list).is_none());
}

#[test]
fn empty_listing_leaves_pending_untouched() {
    let mut pending = PendingOperation::new();
    let full = DirList::new(p(&["a"]), vec![entry(&["a"], "x", true)], rule());
    assert!(CutFiles::new().execute(&mut pending, Some(&full)));
    let empty = DirList::new(p(&["b"]), vec![], rule());
    assert!(!CopyFiles::new().execute(&mut pending, Some(&empty)));
    assert_eq!(pending.kind, FileOp::Cut);
    assert_eq!(names(&pending.paths), vec![vec!["a".to_string(), "x".to_string()]]);
    assert!(!CopyFiles::new().execute(&mut pending, None));
    assert_eq!(pending.len(), 1);
}

#[test]
fn marking_twice_equals_marking_once() {
    let list = DirList::new(p(&["a"]), vec![entry(&["a"], "x", true), entry(&["a"], "y", false), entry(&["a"], "z", true)], rule());
    let mut once = PendingOperation::new();
    once.mark(&list, FileOp::Copy);
    let mut twice = PendingOperation::new();
    twice.mark(&list, FileOp::Copy);
    twice.mark(&list, FileOp::Copy);
    assert_eq!(names(&once.paths), names(&twice.paths));
    assert_eq!(once.kind, twice.kind);
    assert_eq!(once.len(), 2);
}

#[test]
fn marking_replaces_the_previous_set() {
    let mut pending = PendingOperation::new();
    let a = DirList::new(p(&["a"]), vec![entry(&["a"], "x", true)], rule());
    let b = DirList::new(p(&["b"]), vec![entry(&["b"], "u", false), entry(&["b"], "v", true)], rule());
    assert!(CopyFiles::new().execute(&mut pending, Some(&a)));
    assert_eq!(pending.kind, FileOp::Copy);
    assert!(CutFiles::new().execute(&mut pending, Some(&b)));
    assert_eq!(pending.kind, FileOp::Cut);
    assert_eq!(names(&pending.paths), vec![vec!["b".to_string(), "v".to_string()]]);
}

#[test]
fn take_paths_empties_the_set() {
    let mut pending = PendingOperation::new();
    let a = DirList::new(p(&["a"]), vec![entry(&["a"], "x", true), entry(&["a"], "y", true)], rule());
    pending.mark(&a, FileOp::Cut);
    let taken = pending.take_paths();
    assert_eq!(taken.len(), 2);
    assert!(pending.is_empty());
    assert_eq!(pending.kind, FileOp::Cut);
}

#[test]
fn command_names() {
    assert_eq!(CutFiles::command(), "cut_files");
    assert_eq!(CopyFiles::command(), "copy_files");
}
