use joshuto::path::Path;
use joshuto::snapshot::{DirEntry, DirList, SortKey, SortRule};

fn e(name: &str, is_dir: bool, size: u64, modified: u64) -> DirEntry {
    let path = Path::from_components(vec!["d".to_string(), name.to_string()]);
    DirEntry { path, file_name: name.to_string(), is_dir, size, modified, selected: false }
}

fn sample() -> Vec<DirEntry> {
    vec![e("b.txt", false, 30, 2), e("zeta", true, 4096, 1), e("a.txt", false, 10, 3), e("alpha", true, 4096, 5)]
}

fn names(l: &DirList) -> Vec<&str> {
    l.contents.iter().map(|x| x.file_name.as_str()).collect()
}

fn dir() -> Path {
    Path::from_components(vec!["d".to_string()])
}

#[test]
fn natural_folders_first() {
    let l = DirList::new(dir(), sample(), SortRule { key: SortKey::Natural, folders_first: true, reverse: false });
    assert_eq!(names(&l), vec!["alpha", "zeta", "a.txt", "b.txt"]);
    assert_eq!(l.index, Some(0));
}

#[test]
fn natural_mixed() {
    let l = DirList::new(dir(), sample(), SortRule { key: SortKey::Natural, folders_first: false, reverse: false });
    assert_eq!(names(&l), vec!["a.txt", "alpha", "b.txt", "zeta"]);
}

#[test]
fn by_size_reversed() {
    let l = DirList::new(dir(), sample(), SortRule { key: SortKey::Size, folders_first: false, reverse: true });
    assert_eq!(names(&l), vec!["zeta", "alpha", "b.txt", "a.txt"]);
}

#[test]
fn by_modified() {
    let l = DirList::new(dir(), sample(), SortRule { key: SortKey::Modified, folders_first: false, reverse: false });
    assert_eq!(names(&l), vec!["zeta", "b.txt", "a.txt", "alpha"]);
    let cur = l.get_curr_entry().unwrap();
    assert_eq!(cur.file_name, "zeta");
}

#[test]
fn prefix_sorts_first() {
    let v = vec![e("abc", false, 0, 0), e("ab", false, 0, 0), e("B", false, 0, 0)];
    let l = DirList::new(dir(), v, SortRule { key: SortKey::Natural, folders_first: false, reverse: false });
    assert_eq!(names(&l), vec!["B", "ab", "abc"]);
}
