use vcs_modify_guard::path_order::path_less;
use vcs_modify_guard::repository::{
    paths_are_distinct, FileChange, FileStatus, RepositoryChanges, RepositoryStatus, StatusFlags,
};

fn modified_file(path: &str) -> FileChange {
    StatusFlags::versioned(true, false).build(path.as_bytes().to_vec()).unwrap()
}

fn staged_file(path: &str) -> FileChange {
    StatusFlags::versioned(false, true).build(path.as_bytes().to_vec()).unwrap()
}

fn modified_and_staged_file(path: &str) -> FileChange {
    StatusFlags::versioned(true, true).build(path.as_bytes().to_vec()).unwrap()
}

fn untracked_file(path: &str) -> FileChange {
    StatusFlags::untracked().build(path.as_bytes().to_vec()).unwrap()
}

fn mixed_changes() -> RepositoryChanges {
    let mut files = vec![];
    for i in 0..4 {
        files.push(modified_file(&format!("{i}.modified.txt")));
    }
    for i in 0..6 {
        files.push(staged_file(&format!("{i}.staged.txt")));
    }
    for i in 0..1 {
        files.push(modified_and_staged_file(&format!("{i}.modified_and_staged.txt")));
    }
    for i in 0..5 {
        files.push(untracked_file(&format!("{i}.untracked.txt")));
    }
    files.reverse();
    RepositoryChanges::new(files).unwrap()
}

fn collect_forward<'a>(mut next: impl FnMut() -> Option<&'a FileChange>) -> Vec<String> {
    let mut out = vec![];
    while let Some(f) = next() {
        out.push(String::from_utf8(f.path().to_vec()).unwrap());
    }
    out
}

#[test]
fn status_flags_build_is_none_for_clean_files() {
    assert!(StatusFlags::versioned(false, false).build(b"clean".to_vec()).is_none());
    let c = StatusFlags::untracked().build(b"u".to_vec()).unwrap();
    assert!(c.is_untracked() && !c.is_modified() && !c.is_staged());
}

#[test]
fn file_change_is_dirty_excludes_staged_only() {
    assert!(modified_file("a").is_dirty());
    assert!(untracked_file("a").is_dirty());
    assert!(modified_and_staged_file("a").is_dirty());
    assert!(!staged_file("a").is_dirty());
}

#[test]
fn repository_changes_new_is_none_for_no_files() {
    assert!(RepositoryChanges::new(vec![]).is_none());
}

#[test]
fn repository_changes_files_are_sorted_and_unique() {
    let changes = mixed_changes();
    let mut files = changes.files();
    assert_eq!(files.len(), 16);
    let paths = collect_forward(|| files.next());
    assert_eq!(paths.len(), 16);
    for w in paths.windows(2) {
        assert!(path_less(w[0].as_bytes(), w[1].as_bytes()));
    }
}

#[test]
fn repository_changes_counts_and_predicates() {
    let changes = mixed_changes();
    assert_eq!(changes.modified_files().len(), 5);
    assert_eq!(changes.staged_files().len(), 7);
    assert_eq!(changes.untracked_files().len(), 5);
    assert!(changes.has_modified_files());
    assert!(changes.has_staged_files());
    assert!(changes.has_untracked_files());
    assert!(changes.has_dirty_files());

    let staged_only = RepositoryChanges::new(vec![staged_file("s")]).unwrap();
    assert!(!staged_only.has_modified_files());
    assert!(staged_only.has_staged_files());
    assert!(!staged_only.has_untracked_files());
    assert!(!staged_only.has_dirty_files());
}

#[test]
fn filtered_iterators_select_their_files() {
    let changes = mixed_changes();
    let mut it = changes.modified_files();
    let modified = collect_forward(|| it.next());
    assert_eq!(
        modified,
        [
            "0.modified.txt",
            "0.modified_and_staged.txt",
            "1.modified.txt",
            "2.modified.txt",
            "3.modified.txt"
        ]
    );
    let mut it = changes.untracked_files();
    let untracked = collect_forward(|| it.next());
    assert_eq!(untracked.len(), 5);
    assert!(untracked.iter().all(|p| p.ends_with(".untracked.txt")));
}

#[test]
fn iterators_are_double_ended_and_exact_size() {
    let changes = mixed_changes();

    let mut forward = changes.staged_files();
    let fwd = collect_forward(|| forward.next());
    let mut backward = changes.staged_files();
    let mut bwd = collect_forward(|| backward.next_back());
    bwd.reverse();
    assert_eq!(fwd, bwd);

    let mut it = changes.staged_files();
    let mut remaining = it.len();
    while it.next().is_some() {
        assert_eq!(it.len(), remaining - 1);
        remaining -= 1;
    }
    assert_eq!(remaining, 0);
    assert!(it.next_back().is_none());

    let mut all = changes.files();
    let first = all.next().unwrap().path().to_vec();
    let last = all.next_back().unwrap().path().to_vec();
    assert_eq!(all.len(), 14);
    assert!(path_less(&first, &last));

    let mut it = changes.modified_files();
    let a = it.next().unwrap().path().to_vec();
    let b = it.next_back().unwrap().path().to_vec();
    assert_eq!(a, b"0.modified.txt");
    assert_eq!(b, b"3.modified.txt");
    assert_eq!(it.len(), 3);
}

#[test]
fn repository_changes_clone_keeps_files() {
    let changes = mixed_changes();
    let copy = changes.clone();
    let mut a = changes.files();
    let mut b = copy.files();
    assert_eq!(collect_forward(|| a.next()), collect_forward(|| b.next()));
}

#[test]
fn paths_are_distinct_detects_duplicates() {
    assert!(paths_are_distinct(&[modified_file("a"), staged_file("b")]));
    assert!(!paths_are_distinct(&[modified_file("a"), staged_file("b"), untracked_file("a")]));
    assert!(paths_are_distinct(&[]));
}

#[test]
fn repository_status_summarizes_changes() {
    let changes = RepositoryChanges::new(vec![
        untracked_file("u"),
        modified_and_staged_file("ms"),
        staged_file("s"),
        modified_file("m"),
    ])
    .unwrap();
    let status = RepositoryStatus::from_changes(Some(&changes));
    assert_eq!(status.modified_files(), [b"m".to_vec(), b"ms".to_vec()]);
    assert_eq!(status.staged_files(), [b"ms".to_vec(), b"s".to_vec()]);
    assert_eq!(status.untracked_files(), [b"u".to_vec()]);
    assert!(status.has_worktree_changes());
    assert!(status.has_staged_changes());
    assert!(status.has_untracked_files());
    assert!(status.is_dirty());

    let clean = RepositoryStatus::from_changes(None);
    assert!(!clean.is_dirty());
    assert!(!clean.has_worktree_changes());
    assert!(clean.modified_files().is_empty());
}

#[test]
fn file_status_of_clean_and_changed_files() {
    let clean = FileStatus::from_change(b"a.txt".to_vec(), None);
    assert_eq!(clean.path(), b"a.txt");
    assert!(!clean.is_dirty());
    let staged = FileStatus::from_change(b"b.txt".to_vec(), Some(staged_file("b.txt")));
    assert!(staged.is_staged() && staged.is_dirty() && !staged.is_modified());
    assert!(!staged.is_untracked());
}

#[test]
fn size_hints_are_exact() {
    let changes = mixed_changes();
    let mut all = changes.files();
    assert_eq!(all.size_hint(), (16, Some(16)));
    all.next();
    assert_eq!(all.size_hint(), (15, Some(15)));
    assert_eq!(changes.modified_files().size_hint(), (5, Some(5)));
    assert_eq!(changes.staged_files().size_hint(), (7, Some(7)));
    let mut untracked = changes.untracked_files();
    untracked.next_back();
    assert_eq!(untracked.size_hint(), (4, Some(4)));
}
