use vcs_modify_guard::repository::StatusFlags;
use vcs_modify_guard::vcs::git_cli::{
    exact_file_change, parse_git_status, parse_stdout_as_bool, parse_stdout_as_path,
    parse_worktree_list_porcelain, trim_trailing_newline, ChangeKind, GitCliBackendError,
    StatusEntry,
};
use vcs_modify_guard::vcs::git_cli::ChangeKind::{Modified, Unmodified};

#[test]
fn parse_git_status_returns_file_changes() {
    let status = b"   clean.txt\0M  staged.txt\0";
    let changes = parse_git_status(status).unwrap();
    assert_eq!(
        changes,
        [
            StatusEntry {
                index: Unmodified,
                worktree: Unmodified,
                wt_path: b"clean.txt".to_vec()
            },
            StatusEntry {
                index: Modified,
                worktree: Unmodified,
                wt_path: b"staged.txt".to_vec()
            },
        ]
    );
}

#[test]
fn parse_git_status_skips_empty_fields_and_reads_last_field() {
    let changes = parse_git_status(b"\0\0?? new.txt").unwrap();
    assert_eq!(changes.len(), 1);
    assert_eq!(changes[0].index, ChangeKind::Untracked);
    assert_eq!(changes[0].worktree, ChangeKind::Untracked);
    assert_eq!(changes[0].wt_path, b"new.txt");
    assert!(parse_git_status(b"").unwrap().is_empty());
}

#[test]
fn parse_git_status_rejects_invalid_entries() {
    for bad in [&b"X  a.txt\0"[..], b"MX a.txt\0", b"MMxa.txt\0", b"M\0", b" M"] {
        match parse_git_status(bad) {
            Err(GitCliBackendError::InvalidGitStatus { entry }) => {
                let expected = bad.split(|b| *b == 0).find(|f| !f.is_empty()).unwrap();
                assert_eq!(entry, expected);
            }
            other => panic!("expected InvalidGitStatus, got {other:?}"),
        }
    }
}

#[test]
fn parse_git_status_reports_first_invalid_entry() {
    match parse_git_status(b"M  ok.txt\0!! first\0!! second\0") {
        Err(GitCliBackendError::InvalidGitStatus { entry }) => assert_eq!(entry, b"!! first"),
        other => panic!("expected InvalidGitStatus, got {other:?}"),
    }
}

#[test]
fn parse_git_status_keeps_non_utf8_paths() {
    let changes = parse_git_status(b"M  \xff\xfe\0?? non-utf8-\xff.txt\0 M b.txt\0").unwrap();
    assert_eq!(changes.len(), 3);
    assert_eq!(changes[0].wt_path, b"\xff\xfe");
    assert_eq!(changes[1].wt_path, b"non-utf8-\xff.txt");
    let untracked = changes[1].clone().build().unwrap();
    assert!(untracked.is_untracked() && untracked.is_dirty() && !untracked.is_staged());
    assert_eq!(changes[2].wt_path, b"b.txt");
}

#[test]
fn change_kind_from_byte_covers_every_state() {
    let expected = [
        (b' ', ChangeKind::Unmodified),
        (b'M', ChangeKind::Modified),
        (b'T', ChangeKind::TypeChanged),
        (b'A', ChangeKind::Added),
        (b'D', ChangeKind::Deleted),
        (b'R', ChangeKind::Renamed),
        (b'C', ChangeKind::Copied),
        (b'U', ChangeKind::UpdatedButUnmerged),
        (b'?', ChangeKind::Untracked),
    ];
    for (byte, kind) in expected {
        assert_eq!(ChangeKind::from_byte(byte), Some(kind));
    }
    assert_eq!(ChangeKind::from_byte(b'!'), None);
    assert_eq!(ChangeKind::from_byte(b'm'), None);
}

#[test]
fn status_entry_build_classifies_changes() {
    let entry = |index, worktree| StatusEntry {
        index,
        worktree,
        wt_path: b"f".to_vec(),
    };
    assert!(entry(ChangeKind::Unmodified, ChangeKind::Unmodified).build().is_none());

    let c = entry(ChangeKind::Untracked, ChangeKind::Untracked).build().unwrap();
    assert!(c.is_untracked() && !c.is_modified() && !c.is_staged() && c.is_dirty());

    let c = entry(ChangeKind::Modified, ChangeKind::Unmodified).build().unwrap();
    assert!(c.is_staged() && !c.is_modified() && !c.is_untracked() && !c.is_dirty());

    let c = entry(ChangeKind::Unmodified, ChangeKind::Deleted).build().unwrap();
    assert!(c.is_modified() && !c.is_staged() && c.is_dirty());

    let c = entry(ChangeKind::Added, ChangeKind::Modified).build().unwrap();
    assert!(c.is_modified() && c.is_staged());
    assert_eq!(c.path(), b"f");
}

#[test]
fn trim_trailing_newline_removes_one_newline() {
    assert_eq!(trim_trailing_newline(b"abc\n"), b"abc");
    assert_eq!(trim_trailing_newline(b"abc\n\n"), b"abc\n");
    assert_eq!(trim_trailing_newline(b"abc"), b"abc");
    assert_eq!(trim_trailing_newline(b""), b"");
}

#[test]
fn parse_stdout_as_bool_accepts_true_and_false() {
    assert!(parse_stdout_as_bool(b"true\n").unwrap());
    assert!(!parse_stdout_as_bool(b"false").unwrap());
    match parse_stdout_as_bool(b"yes\n") {
        Err(GitCliBackendError::InvalidRevParse { output }) => assert_eq!(output, b"yes"),
        other => panic!("expected InvalidRevParse, got {other:?}"),
    }
}

#[test]
fn parse_stdout_as_path_reads_utf8_path() {
    assert_eq!(parse_stdout_as_path(b"/tmp/repo\n").unwrap(), "/tmp/repo");
    assert!(matches!(
        parse_stdout_as_path(b"\xff\n"),
        Err(GitCliBackendError::InvalidUtf8)
    ));
}

#[test]
fn parse_worktree_list_porcelain_collects_worktree_paths() {
    let output = b"worktree /a/main\0HEAD 0123\0branch refs/heads/main\0\0worktree /a/linked\0bare\0";
    assert_eq!(
        parse_worktree_list_porcelain(output).unwrap(),
        vec!["/a/main".to_owned(), "/a/linked".to_owned()]
    );
    assert!(parse_worktree_list_porcelain(b"").unwrap().is_empty());
    assert!(matches!(
        parse_worktree_list_porcelain(b"worktree \xff\0"),
        Err(GitCliBackendError::InvalidUtf8)
    ));
}

#[test]
fn exact_file_change_rejects_other_paths() {
    let change = StatusFlags::versioned(true, false).build(b"dir/file".to_vec());
    assert_eq!(
        exact_file_change("dir/file", change.clone()).unwrap().unwrap().path(),
        b"dir/file"
    );
    match exact_file_change("dir", change) {
        Err(GitCliBackendError::AmbiguousFilePath { requested, actual }) => {
            assert_eq!(requested, "dir");
            assert_eq!(actual, b"dir/file");
        }
        other => panic!("expected AmbiguousFilePath, got {other:?}"),
    }
    assert!(exact_file_change("x", None).unwrap().is_none());
}
