use vcs_modify_guard::error::{BackendError, Libgit2BackendError, ModifyGuardError};
use vcs_modify_guard::repository::{FileChange, StatusFlags};
use vcs_modify_guard::util::NormalizedWorktreePath;
use vcs_modify_guard::vcs::git_libgit2::{
    directory_changes, discovered_worktree, file_change_from_status, file_changes_from_statuses,
    opened_worktree, plan_path_changes, single_file_changes, ChangeQuery, RepositoryLookup,
    StatusLookup, StatusRecord,
};

const INDEX_NEW: u32 = 1 << 0;
const INDEX_MODIFIED: u32 = 1 << 1;
const INDEX_DELETED: u32 = 1 << 2;
const INDEX_RENAMED: u32 = 1 << 3;
const INDEX_TYPECHANGE: u32 = 1 << 4;
const WT_NEW: u32 = 1 << 7;
const WT_MODIFIED: u32 = 1 << 8;
const WT_DELETED: u32 = 1 << 9;
const WT_TYPECHANGE: u32 = 1 << 10;
const WT_RENAMED: u32 = 1 << 11;
const IGNORED: u32 = 1 << 14;

fn flags(bits: u32) -> (bool, bool, bool) {
    let f = StatusFlags::from_status_bits(bits);
    (f.is_modified(), f.is_staged(), f.is_untracked())
}

#[test]
fn status_flags_from_libgit2_status_bits() {
    assert_eq!(flags(0), (false, false, false));
    assert_eq!(flags(IGNORED), (false, false, false));
    assert_eq!(flags(WT_NEW), (false, false, true));
    assert_eq!(flags(WT_NEW | INDEX_MODIFIED | WT_MODIFIED), (false, false, true));
    for bit in [WT_MODIFIED, WT_DELETED, WT_TYPECHANGE, WT_RENAMED] {
        assert_eq!(flags(bit), (true, false, false));
    }
    for bit in [INDEX_NEW, INDEX_MODIFIED, INDEX_DELETED, INDEX_RENAMED, INDEX_TYPECHANGE] {
        assert_eq!(flags(bit), (false, true, false));
    }
    assert_eq!(flags(INDEX_MODIFIED | WT_MODIFIED), (true, true, false));
}

#[test]
fn file_changes_from_statuses_keeps_changed_entries() {
    let records = vec![
        StatusRecord { path: b"b.txt".to_vec(), bits: WT_MODIFIED },
        StatusRecord { path: b"non-utf8-\xff.txt".to_vec(), bits: WT_NEW },
        StatusRecord { path: b"ignored".to_vec(), bits: IGNORED },
        StatusRecord { path: b"a.txt".to_vec(), bits: WT_NEW },
    ];
    let files = file_changes_from_statuses(&records);
    assert_eq!(files.len(), 3);
    assert_eq!(files[0].path(), b"b.txt");
    assert!(files[0].is_modified());
    assert_eq!(files[1].path(), b"non-utf8-\xff.txt");
    assert!(files[1].is_untracked() && files[1].is_dirty() && !files[1].is_staged());
    assert_eq!(files[2].path(), b"a.txt");
    assert!(files[2].is_untracked());
}

#[test]
fn repository_changes_reports_non_utf8_untracked_file() {
    let records = vec![StatusRecord { path: b"non-utf8-\xff.txt".to_vec(), bits: WT_NEW }];
    let files = file_changes_from_statuses(&records);
    let changes = directory_changes(files, None).unwrap().unwrap();
    let mut it = changes.files();
    let file = it.next().unwrap();
    assert_eq!(file.path(), b"non-utf8-\xff.txt");
    assert!(file.is_dirty() && !file.is_staged());
    assert!(it.next().is_none());
}

#[test]
fn directory_changes_of_missing_path_without_changes_is_not_found() {
    let missing = NormalizedWorktreePath::Missing("gone/dir".to_owned());
    match directory_changes(vec![], Some(missing)) {
        Err(ModifyGuardError::PathNotFound { path }) => assert_eq!(path, "gone/dir"),
        other => panic!("expected PathNotFound, got {other:?}"),
    }
    assert!(directory_changes(vec![], None).unwrap().is_none());
    let existing = NormalizedWorktreePath::Existing("dir".to_owned());
    assert!(directory_changes(vec![], Some(existing)).unwrap().is_none());
}

#[test]
fn directory_changes_sorts_found_files() {
    let files: Vec<FileChange> = vec![
        StatusFlags::untracked().build(b"z".to_vec()).unwrap(),
        StatusFlags::versioned(true, false).build(b"a".to_vec()).unwrap(),
    ];
    let missing = NormalizedWorktreePath::Missing("deleted".to_owned());
    let changes = directory_changes(files, Some(missing)).unwrap().unwrap();
    let mut it = changes.files();
    assert_eq!(it.next().unwrap().path(), b"a");
    assert_eq!(it.next().unwrap().path(), b"z");
    assert!(it.next().is_none());
}

#[test]
fn file_change_from_status_covers_every_answer() {
    let existing = || NormalizedWorktreePath::Existing("f.txt".to_owned());
    let missing = || NormalizedWorktreePath::Missing("gone.txt".to_owned());

    let c = file_change_from_status(existing(), StatusLookup::Found(INDEX_NEW)).unwrap().unwrap();
    assert!(c.is_staged() && !c.is_modified());
    assert!(file_change_from_status(existing(), StatusLookup::Found(0)).unwrap().is_none());

    let c = file_change_from_status(existing(), StatusLookup::NotFound).unwrap().unwrap();
    assert!(c.is_untracked());
    assert_eq!(c.path(), b"f.txt");

    match file_change_from_status(missing(), StatusLookup::NotFound) {
        Err(ModifyGuardError::PathNotFound { path }) => assert_eq!(path, "gone.txt"),
        other => panic!("expected PathNotFound, got {other:?}"),
    }

    let err = git2::Error::from_str("boom");
    match file_change_from_status(missing(), StatusLookup::Failed(err)) {
        Err(ModifyGuardError::Backend { .. }) => {}
        other => panic!("expected Backend, got {other:?}"),
    }
}

#[test]
fn plan_path_changes_chooses_the_query() {
    assert!(matches!(
        plan_path_changes(NormalizedWorktreePath::Existing(String::new()), true),
        ChangeQuery::Repository
    ));
    assert!(matches!(
        plan_path_changes(NormalizedWorktreePath::Existing("d".to_owned()), true),
        ChangeQuery::Directory(NormalizedWorktreePath::Existing(_))
    ));
    assert!(matches!(
        plan_path_changes(NormalizedWorktreePath::Missing("m".to_owned()), false),
        ChangeQuery::Directory(NormalizedWorktreePath::Missing(_))
    ));
    assert!(matches!(
        plan_path_changes(NormalizedWorktreePath::Existing("f".to_owned()), false),
        ChangeQuery::File(_)
    ));
}

#[test]
fn single_file_changes_wraps_one_change() {
    assert!(single_file_changes(None).is_none());
    let c = StatusFlags::versioned(false, true).build(b"s".to_vec());
    let changes = single_file_changes(c).unwrap();
    assert_eq!(changes.files().len(), 1);
    assert!(changes.has_staged_files());
}

#[test]
fn discovery_takes_the_worktree_of_the_repository_found() {
    let found = RepositoryLookup::Found {
        workdir: Some("/w/".to_owned()),
        git_dir: "/w/.git/".to_owned(),
    };
    assert_eq!(discovered_worktree("/w/src", found).unwrap(), Some("/w/".to_owned()));
    assert_eq!(discovered_worktree("/tmp", RepositoryLookup::NotFound).unwrap(), None);
}

#[test]
fn a_repository_without_worktree_is_an_error_naming_its_git_dir() {
    let bare = || RepositoryLookup::Found {
        workdir: None,
        git_dir: "/srv/repo.git/".to_owned(),
    };
    match discovered_worktree("/srv/repo.git/refs", bare()) {
        Err(ModifyGuardError::RepositoryWithoutWorktree { path }) => {
            assert_eq!(path, "/srv/repo.git/");
        }
        other => panic!("expected RepositoryWithoutWorktree, got {other:?}"),
    }
    match opened_worktree("/srv/repo.git", bare()) {
        Err(ModifyGuardError::RepositoryWithoutWorktree { path }) => {
            assert_eq!(path, "/srv/repo.git/");
        }
        other => panic!("expected RepositoryWithoutWorktree, got {other:?}"),
    }
}

#[test]
fn opening_a_path_that_is_no_repository_is_an_error() {
    match opened_worktree("/tmp", RepositoryLookup::NotFound) {
        Err(ModifyGuardError::NotARepository { path }) => assert_eq!(path, "/tmp"),
        other => panic!("expected NotARepository, got {other:?}"),
    }
    let found = RepositoryLookup::Found {
        workdir: Some("/w/".to_owned()),
        git_dir: "/w/.git/".to_owned(),
    };
    assert_eq!(opened_worktree("/w", found).unwrap(), "/w/");
}

#[test]
fn a_failed_lookup_is_a_backend_error_naming_the_path() {
    let failure = || RepositoryLookup::Failed(git2::Error::from_str("boom"));
    match discovered_worktree("/x", failure()) {
        Err(ModifyGuardError::Backend {
            source: BackendError::Libgit2(Libgit2BackendError::Discover { path, source }),
        }) => {
            assert_eq!(path, "/x");
            assert_eq!(source.message(), "boom");
        }
        other => panic!("expected Discover, got {other:?}"),
    }
    match opened_worktree("/x", failure()) {
        Err(ModifyGuardError::Backend {
            source: BackendError::Libgit2(Libgit2BackendError::Open { path, .. }),
        }) => assert_eq!(path, "/x"),
        other => panic!("expected Open, got {other:?}"),
    }
}
