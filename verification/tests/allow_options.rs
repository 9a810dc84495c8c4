use vcs_modify_guard::allow_options::{
    AllowOptions, CheckAction, ModificationSafety, UnsafeModificationReason,
};
use vcs_modify_guard::repository::{FileChange, RepositoryChanges, StatusFlags};

const WORKTREE: &str = "repo";

fn path_list(paths: &[&str]) -> Vec<Vec<u8>> {
    paths.iter().map(|p| p.as_bytes().to_vec()).collect()
}

fn modified_file(path: &str) -> FileChange {
    StatusFlags::versioned(true, false).build(path.as_bytes().to_vec()).unwrap()
}

fn staged_file(path: &str) -> FileChange {
    StatusFlags::versioned(false, true).build(path.as_bytes().to_vec()).unwrap()
}

fn modified_and_staged_file(path: &str) -> FileChange {
    StatusFlags::versioned(true, true).build(path.as_bytes().to_vec()).unwrap()
}

fn untracked_file(path: &str) -> FileChange {
    StatusFlags::untracked().build(path.as_bytes().to_vec()).unwrap()
}

#[derive(Default)]
struct StubRepo {
    resolve_path_result: Option<String>,
    expected_path_changes_wt_path: Option<String>,
    path_changes: Vec<FileChange>,
    repository_changes: Vec<FileChange>,
}

impl StubRepo {
    fn with_resolve_path_result(mut self, wt_path: &str) -> Self {
        self.resolve_path_result = Some(wt_path.to_owned());
        self
    }

    fn with_expected_path_changes_wt_path(mut self, wt_path: &str) -> Self {
        self.expected_path_changes_wt_path = Some(wt_path.to_owned());
        self
    }

    fn with_path_changes(mut self, files: Vec<FileChange>) -> Self {
        self.path_changes = files;
        self
    }

    fn with_repository_changes(mut self, files: Vec<FileChange>) -> Self {
        self.repository_changes = files;
        self
    }
}

enum Step {
    Discover,
    Resolve,
    PathChanges(String),
    RepositoryChanges,
    Done,
}

/// Runs a check of `target` against a backend that finds `repo` (or no
/// repository), answering each query from the stub.
fn check_with_stub(options: &AllowOptions, target: &str, repo: Option<&StubRepo>) -> ModificationSafety {
    let mut check = options.start_check();
    loop {
        let step = match check.action() {
            CheckAction::Discover => Step::Discover,
            CheckAction::ResolvePath => Step::Resolve,
            CheckAction::QueryPathChanges(p) => Step::PathChanges(p.clone()),
            CheckAction::QueryRepositoryChanges => Step::RepositoryChanges,
            CheckAction::Done(_) => Step::Done,
        };
        match step {
            Step::Discover => check.discovered(repo.map(|_| WORKTREE.to_owned())),
            Step::Resolve => {
                let repo = repo.expect("resolution needs a repository");
                let resolved = repo.resolve_path_result.clone().unwrap_or_else(|| target.to_owned());
                check.resolved(resolved);
            }
            Step::PathChanges(wt_path) => {
                let repo = repo.expect("path changes need a repository");
                if let Some(expected) = &repo.expected_path_changes_wt_path {
                    assert_eq!(&wt_path, expected);
                }
                check.changes_found(RepositoryChanges::new(repo.path_changes.clone()));
            }
            Step::RepositoryChanges => {
                let repo = repo.expect("repository changes need a repository");
                check.changes_found(RepositoryChanges::new(repo.repository_changes.clone()));
            }
            Step::Done => return check.finish().unwrap(),
        }
    }
}

fn assert_safe(safety: ModificationSafety) {
    assert!(matches!(safety, ModificationSafety::Safe));
}

fn assert_unsafe_due_to_no_vcs(safety: ModificationSafety) {
    assert!(matches!(
        safety,
        ModificationSafety::Unsafe(UnsafeModificationReason::NoVcs)
    ));
}

fn assert_unsafe_due_to_dirty(
    safety: ModificationSafety,
    expected_dirty_files: &[&str],
    expected_staged_files: &[&str],
) {
    let ModificationSafety::Unsafe(UnsafeModificationReason::Dirty {
        worktree,
        dirty_files,
        staged_files,
    }) = safety
    else {
        panic!("expected Unsafe(Dirty)");
    };
    assert_eq!(worktree, WORKTREE);
    assert_eq!(dirty_files, path_list(expected_dirty_files));
    assert_eq!(staged_files, path_list(expected_staged_files));
}

fn assert_unsafe_due_to_staged(safety: ModificationSafety, expected_staged_files: &[&str]) {
    let ModificationSafety::Unsafe(UnsafeModificationReason::Staged {
        worktree,
        staged_files,
    }) = safety
    else {
        panic!("expected Unsafe(Staged)");
    };
    assert_eq!(worktree, WORKTREE);
    assert_eq!(staged_files, path_list(expected_staged_files));
}

#[test]
fn check_safe_to_modify_returns_safe_when_allow_no_vcs_is_enabled() {
    let safety = check_with_stub(&AllowOptions::new().allow_no_vcs(true), "target", None);

    assert_safe(safety);
}

#[test]
fn check_safe_to_modify_returns_unsafe_due_to_no_vcs_when_repository_is_not_found() {
    let safety = check_with_stub(&AllowOptions::new(), "target", None);

    assert_unsafe_due_to_no_vcs(safety);
}

#[test]
fn check_safe_to_modify_returns_safe_for_clean_path() {
    let repo = StubRepo::default();

    let safety = check_with_stub(&AllowOptions::new(), "target", Some(&repo));

    assert_safe(safety);
}

#[test]
fn check_safe_to_modify_returns_unsafe_due_to_staged_for_staged_only_path() {
    let repo = StubRepo::default().with_path_changes(vec![staged_file("staged.txt")]);

    let safety = check_with_stub(&AllowOptions::new(), "target", Some(&repo));

    assert_unsafe_due_to_staged(safety, &["staged.txt"]);
}

#[test]
fn check_safe_to_modify_returns_safe_for_staged_only_path_when_allow_staged_is_enabled() {
    let repo = StubRepo::default().with_path_changes(vec![staged_file("staged.txt")]);

    let safety = check_with_stub(&AllowOptions::new().allow_staged(true), "target", Some(&repo));

    assert_safe(safety);
}

#[test]
fn check_safe_to_modify_returns_unsafe_due_to_dirty_for_dirty_only_path() {
    let repo = StubRepo::default().with_path_changes(vec![
        modified_file("modified.txt"),
        untracked_file("untracked.txt"),
    ]);

    let safety = check_with_stub(&AllowOptions::new(), "target", Some(&repo));

    assert_unsafe_due_to_dirty(safety, &["modified.txt", "untracked.txt"], &[]);
}

#[test]
fn check_safe_to_modify_returns_unsafe_due_to_dirty_with_dirty_and_staged_files() {
    let repo = StubRepo::default().with_path_changes(vec![
        modified_file("a-modified.txt"),
        staged_file("b-staged.txt"),
        modified_and_staged_file("c-modified-and-staged.txt"),
        untracked_file("d-untracked.txt"),
    ]);

    let safety = check_with_stub(&AllowOptions::new(), "target", Some(&repo));

    assert_unsafe_due_to_dirty(
        safety,
        &[
            "a-modified.txt",
            "c-modified-and-staged.txt",
            "d-untracked.txt",
        ],
        &["b-staged.txt", "c-modified-and-staged.txt"],
    );
}

#[test]
fn check_safe_to_modify_returns_unsafe_due_to_dirty_when_allow_staged_is_enabled() {
    let repo = StubRepo::default().with_path_changes(vec![
        modified_file("a-modified.txt"),
        staged_file("b-staged.txt"),
        modified_and_staged_file("c-modified-and-staged.txt"),
    ]);

    let safety = check_with_stub(&AllowOptions::new().allow_staged(true), "target", Some(&repo));

    assert_unsafe_due_to_dirty(
        safety,
        &["a-modified.txt", "c-modified-and-staged.txt"],
        &[],
    );
}

#[test]
fn check_safe_to_modify_checks_only_the_queried_path_by_default() {
    let repo =
        StubRepo::default().with_repository_changes(vec![modified_file("root-modified.txt")]);

    let safety = check_with_stub(&AllowOptions::new(), "subdir", Some(&repo));

    assert_safe(safety);
}

#[test]
fn check_safe_to_modify_resolves_path_before_querying_path_changes() {
    let repo = StubRepo::default()
        .with_resolve_path_result("resolved/subdir")
        .with_expected_path_changes_wt_path("resolved/subdir");

    let safety = check_with_stub(&AllowOptions::new(), "input/subdir", Some(&repo));

    assert_safe(safety);
}

#[test]
fn check_safe_to_modify_checks_the_entire_repository_when_enabled() {
    let repo =
        StubRepo::default().with_repository_changes(vec![modified_file("root-modified.txt")]);

    let safety = check_with_stub(
        &AllowOptions::new().check_entire_repository(true),
        "subdir",
        Some(&repo),
    );

    assert_unsafe_due_to_dirty(safety, &["root-modified.txt"], &[]);
}

#[test]
fn allow_dirty_skips_change_queries_and_is_safe() {
    let repo = StubRepo::default().with_path_changes(vec![modified_file("modified.txt")]);
    let options = AllowOptions::new().allow_dirty(true);
    let mut check = options.start_check();
    assert!(matches!(check.action(), CheckAction::Discover));
    check.discovered(Some(WORKTREE.to_owned()));
    assert!(matches!(
        check.action(),
        CheckAction::Done(ModificationSafety::Safe)
    ));

    assert_safe(check_with_stub(&options, "target", Some(&repo)));
}

#[test]
fn allow_no_vcs_skips_discovery() {
    let check = AllowOptions::new().allow_no_vcs(true).start_check();
    assert!(matches!(
        check.action(),
        CheckAction::Done(ModificationSafety::Safe)
    ));
}

#[test]
fn allow_dirty_implies_allow_staged_on_staged_changes() {
    let repo = StubRepo::default().with_path_changes(vec![staged_file("s.txt")]);
    let staged = check_with_stub(&AllowOptions::new().allow_staged(true), "t", Some(&repo));
    let dirty = check_with_stub(&AllowOptions::new().allow_dirty(true), "t", Some(&repo));
    assert_safe(staged);
    assert_safe(dirty);
}

#[test]
fn more_options_never_block_dirty_and_staged_changes() {
    let repo = StubRepo::default()
        .with_path_changes(vec![modified_file("m.txt"), staged_file("s.txt")]);
    assert!(matches!(
        check_with_stub(&AllowOptions::new(), "t", Some(&repo)),
        ModificationSafety::Unsafe(_)
    ));
    assert!(matches!(
        check_with_stub(&AllowOptions::new().allow_staged(true), "t", Some(&repo)),
        ModificationSafety::Unsafe(_)
    ));
    assert_safe(check_with_stub(&AllowOptions::new().allow_dirty(true), "t", Some(&repo)));
    assert_safe(check_with_stub(&AllowOptions::new().allow_no_vcs(true), "t", Some(&repo)));
    assert_safe(check_with_stub(
        &AllowOptions::new().allow_no_vcs(true),
        "t",
        None,
    ));
}

#[test]
fn reported_files_are_in_path_order() {
    let repo = StubRepo::default().with_path_changes(vec![
        untracked_file("b"),
        modified_file("a/z"),
        staged_file("a-b"),
        modified_file("a"),
    ]);
    let safety = check_with_stub(&AllowOptions::new(), "t", Some(&repo));
    assert_unsafe_due_to_dirty(safety, &["a", "a/z", "b"], &["a-b"]);
}

#[test]
fn finish_is_none_until_done() {
    let check = AllowOptions::new().start_check();
    assert!(check.finish().is_none());
}

#[test]
fn default_options_match_new() {
    let options = AllowOptions::default();
    let mut check = options.start_check();
    assert!(matches!(check.action(), CheckAction::Discover));
    check.discovered(Some(WORKTREE.to_owned()));
    assert!(matches!(check.action(), CheckAction::ResolvePath));
}

#[test]
fn unsafe_reason_converts_into_unsafe_safety() {
    let safety: ModificationSafety = UnsafeModificationReason::NoVcs.into();
    assert_unsafe_due_to_no_vcs(safety);
}
