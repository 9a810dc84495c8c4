use vcs_modify_guard::error::{BackendError, ModifyGuardError};
use vcs_modify_guard::util::NormalizedWorktreePath;
use vcs_modify_guard::vcs::git_cli::GitCliBackendError;
use vcs_modify_guard::vcs::git_cli_backend::{
    changes_from_status, checked_output, file_change_from_status, status_query_args,
    GitCliProbe, GitOutput, ProbeAction,
};

fn strings(items: &[&str]) -> Vec<String> {
    items.iter().map(|s| (*s).to_owned()).collect()
}

fn ok(stdout: &[u8]) -> Result<GitOutput, std::io::Error> {
    Ok(GitOutput {
        success: true,
        code: Some(0),
        stdout: stdout.to_vec(),
    })
}

fn failed(code: i32) -> Result<GitOutput, std::io::Error> {
    Ok(GitOutput {
        success: false,
        code: Some(code),
        stdout: Vec::new(),
    })
}

fn expect_run(probe: &GitCliProbe, dir: &str, args: &[&str]) {
    match probe.action() {
        ProbeAction::Run { dir: d, args: a } => {
            assert_eq!(d, dir);
            assert_eq!(a, strings(args));
        }
        other => panic!("expected a git command, got {other:?}"),
    }
}

fn expect_compare(probe: &GitCliProbe, first: &str, second: &str) {
    match probe.action() {
        ProbeAction::ComparePaths { first: f, second: s } => {
            assert_eq!(f, first);
            assert_eq!(s, second);
        }
        other => panic!("expected a comparison, got {other:?}"),
    }
}

fn outcome(probe: GitCliProbe) -> Result<Option<String>, ModifyGuardError> {
    assert!(matches!(probe.action(), ProbeAction::Finished));
    probe.finish().expect("the probe is finished")
}

fn git_cli_error(result: Result<Option<String>, ModifyGuardError>) -> GitCliBackendError {
    match result {
        Err(ModifyGuardError::Backend {
            source: BackendError::GitCli(e),
        }) => e,
        other => panic!("expected a git command line backend error, got {other:?}"),
    }
}

const BASE_ARGS: [&str; 6] = [
    "status",
    "--porcelain=v1",
    "-z",
    "--no-renames",
    "--no-ignored",
    "--untracked-files=all",
];

#[test]
fn status_query_covers_the_whole_worktree_without_a_path() {
    assert_eq!(status_query_args(None), strings(&BASE_ARGS));
    let root = NormalizedWorktreePath::Existing(String::new());
    assert_eq!(status_query_args(Some(&root)), strings(&BASE_ARGS));
}

#[test]
fn status_query_matches_a_path_literally() {
    let path = NormalizedWorktreePath::Missing("src/[a]*.rs".to_owned());
    let mut expected = strings(&BASE_ARGS);
    expected.push(":(literal)src/[a]*.rs".to_owned());
    assert_eq!(status_query_args(Some(&path)), expected);
}

#[test]
fn checked_output_keeps_the_output_of_a_successful_command() {
    let stdout = checked_output(ok(b"true\n"), strings(&["rev-parse"])).unwrap();
    assert_eq!(stdout, b"true\n");
}

#[test]
fn checked_output_rejects_an_unsuccessful_command() {
    match checked_output(failed(128), strings(&["status"])) {
        Err(ModifyGuardError::Backend {
            source: BackendError::GitCli(GitCliBackendError::GitExitStatus { code }),
        }) => assert_eq!(code, Some(128)),
        other => panic!("expected GitExitStatus, got {other:?}"),
    }
}

#[test]
fn checked_output_reports_a_command_that_could_not_run() {
    let reply = Err(std::io::Error::new(std::io::ErrorKind::NotFound, "no git"));
    match checked_output(reply, strings(&["status", "-z"])) {
        Err(ModifyGuardError::Backend {
            source: BackendError::GitCli(GitCliBackendError::GitCommand { program, args, .. }),
        }) => {
            assert_eq!(program, "git");
            assert_eq!(args, strings(&["status", "-z"]));
        }
        other => panic!("expected GitCommand, got {other:?}"),
    }
}

#[test]
fn changes_from_status_keeps_changed_entries_in_order() {
    let stdout = b" M b.txt\0?? a.txt\0   clean.txt\0MM both.txt\0A  added.txt\0\n";
    let changes = changes_from_status(stdout, None).unwrap();
    let summary: Vec<(String, bool, bool, bool)> = changes
        .iter()
        .map(|c| {
            (
                String::from_utf8(c.path().to_vec()).unwrap(),
                c.is_modified(),
                c.is_staged(),
                c.is_untracked(),
            )
        })
        .collect();
    assert_eq!(
        summary,
        vec![
            ("b.txt".to_owned(), true, false, false),
            ("a.txt".to_owned(), false, false, true),
            ("both.txt".to_owned(), true, true, false),
            ("added.txt".to_owned(), false, true, false),
        ]
    );
}

#[test]
fn changes_from_status_rejects_an_invalid_entry() {
    match changes_from_status(b" M a.txt\0!!bad\0", None) {
        Err(ModifyGuardError::Backend {
            source: BackendError::GitCli(GitCliBackendError::InvalidGitStatus { entry }),
        }) => assert_eq!(entry, b"!!bad"),
        other => panic!("expected InvalidGitStatus, got {other:?}"),
    }
}

#[test]
fn changes_from_status_reports_an_unknown_missing_path_as_not_found() {
    let missing = NormalizedWorktreePath::Missing("gone/x.txt".to_owned());
    match changes_from_status(b"", Some(&missing)) {
        Err(ModifyGuardError::PathNotFound { path }) => assert_eq!(path, "gone/x.txt"),
        other => panic!("expected PathNotFound, got {other:?}"),
    }
    let existing = NormalizedWorktreePath::Existing("here".to_owned());
    assert!(changes_from_status(b"   here/clean.txt\0", Some(&existing))
        .unwrap()
        .is_empty());
}

#[test]
fn changes_from_status_keeps_a_deleted_missing_path() {
    let missing = NormalizedWorktreePath::Missing("gone.txt".to_owned());
    let changes = changes_from_status(b" D gone.txt\0", Some(&missing)).unwrap();
    assert_eq!(changes.len(), 1);
    assert_eq!(changes[0].path(), b"gone.txt");
    assert!(changes[0].is_modified());
}

#[test]
fn file_change_from_status_returns_the_change_of_the_file() {
    let path = NormalizedWorktreePath::Existing("a.txt".to_owned());
    let change = file_change_from_status(b"M  a.txt\0", &path).unwrap().unwrap();
    assert_eq!(change.path(), b"a.txt");
    assert!(change.is_staged() && !change.is_modified());
    assert!(file_change_from_status(b"", &path).unwrap().is_none());
}

#[test]
fn file_change_from_status_rejects_a_change_below_the_path() {
    let path = NormalizedWorktreePath::Missing("dir".to_owned());
    match file_change_from_status(b" D dir/inner.txt\0", &path) {
        Err(ModifyGuardError::Backend {
            source: BackendError::GitCli(GitCliBackendError::AmbiguousFilePath { requested, actual }),
        }) => {
            assert_eq!(requested, "dir");
            assert_eq!(actual, b"dir/inner.txt");
        }
        other => panic!("expected AmbiguousFilePath, got {other:?}"),
    }
    match file_change_from_status(b"", &path) {
        Err(ModifyGuardError::PathNotFound { path }) => assert_eq!(path, "dir"),
        other => panic!("expected PathNotFound, got {other:?}"),
    }
}

#[test]
fn discovery_outside_any_repository_finds_nothing() {
    let probe = GitCliProbe::discover("/tmp/plain".to_owned());
    expect_run(&probe, "/tmp/plain", &["rev-parse", "--is-bare-repository"]);
    let probe = probe.ran(failed(128));
    assert!(matches!(outcome(probe), Ok(None)));
}

#[test]
fn discovery_in_a_bare_repository_is_an_error() {
    let probe = GitCliProbe::discover("/srv/repo.git".to_owned()).ran(ok(b"true\n"));
    match outcome(probe) {
        Err(ModifyGuardError::RepositoryWithoutWorktree { path }) => {
            assert_eq!(path, "/srv/repo.git");
        }
        other => panic!("expected RepositoryWithoutWorktree, got {other:?}"),
    }
}

#[test]
fn discovery_in_a_worktree_finds_its_top() {
    let probe = GitCliProbe::discover("/w/src".to_owned()).ran(ok(b"false\n"));
    expect_run(&probe, "/w/src", &["rev-parse", "--is-inside-git-dir"]);
    let probe = probe.ran(ok(b"false\n"));
    expect_run(&probe, "/w/src", &["rev-parse", "--show-toplevel"]);
    let probe = probe.ran(ok(b"/w\n"));
    assert_eq!(outcome(probe).unwrap(), Some("/w".to_owned()));
}

#[test]
fn discovery_inside_an_administrative_directory_finds_the_owning_worktree() {
    let probe = GitCliProbe::discover("/w/.git/refs".to_owned())
        .ran(ok(b"false\n"))
        .ran(ok(b"true\n"));
    expect_run(&probe, "/w/.git/refs", &["rev-parse", "--absolute-git-dir"]);
    let probe = probe.ran(ok(b"/w/.git/worktrees/feature\n"));
    expect_run(
        &probe,
        "/w/.git/worktrees",
        &["--git-dir=/w/.git/worktrees/feature", "rev-parse", "--git-common-dir"],
    );
    let probe = probe.ran(ok(b"/w/.git\n"));
    expect_run(
        &probe,
        "/w",
        &["--git-dir=/w/.git", "worktree", "list", "--porcelain", "-z"],
    );
    let listing = b"worktree /w\0HEAD 0123\0branch refs/heads/main\0\0worktree /f\0HEAD 4567\0detached\0\0";
    let probe = probe.ran(ok(listing));
    expect_run(&probe, "/w", &["rev-parse", "--absolute-git-dir"]);
    let probe = probe.ran(ok(b"/w/.git\n"));
    expect_compare(&probe, "/w/.git", "/w/.git/worktrees/feature");
    let probe = probe.compared(false);
    expect_run(&probe, "/f", &["rev-parse", "--absolute-git-dir"]);
    let probe = probe.ran(ok(b"/w/.git/worktrees/feature\n"));
    expect_compare(
        &probe,
        "/w/.git/worktrees/feature",
        "/w/.git/worktrees/feature",
    );
    let probe = probe.compared(true);
    assert_eq!(outcome(probe).unwrap(), Some("/f".to_owned()));
}

#[test]
fn a_relative_common_directory_is_taken_from_the_parent_of_the_git_dir() {
    let probe = GitCliProbe::discover("/w/.git".to_owned())
        .ran(ok(b"false\n"))
        .ran(ok(b"true\n"))
        .ran(ok(b"/w/.git\n"));
    expect_run(&probe, "/w", &["--git-dir=/w/.git", "rev-parse", "--git-common-dir"]);
    let probe = probe.ran(ok(b".git\n"));
    expect_run(
        &probe,
        "/w",
        &["--git-dir=/w/.git", "worktree", "list", "--porcelain", "-z"],
    );
}

#[test]
fn discovery_fails_when_no_listed_worktree_owns_the_git_dir() {
    let probe = GitCliProbe::discover("/w/.git".to_owned())
        .ran(ok(b"false\n"))
        .ran(ok(b"true\n"))
        .ran(ok(b"/w/.git\n"))
        .ran(ok(b"/w/.git\n"))
        .ran(ok(b"worktree /other\0\0"))
        .ran(ok(b"/other/.git\n"))
        .compared(false);
    match git_cli_error(outcome(probe)) {
        GitCliBackendError::NoWorktreeForGitDir { git_dir } => assert_eq!(git_dir, "/w/.git"),
        other => panic!("expected NoWorktreeForGitDir, got {other:?}"),
    }
}

#[test]
fn a_root_git_dir_has_no_parent_to_query_from() {
    let probe = GitCliProbe::discover("/".to_owned())
        .ran(ok(b"false\n"))
        .ran(ok(b"true\n"))
        .ran(ok(b"/\n"));
    match git_cli_error(outcome(probe)) {
        GitCliBackendError::NoGitDirParent { git_dir } => assert_eq!(git_dir, "/"),
        other => panic!("expected NoGitDirParent, got {other:?}"),
    }
}

#[test]
fn opening_the_top_of_a_worktree_succeeds() {
    let probe = GitCliProbe::open("/w".to_owned())
        .ran(ok(b"false\n"))
        .ran(ok(b"false\n"));
    expect_run(&probe, "/w", &["rev-parse", "--show-prefix"]);
    let probe = probe.ran(ok(b"\n"));
    expect_run(&probe, "/w", &["rev-parse", "--show-toplevel"]);
    let probe = probe.ran(ok(b"/w\n"));
    assert_eq!(outcome(probe).unwrap(), Some("/w".to_owned()));
}

#[test]
fn opening_a_subdirectory_of_a_worktree_finds_nothing() {
    let probe = GitCliProbe::open("/w/src".to_owned())
        .ran(ok(b"false\n"))
        .ran(ok(b"false\n"))
        .ran(ok(b"src/\n"));
    assert!(matches!(outcome(probe), Ok(None)));
}

#[test]
fn opening_a_bare_repository_is_an_error_only_at_its_git_dir() {
    let probe = GitCliProbe::open("/srv/repo.git".to_owned()).ran(ok(b"true\n"));
    expect_run(&probe, "/srv/repo.git", &["rev-parse", "--absolute-git-dir"]);
    let probe = probe.ran(ok(b"/srv/repo.git\n"));
    expect_compare(&probe, "/srv/repo.git", "/srv/repo.git");
    match outcome(probe.compared(true)) {
        Err(ModifyGuardError::RepositoryWithoutWorktree { path }) => {
            assert_eq!(path, "/srv/repo.git");
        }
        other => panic!("expected RepositoryWithoutWorktree, got {other:?}"),
    }
    let probe = GitCliProbe::open("/srv/repo.git/refs".to_owned())
        .ran(ok(b"true\n"))
        .ran(ok(b"/srv/repo.git\n"))
        .compared(false);
    assert!(matches!(outcome(probe), Ok(None)));
}

#[test]
fn opening_an_administrative_directory_finds_its_worktree() {
    let probe = GitCliProbe::open("/w/.git".to_owned())
        .ran(ok(b"false\n"))
        .ran(ok(b"true\n"))
        .ran(ok(b"/w/.git\n"));
    expect_compare(&probe, "/w/.git", "/w/.git");
    let probe = probe.compared(true);
    expect_run(&probe, "/w", &["--git-dir=/w/.git", "rev-parse", "--git-common-dir"]);
    let probe = GitCliProbe::open("/w/.git/refs".to_owned())
        .ran(ok(b"false\n"))
        .ran(ok(b"true\n"))
        .ran(ok(b"/w/.git\n"))
        .compared(false);
    assert!(matches!(outcome(probe), Ok(None)));
}

#[test]
fn a_failed_command_ends_the_probe() {
    let probe = GitCliProbe::discover("/w".to_owned())
        .ran(ok(b"false\n"))
        .ran(failed(129));
    match git_cli_error(outcome(probe)) {
        GitCliBackendError::GitExitStatus { code } => assert_eq!(code, Some(129)),
        other => panic!("expected GitExitStatus, got {other:?}"),
    }
    let reply = Err(std::io::Error::new(std::io::ErrorKind::NotFound, "no git"));
    let probe = GitCliProbe::discover("/w".to_owned()).ran(reply);
    match git_cli_error(outcome(probe)) {
        GitCliBackendError::GitCommand { program, args, .. } => {
            assert_eq!(program, "git");
            assert_eq!(args, strings(&["rev-parse", "--is-bare-repository"]));
        }
        other => panic!("expected GitCommand, got {other:?}"),
    }
}

#[test]
fn an_answer_that_is_not_a_boolean_ends_the_probe() {
    let probe = GitCliProbe::discover("/w".to_owned()).ran(ok(b"maybe\n"));
    match git_cli_error(outcome(probe)) {
        GitCliBackendError::InvalidRevParse { output } => assert_eq!(output, b"maybe"),
        other => panic!("expected InvalidRevParse, got {other:?}"),
    }
}

#[test]
fn a_path_that_is_not_utf8_ends_the_probe() {
    let probe = GitCliProbe::discover("/w".to_owned())
        .ran(ok(b"false\n"))
        .ran(ok(b"false\n"))
        .ran(ok(b"/w\xff\n"));
    assert!(matches!(
        git_cli_error(outcome(probe)),
        GitCliBackendError::InvalidUtf8
    ));
}

#[test]
fn backend_errors_convert_to_backend_failures() {
    match ModifyGuardError::from(GitCliBackendError::NoGitDirParent {
        git_dir: "/".to_owned(),
    }) {
        ModifyGuardError::Backend {
            source: BackendError::GitCli(GitCliBackendError::NoGitDirParent { git_dir }),
        } => assert_eq!(git_dir, "/"),
        other => panic!("expected a git command line backend failure, got {other:?}"),
    }
    let libgit2 = vcs_modify_guard::error::Libgit2BackendError::Open {
        path: "/x".to_owned(),
        source: git2::Error::from_str("boom"),
    };
    assert!(matches!(
        ModifyGuardError::from(libgit2),
        ModifyGuardError::Backend {
            source: BackendError::Libgit2(_)
        }
    ));
}

#[test]
fn changes_from_status_keeps_a_file_whose_name_is_not_utf8() {
    let changes = changes_from_status(b"?? non-utf8-\xff.txt\0", None).unwrap();
    assert_eq!(changes.len(), 1);
    assert_eq!(changes[0].path(), b"non-utf8-\xff.txt");
    assert!(changes[0].is_dirty() && changes[0].is_untracked() && !changes[0].is_staged());
}
