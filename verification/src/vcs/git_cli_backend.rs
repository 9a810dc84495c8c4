//! The decisions of the `git` command line backend: which `git` commands it
//! runs, and what their output means.
//!
//! Running a command is the caller's work. Change queries are one command:
//! [`status_query_args`] names it and [`changes_from_status`] or
//! [`file_change_from_status`] read its output. Opening and discovering a
//! repository take several commands, each chosen from the output of the
//! one before: a [`GitCliProbe`] names the next command, and the caller
//! reports what it printed.
use vstd::prelude::*;
use vstd::string::StringExecFns;
use vstd::utf8::{decode_utf8, encode_utf8, valid_utf8};

use crate::error::{BackendError, ModifyGuardError};
use crate::repository::{change_views, FileChange, FileChangeView};
use crate::util::{NormalizedPathView, NormalizedWorktreePath};
use crate::vcs::git_cli::{
    change_of_entry, exact_file_change, parse_git_status, parse_status, parse_stdout_as_bool,
    parse_stdout_as_path, parse_worktree_list_porcelain, parse_worktrees, texts,
    trim_trailing_newline, trimmed, GitCliBackendError, StatusEntry, StatusEntryView,
};

verus! {

/// The arguments of every `git status` query: porcelain format, NUL
/// terminated, no rename detection, no ignored files, every untracked file.
pub open spec fn status_base_args() -> Seq<Seq<char>> {
    seq![
        "status"@,
        "--porcelain=v1"@,
        "-z"@,
        "--no-renames"@,
        "--no-ignored"@,
        "--untracked-files=all"@,
    ]
}

/// The pathspec that matches `path` literally, without glob magic.
pub open spec fn literal_pathspec(path: Seq<char>) -> Seq<char> {
    ":(literal)"@ + path
}

/// The view of an optional worktree path.
pub open spec fn path_view(wt_path: Option<&NormalizedWorktreePath>) -> Option<NormalizedPathView> {
    match wt_path {
        Some(p) => Some(p@),
        None => None,
    }
}

/// The arguments of the `git status` query for `wt_path`: the whole
/// worktree when there is no path or it is empty (the worktree root), and
/// otherwise only what the literal pathspec of the path matches.
pub open spec fn status_args(wt_path: Option<NormalizedPathView>) -> Seq<Seq<char>> {
    match wt_path {
        Some(p) => if p.path.len() > 0 {
            status_base_args().push(literal_pathspec(p.path))
        } else {
            status_base_args()
        },
        None => status_base_args(),
    }
}

/// Returns the arguments of the `git status` query for `wt_path`.
pub fn status_query_args(wt_path: Option<&NormalizedWorktreePath>) -> (r: Vec<String>)
    ensures
        texts(r@) == status_args(path_view(wt_path)),
{
    let mut args: Vec<String> = Vec::new();
    args.push("status".to_owned());
    args.push("--porcelain=v1".to_owned());
    args.push("-z".to_owned());
    args.push("--no-renames".to_owned());
    args.push("--no-ignored".to_owned());
    args.push("--untracked-files=all".to_owned());
    proof {
        assert(texts(args@) =~= status_base_args());
    }
    match wt_path {
        Some(p) => {
            if !p.is_empty() {
                let mut spec_text = ":(literal)".to_owned();
                spec_text.append(p.as_path());
                let ghost before = args@;
                args.push(spec_text);
                proof {
                    assert(texts(args@) =~= texts(before).push(literal_pathspec(p@.path)));
                }
            }
        },
        None => {},
    }
    args
}

/// The output of a `git` command whose success is required: what it
/// printed when it exited successfully; an error when it could not be run
/// with `args` or exited unsuccessfully.
pub fn checked_output(reply: Result<GitOutput, std::io::Error>, args: Vec<String>) -> (r: Result<
    Vec<u8>,
    ModifyGuardError,
>)
    ensures
        match reply {
            Err(source) => r matches Err(
                ModifyGuardError::Backend {
                    source: BackendError::GitCli(
                        GitCliBackendError::GitCommand { source: s, program, args: a },
                    ),
                },
            ) && s == source && program@ == "git"@ && a@ == args@,
            Ok(out) => if out.success {
                r matches Ok(stdout) && stdout@ == out.stdout@
            } else {
                r matches Err(
                    ModifyGuardError::Backend {
                        source: BackendError::GitCli(GitCliBackendError::GitExitStatus { code }),
                    },
                ) && code == out.code
            },
        },
{
    match reply {
        Err(source) => Err(
            ModifyGuardError::Backend {
                source: BackendError::GitCli(
                    GitCliBackendError::GitCommand { source, program: "git".to_owned(), args },
                ),
            },
        ),
        Ok(out) => if out.success {
            Ok(out.stdout)
        } else {
            Err(
                ModifyGuardError::Backend {
                    source: BackendError::GitCli(GitCliBackendError::GitExitStatus { code: out.code }),
                },
            )
        },
    }
}

/// The changes that status entries make, in order; clean entries make
/// none.
pub open spec fn changes_of_entries(es: Seq<StatusEntryView>) -> Seq<FileChangeView>
    decreases es.len(),
{
    if es.len() == 0 {
        seq![]
    } else {
        let rest = changes_of_entries(es.drop_last());
        match change_of_entry(es.last()) {
            Some(c) => rest.push(c),
            None => rest,
        }
    }
}

/// A missing path: one that does not exist in the worktree.
pub open spec fn is_missing(wt_path: Option<NormalizedPathView>) -> bool {
    wt_path matches Some(p) && !p.existing
}

/// The changes that the output `stdout` of the `git status` query for
/// `wt_path` reports, in the order of the output.
///
/// An invalid entry is an error. A missing path that no entry reports is
/// not found: Git knows nothing of it.
pub fn changes_from_status(stdout: &[u8], wt_path: Option<&NormalizedWorktreePath>) -> (r: Result<
    Vec<FileChange>,
    ModifyGuardError,
>)
    ensures
        match parse_status(trimmed(stdout@), seq![]) {
            Err(field) => r matches Err(
                ModifyGuardError::Backend {
                    source: BackendError::GitCli(GitCliBackendError::InvalidGitStatus { entry }),
                },
            ) && entry@ == field,
            Ok(es) => if changes_of_entries(es).len() == 0 && is_missing(path_view(wt_path)) {
                r matches Err(ModifyGuardError::PathNotFound { path }) && path@ == path_view(
                    wt_path,
                )->0.path
            } else {
                r matches Ok(v) && change_views(v@) == changes_of_entries(es)
            },
        },
{
    let entries = match parse_git_status(trim_trailing_newline(stdout)) {
        Ok(entries) => entries,
        Err(e) => {
            return Err(ModifyGuardError::Backend { source: BackendError::GitCli(e) });
        },
    };
    let ghost es = parse_status(trimmed(stdout@), seq![])->Ok_0;
    let mut changes: Vec<FileChange> = Vec::new();
    let mut i: usize = 0;
    proof {
        assert(es.take(0) =~= Seq::<StatusEntryView>::empty());
        assert(change_views(changes@) =~= Seq::<FileChangeView>::empty());
    }
    while i < entries.len()
        invariant
            i <= entries@.len() == es.len(),
            es == entries@.map_values(|e: StatusEntry| e@),
            change_views(changes@) == changes_of_entries(es.take(i as int)),
        decreases entries@.len() - i,
    {
        let entry = entries[i].clone();
        proof {
            assert(entry@ == es[i as int]);
            assert(es.take(i + 1).drop_last() =~= es.take(i as int));
            assert(es.take(i + 1).last() == es[i as int]);
        }
        let ghost before = changes@;
        match entry.build() {
            Some(c) => {
                changes.push(c);
                proof {
                    assert(change_views(changes@) =~= change_views(before).push(c@));
                }
            },
            None => {},
        }
        i = i + 1;
    }
    proof {
        assert(es.take(i as int) =~= es);
    }
    if changes.len() == 0 {
        match wt_path {
            Some(NormalizedWorktreePath::Missing(p)) => {
                return Err(ModifyGuardError::PathNotFound { path: p.clone() });
            },
            _ => {},
        }
    }
    Ok(changes)
}

/// The change of the single file `wt_path`, from the output `stdout` of
/// its `git status` query: the last change reported, which must be for
/// that very path (Git matches a missing directory path as a prefix and
/// may report a file below it), or `None` when the file is clean.
pub fn file_change_from_status(stdout: &[u8], wt_path: &NormalizedWorktreePath) -> (r: Result<
    Option<FileChange>,
    ModifyGuardError,
>)
    ensures
        r matches Ok(Some(c)) ==> c@.path == encode_utf8(wt_path@.path),
        match parse_status(trimmed(stdout@), seq![]) {
            Err(field) => r matches Err(
                ModifyGuardError::Backend {
                    source: BackendError::GitCli(GitCliBackendError::InvalidGitStatus { entry }),
                },
            ) && entry@ == field,
            Ok(es) => {
                let cs = changes_of_entries(es);
                if cs.len() == 0 {
                    if wt_path@.existing {
                        r matches Ok(None)
                    } else {
                        r matches Err(ModifyGuardError::PathNotFound { path }) && path@
                            == wt_path@.path
                    }
                } else if cs.last().path == encode_utf8(wt_path@.path) {
                    r matches Ok(Some(c)) && c@ == cs.last()
                } else {
                    r matches Err(
                        ModifyGuardError::Backend {
                            source: BackendError::GitCli(
                                GitCliBackendError::AmbiguousFilePath { requested, actual },
                            ),
                        },
                    ) && requested@ == wt_path@.path && actual@ == cs.last().path
                }
            },
        },
{
    let mut changes = match changes_from_status(stdout, Some(wt_path)) {
        Ok(changes) => changes,
        Err(e) => {
            return Err(e);
        },
    };
    let last = changes.pop();
    match exact_file_change(wt_path.as_path(), last) {
        Ok(c) => Ok(c),
        Err(e) => Err(ModifyGuardError::Backend { source: BackendError::GitCli(e) }),
    }
}


/// The parent of `path` as `std::path::Path::parent` gives it, on the
/// platform the library is built for: `path` without its last component,
/// or `None` when it ends in a root or prefix, or is empty.
pub uninterp spec fn parent_path(path: Seq<char>) -> Option<Seq<char>>;

/// `relative` taken from `base`, as `std::path::Path::join` gives it on the
/// platform the library is built for: an absolute `relative` replaces
/// `base`.
pub uninterp spec fn joined_path(base: Seq<char>, relative: Seq<char>) -> Seq<char>;

/// `std::path::Path::parent`, on text: the parent of a path given as UTF-8
/// text is a prefix of it, so it is UTF-8 text too. The result is named
/// [`parent_path`].
#[verifier::external_body]
fn path_parent(path: &str) -> (r: Option<String>)
    ensures
        match r {
            Some(p) => parent_path(path@) == Some(p@),
            None => parent_path(path@) is None,
        },
{
    match std::path::Path::new(path).parent() {
        Some(parent) => Some(parent.to_string_lossy().into_owned()),
        None => None,
    }
}

/// `std::path::Path::join`, on text: joining two UTF-8 paths gives UTF-8
/// text. The result is named [`joined_path`].
#[verifier::external_body]
fn path_join(base: &str, relative: &str) -> (r: String)
    ensures
        r@ == joined_path(base@, relative@),
{
    std::path::Path::new(base).join(relative).to_string_lossy().into_owned()
}

/// What a `git` process reported when it finished.
#[derive(Debug)]
pub struct GitOutput {
    /// Whether it exited successfully.
    pub success: bool,
    /// Its exit code, when it had one.
    pub code: Option<i32>,
    /// What it printed on standard output.
    pub stdout: Vec<u8>,
}

/// Where a [`GitCliProbe`] stands.
#[derive(Debug)]
pub enum ProbeStage {
    /// Asking whether the path is in a bare repository.
    IsBare,
    /// Asking for the administrative directory of the bare repository.
    BareGitDir,
    /// Asking whether the bare repository's administrative directory
    /// `git_dir` is the path itself.
    BareSamePath { git_dir: String },
    /// Asking whether the path is inside an administrative directory.
    InsideGitDir,
    /// Asking for that administrative directory.
    GitDir,
    /// Asking whether that administrative directory `git_dir` is the path
    /// itself.
    GitDirSamePath { git_dir: String },
    /// Asking, from its parent `query_dir`, for the common administrative
    /// directory of `git_dir`.
    CommonDir { git_dir: String, query_dir: String },
    /// Asking, from its parent `query_dir`, for the worktrees of the common
    /// administrative directory `common_dir`.
    WorktreeList { git_dir: String, common_dir: String, query_dir: String },
    /// Asking for the administrative directory of the worktree
    /// `worktrees[index]`.
    CandidateGitDir { git_dir: String, worktrees: Vec<String>, index: usize },
    /// Asking whether the administrative directory `candidate` of the
    /// worktree `worktrees[index]` is `git_dir`.
    CandidateSamePath {
        git_dir: String,
        worktrees: Vec<String>,
        index: usize,
        candidate: String,
    },
    /// Asking for the path's position below the top of its worktree.
    ShowPrefix,
    /// Asking for the top of the path's worktree.
    Toplevel,
    /// Finished: the worktree of the repository found, or `None` when the
    /// path names no repository that this backend serves.
    Done(Result<Option<String>, ModifyGuardError>),
}

/// What a [`GitCliProbe`] needs next.
#[derive(Debug)]
pub enum ProbeAction {
    /// Run `git` with `args` in the directory `dir`, and report what it did
    /// with [`GitCliProbe::ran`].
    Run { dir: String, args: Vec<String> },
    /// Report with [`GitCliProbe::compared`] whether `first` and `second`
    /// name the same file-system entry.
    ComparePaths { first: String, second: String },
    /// Nothing: the probe is finished.
    Finished,
}

/// What a [`ProbeAction`] holds.
pub enum ProbeActionView {
    Run { dir: Seq<char>, args: Seq<Seq<char>> },
    ComparePaths { first: Seq<char>, second: Seq<char> },
    Finished,
}

impl View for ProbeAction {
    type V = ProbeActionView;

    open spec fn view(&self) -> ProbeActionView {
        match self {
            ProbeAction::Run { dir, args } => ProbeActionView::Run { dir: dir@, args: texts(args@) },
            ProbeAction::ComparePaths { first, second } => ProbeActionView::ComparePaths {
                first: first@,
                second: second@,
            },
            ProbeAction::Finished => ProbeActionView::Finished,
        }
    }
}

/// `git rev-parse` with one option.
pub open spec fn rev_parse(option: Seq<char>) -> Seq<Seq<char>> {
    seq!["rev-parse"@, option]
}

/// The option that points `git` at the administrative directory `git_dir`.
pub open spec fn git_dir_option(git_dir: Seq<char>) -> Seq<char> {
    "--git-dir="@ + git_dir
}

/// The query for the common administrative directory of `git_dir`.
pub open spec fn common_dir_args(git_dir: Seq<char>) -> Seq<Seq<char>> {
    seq![git_dir_option(git_dir), "rev-parse"@, "--git-common-dir"@]
}

/// The query for the worktrees of the common administrative directory
/// `common_dir`.
pub open spec fn worktree_list_args(common_dir: Seq<char>) -> Seq<Seq<char>> {
    seq![git_dir_option(common_dir), "worktree"@, "list"@, "--porcelain"@, "-z"@]
}

/// What a probe at `stage`, probing `path`, needs next.
pub open spec fn action_for(path: Seq<char>, stage: ProbeStage) -> ProbeActionView {
    match stage {
        ProbeStage::IsBare => ProbeActionView::Run {
            dir: path,
            args: rev_parse("--is-bare-repository"@),
        },
        ProbeStage::BareGitDir => ProbeActionView::Run {
            dir: path,
            args: rev_parse("--absolute-git-dir"@),
        },
        ProbeStage::BareSamePath { git_dir } => ProbeActionView::ComparePaths {
            first: git_dir@,
            second: path,
        },
        ProbeStage::InsideGitDir => ProbeActionView::Run {
            dir: path,
            args: rev_parse("--is-inside-git-dir"@),
        },
        ProbeStage::GitDir => ProbeActionView::Run { dir: path, args: rev_parse("--absolute-git-dir"@) },
        ProbeStage::GitDirSamePath { git_dir } => ProbeActionView::ComparePaths {
            first: git_dir@,
            second: path,
        },
        ProbeStage::CommonDir { git_dir, query_dir } => ProbeActionView::Run {
            dir: query_dir@,
            args: common_dir_args(git_dir@),
        },
        ProbeStage::WorktreeList { common_dir, query_dir, .. } => ProbeActionView::Run {
            dir: query_dir@,
            args: worktree_list_args(common_dir@),
        },
        ProbeStage::CandidateGitDir { worktrees, index, .. } => ProbeActionView::Run {
            dir: worktrees@[index as int]@,
            args: rev_parse("--absolute-git-dir"@),
        },
        ProbeStage::CandidateSamePath { git_dir, candidate, .. } => ProbeActionView::ComparePaths {
            first: candidate@,
            second: git_dir@,
        },
        ProbeStage::ShowPrefix => ProbeActionView::Run { dir: path, args: rev_parse("--show-prefix"@) },
        ProbeStage::Toplevel => ProbeActionView::Run { dir: path, args: rev_parse("--show-toplevel"@) },
        ProbeStage::Done(_) => ProbeActionView::Finished,
    }
}

/// The stages that wait for a comparison of two paths.
pub open spec fn compares_paths(stage: ProbeStage) -> bool {
    stage is BareSamePath || stage is GitDirSamePath || stage is CandidateSamePath
}

/// The stages that wait for a `git` command: all but those that compare
/// paths and the last.
pub open spec fn runs_git(stage: ProbeStage) -> bool {
    !compares_paths(stage) && !(stage is Done)
}

/// The boolean that `git rev-parse` printed: `true` or `false`, with an
/// optional trailing newline.
pub open spec fn bool_reply(stdout: Seq<u8>) -> Option<bool> {
    if trimmed(stdout) == seq![0x74u8, 0x72u8, 0x75u8, 0x65u8] {
        Some(true)
    } else if trimmed(stdout) == seq![0x66u8, 0x61u8, 0x6cu8, 0x73u8, 0x65u8] {
        Some(false)
    } else {
        None
    }
}

/// The path that `git rev-parse` printed, with an optional trailing
/// newline, when it is valid UTF-8.
pub open spec fn path_reply(stdout: Seq<u8>) -> Option<Seq<char>> {
    if valid_utf8(trimmed(stdout)) {
        Some(decode_utf8(trimmed(stdout)))
    } else {
        None
    }
}

/// The probe finished with the backend error `e`.
pub open spec fn failed(next: ProbeStage, e: GitCliBackendError) -> bool {
    next == ProbeStage::Done(Err(ModifyGuardError::Backend { source: BackendError::GitCli(e) }))
}

/// The probe finished because `git` could not be run with `args`.
pub open spec fn command_failed(next: ProbeStage, source: std::io::Error, args: Seq<Seq<char>>) -> bool {
    next matches ProbeStage::Done(
        Err(
            ModifyGuardError::Backend {
                source: BackendError::GitCli(
                    GitCliBackendError::GitCommand { source: s, program, args: a },
                ),
            },
        ),
    ) && s == source && program@ == "git"@ && texts(a@) == args
}

/// The probe finished because `git` exited with the code `code`.
pub open spec fn exit_failed(next: ProbeStage, code: Option<i32>) -> bool {
    next matches ProbeStage::Done(
        Err(
            ModifyGuardError::Backend {
                source: BackendError::GitCli(GitCliBackendError::GitExitStatus { code: c }),
            },
        ),
    ) && c == code
}

/// The probe finished because `git rev-parse` printed `stdout`, which is
/// not a boolean.
pub open spec fn not_a_bool(next: ProbeStage, stdout: Seq<u8>) -> bool {
    next matches ProbeStage::Done(
        Err(
            ModifyGuardError::Backend {
                source: BackendError::GitCli(GitCliBackendError::InvalidRevParse { output }),
            },
        ),
    ) && output@ == trimmed(stdout)
}

/// The probe finished because `git` printed a path that is not valid
/// UTF-8.
pub open spec fn not_utf8(next: ProbeStage) -> bool {
    next matches ProbeStage::Done(
        Err(ModifyGuardError::Backend { source: BackendError::GitCli(GitCliBackendError::InvalidUtf8) }),
    )
}

/// The probe finished: `path` is in a repository without a worktree.
pub open spec fn without_worktree(next: ProbeStage, path: Seq<char>) -> bool {
    next matches ProbeStage::Done(Err(ModifyGuardError::RepositoryWithoutWorktree { path: p }))
        && p@ == path
}

/// The probe finished without finding a repository.
pub open spec fn not_found(next: ProbeStage) -> bool {
    next matches ProbeStage::Done(Ok(None))
}

/// The probe goes on to find the worktree of the administrative directory
/// `git_dir`, asking from its parent for the common administrative
/// directory, or stops when `git_dir` has no parent.
pub open spec fn enters_git_dir(next: ProbeStage, git_dir: Seq<char>) -> bool {
    match parent_path(git_dir) {
        Some(q) => next matches ProbeStage::CommonDir { git_dir: g, query_dir } && g@ == git_dir
            && query_dir@ == q,
        None => next matches ProbeStage::Done(
            Err(
                ModifyGuardError::Backend {
                    source: BackendError::GitCli(GitCliBackendError::NoGitDirParent { git_dir: g }),
                },
            ),
        ) && g@ == git_dir,
    }
}

/// The probe goes on to list, from its parent, the worktrees of the common
/// administrative directory: `reported`, as `git` printed it, taken from
/// `query_dir`. It is still looking for the worktree of `git_dir`, and
/// stops when the common directory has no parent.
pub open spec fn lists_worktrees(
    next: ProbeStage,
    git_dir: Seq<char>,
    query_dir: Seq<char>,
    reported: Seq<char>,
) -> bool {
    let common = joined_path(query_dir, reported);
    match parent_path(common) {
        Some(q) => next matches ProbeStage::WorktreeList { git_dir: g, common_dir, query_dir: l }
            && g@ == git_dir && common_dir@ == common && l@ == q,
        None => next matches ProbeStage::Done(
            Err(
                ModifyGuardError::Backend {
                    source: BackendError::GitCli(GitCliBackendError::NoGitDirParent { git_dir: c }),
                },
            ),
        ) && c@ == common,
    }
}

/// The probe tries the worktree `worktrees[index]` as the owner of
/// `git_dir`; past the last one, no worktree owns it.
pub open spec fn tries_worktree(
    next: ProbeStage,
    git_dir: Seq<char>,
    worktrees: Seq<Seq<char>>,
    index: int,
) -> bool {
    if index < worktrees.len() {
        next matches ProbeStage::CandidateGitDir { git_dir: g, worktrees: ws, index: i } && g@
            == git_dir && texts(ws@) == worktrees && i == index
    } else {
        next matches ProbeStage::Done(
            Err(
                ModifyGuardError::Backend {
                    source: BackendError::GitCli(GitCliBackendError::NoWorktreeForGitDir { git_dir: g }),
                },
            ),
        ) && g@ == git_dir
    }
}

/// The step of a probe that is opening (`opening`) or discovering from
/// `path`, at `stage`, when `git` answered with `out`: `next` is the stage
/// that follows.
pub open spec fn after_output(
    opening: bool,
    path: Seq<char>,
    stage: ProbeStage,
    out: GitOutput,
    next: ProbeStage,
) -> bool {
    let stdout = out.stdout@;
    match stage {
        ProbeStage::IsBare => if !out.success {
            not_found(next)
        } else {
            match bool_reply(stdout) {
                None => not_a_bool(next, stdout),
                Some(true) => if opening {
                    next is BareGitDir
                } else {
                    without_worktree(next, path)
                },
                Some(false) => next is InsideGitDir,
            }
        },
        _ => if !out.success {
            exit_failed(next, out.code)
        } else {
            match stage {
                ProbeStage::BareGitDir => match path_reply(stdout) {
                    None => not_utf8(next),
                    Some(g) => next matches ProbeStage::BareSamePath { git_dir } && git_dir@ == g,
                },
                ProbeStage::InsideGitDir => match bool_reply(stdout) {
                    None => not_a_bool(next, stdout),
                    Some(true) => next is GitDir,
                    Some(false) => if opening {
                        next is ShowPrefix
                    } else {
                        next is Toplevel
                    },
                },
                ProbeStage::GitDir => match path_reply(stdout) {
                    None => not_utf8(next),
                    Some(g) => if opening {
                        next matches ProbeStage::GitDirSamePath { git_dir } && git_dir@ == g
                    } else {
                        enters_git_dir(next, g)
                    },
                },
                ProbeStage::CommonDir { git_dir, query_dir } => match path_reply(stdout) {
                    None => not_utf8(next),
                    Some(reported) => lists_worktrees(next, git_dir@, query_dir@, reported),
                },
                ProbeStage::WorktreeList { git_dir, .. } => match parse_worktrees(
                    trimmed(stdout),
                    seq![],
                ) {
                    Err(()) => not_utf8(next),
                    Ok(ws) => tries_worktree(next, git_dir@, ws, 0),
                },
                ProbeStage::CandidateGitDir { git_dir, worktrees, index } => match path_reply(
                    stdout,
                ) {
                    None => not_utf8(next),
                    Some(c) => next matches ProbeStage::CandidateSamePath {
                        git_dir: g,
                        worktrees: ws,
                        index: i,
                        candidate,
                    } && g@ == git_dir@ && ws@ == worktrees@ && i == index && candidate@ == c,
                },
                ProbeStage::ShowPrefix => match path_reply(stdout) {
                    None => not_utf8(next),
                    Some(prefix) => if prefix.len() == 0 {
                        next is Toplevel
                    } else {
                        not_found(next)
                    },
                },
                ProbeStage::Toplevel => match path_reply(stdout) {
                    None => not_utf8(next),
                    Some(top) => next matches ProbeStage::Done(Ok(Some(w))) && w@ == top,
                },
                _ => false,
            }
        },
    }
}

/// The step of a probe at `stage` when comparing its two paths answered
/// `same`: `next` is the stage that follows.
pub open spec fn after_comparison(path: Seq<char>, stage: ProbeStage, same: bool, next: ProbeStage) -> bool {
    match stage {
        ProbeStage::BareSamePath { .. } => if same {
            without_worktree(next, path)
        } else {
            not_found(next)
        },
        ProbeStage::GitDirSamePath { git_dir } => if same {
            enters_git_dir(next, git_dir@)
        } else {
            not_found(next)
        },
        ProbeStage::CandidateSamePath { git_dir, worktrees, index, .. } => if same {
            next matches ProbeStage::Done(Ok(Some(w))) && w@ == worktrees@[index as int]@
        } else {
            tries_worktree(next, git_dir@, texts(worktrees@), index + 1)
        },
        _ => false,
    }
}

/// Opening or discovery of a Git repository through the `git` command
/// line tool, in progress.
///
/// The probed path, the directories that `git` prints and the worktree
/// found are UTF-8 text: a path that `git` prints and that is not valid
/// UTF-8 ends the probe with `InvalidUtf8`.
///
/// [`Self::action`] names what the probe needs next: a `git` command to
/// run, whose outcome the caller reports with [`Self::ran`], or two paths
/// to compare, reported with [`Self::compared`]. [`Self::finish`] returns
/// the worktree found once the probe is finished.
///
/// Discovery from a directory asks whether it is in a bare repository (an
/// error: such a repository has no worktree), then whether it is inside an
/// administrative directory, whose owning worktree is then looked up among
/// the worktrees that Git lists, and otherwise takes the top of its
/// worktree. Opening accepts only the top of a worktree, or the
/// administrative directory itself; a bare repository's administrative
/// directory is an error, any other path names no repository.
#[derive(Debug)]
pub struct GitCliProbe {
    opening: bool,
    path: String,
    stage: ProbeStage,
}

/// A stage whose candidate index names a listed worktree.
pub open spec fn stage_wf(stage: ProbeStage) -> bool {
    match stage {
        ProbeStage::CandidateGitDir { worktrees, index, .. } => index < worktrees@.len(),
        ProbeStage::CandidateSamePath { worktrees, index, .. } => index < worktrees@.len(),
        _ => true,
    }
}

/// The stage that tries `worktrees[index]`.
fn try_worktree(git_dir: String, worktrees: Vec<String>, index: usize) -> (r: ProbeStage)
    ensures
        tries_worktree(r, git_dir@, texts(worktrees@), index as int),
        stage_wf(r),
{
    if index < worktrees.len() {
        ProbeStage::CandidateGitDir { git_dir, worktrees, index }
    } else {
        fail(GitCliBackendError::NoWorktreeForGitDir { git_dir })
    }
}

/// The stage that finishes with the backend error `e`.
fn fail(e: GitCliBackendError) -> (r: ProbeStage)
    ensures
        failed(r, e),
{
    ProbeStage::Done(Err(ModifyGuardError::Backend { source: BackendError::GitCli(e) }))
}

/// The stage that looks for the worktree of `git_dir`.
fn enter_git_dir(git_dir: String) -> (r: ProbeStage)
    ensures
        enters_git_dir(r, git_dir@),
        stage_wf(r),
{
    match path_parent(git_dir.as_str()) {
        Some(query_dir) => ProbeStage::CommonDir { git_dir, query_dir },
        None => fail(GitCliBackendError::NoGitDirParent { git_dir }),
    }
}

impl GitCliProbe {
    /// Whether the probe opens its path, rather than discovering from it.
    pub closed spec fn opening(&self) -> bool {
        self.opening
    }

    /// The path probed.
    pub closed spec fn path(&self) -> Seq<char> {
        self.path@
    }

    /// Where the probe stands.
    pub closed spec fn stage(&self) -> ProbeStage {
        self.stage
    }

    #[verifier::type_invariant]
    spec fn inv(&self) -> bool {
        stage_wf(self.stage)
    }

    /// Starts discovering the repository that contains the directory
    /// `dir`.
    pub fn discover(dir: String) -> (r: GitCliProbe)
        ensures
            !r.opening(),
            r.path() == dir@,
            r.stage() is IsBare,
    {
        GitCliProbe { opening: false, path: dir, stage: ProbeStage::IsBare }
    }

    /// Starts opening the repository at the directory `path`.
    pub fn open(path: String) -> (r: GitCliProbe)
        ensures
            r.opening(),
            r.path() == path@,
            r.stage() is IsBare,
    {
        GitCliProbe { opening: true, path, stage: ProbeStage::IsBare }
    }

    /// Returns what the probe needs next.
    pub fn action(&self) -> (r: ProbeAction)
        ensures
            r@ == action_for(self.path(), self.stage()),
    {
        proof {
            use_type_invariant(self);
        }
        let path = &self.path;
        match &self.stage {
            ProbeStage::IsBare => rev_parse_in(path, "--is-bare-repository"),
            ProbeStage::BareGitDir => rev_parse_in(path, "--absolute-git-dir"),
            ProbeStage::BareSamePath { git_dir } => ProbeAction::ComparePaths {
                first: git_dir.clone(),
                second: path.clone(),
            },
            ProbeStage::InsideGitDir => rev_parse_in(path, "--is-inside-git-dir"),
            ProbeStage::GitDir => rev_parse_in(path, "--absolute-git-dir"),
            ProbeStage::GitDirSamePath { git_dir } => ProbeAction::ComparePaths {
                first: git_dir.clone(),
                second: path.clone(),
            },
            ProbeStage::CommonDir { git_dir, query_dir } => {
                let mut args: Vec<String> = Vec::new();
                args.push(git_dir_arg(git_dir));
                args.push("rev-parse".to_owned());
                args.push("--git-common-dir".to_owned());
                proof {
                    assert(texts(args@) =~= common_dir_args(git_dir@));
                }
                ProbeAction::Run { dir: query_dir.clone(), args }
            },
            ProbeStage::WorktreeList { common_dir, query_dir, .. } => {
                let mut args: Vec<String> = Vec::new();
                args.push(git_dir_arg(common_dir));
                args.push("worktree".to_owned());
                args.push("list".to_owned());
                args.push("--porcelain".to_owned());
                args.push("-z".to_owned());
                proof {
                    assert(texts(args@) =~= worktree_list_args(common_dir@));
                }
                ProbeAction::Run { dir: query_dir.clone(), args }
            },
            ProbeStage::CandidateGitDir { worktrees, index, .. } => rev_parse_in(
                &worktrees[*index],
                "--absolute-git-dir",
            ),
            ProbeStage::CandidateSamePath { git_dir, candidate, .. } => ProbeAction::ComparePaths {
                first: candidate.clone(),
                second: git_dir.clone(),
            },
            ProbeStage::ShowPrefix => rev_parse_in(path, "--show-prefix"),
            ProbeStage::Toplevel => rev_parse_in(path, "--show-toplevel"),
            ProbeStage::Done(_) => ProbeAction::Finished,
        }
    }

    /// Reports what the `git` command that the probe asked for did: its
    /// output, or the error that kept it from running.
    pub fn ran(self, reply: Result<GitOutput, std::io::Error>) -> (r: GitCliProbe)
        requires
            runs_git(self.stage()),
        ensures
            r.opening() == self.opening(),
            r.path() == self.path(),
            match reply {
                Err(source) => command_failed(
                    r.stage(),
                    source,
                    action_for(self.path(), self.stage())->Run_args,
                ),
                Ok(out) => after_output(self.opening(), self.path(), self.stage(), out, r.stage()),
            },
    {
        proof {
            use_type_invariant(&self);
        }
        let out = match reply {
            Err(source) => {
                let args = match self.action() {
                    ProbeAction::Run { args, .. } => args,
                    _ => Vec::new(),
                };
                let stage = fail(
                    GitCliBackendError::GitCommand { source, program: "git".to_owned(), args },
                );
                return GitCliProbe { opening: self.opening, path: self.path, stage };
            },
            Ok(out) => out,
        };
        let opening = self.opening;
        let path = self.path;
        let stage = match self.stage {
            ProbeStage::IsBare => {
                if !out.success {
                    ProbeStage::Done(Ok(None))
                } else {
                    match parse_stdout_as_bool(&out.stdout) {
                        Err(e) => fail(e),
                        Ok(true) => if opening {
                            ProbeStage::BareGitDir
                        } else {
                            ProbeStage::Done(
                                Err(ModifyGuardError::RepositoryWithoutWorktree { path: path.clone() }),
                            )
                        },
                        Ok(false) => ProbeStage::InsideGitDir,
                    }
                }
            },
            other => {
                if !out.success {
                    fail(GitCliBackendError::GitExitStatus { code: out.code })
                } else {
                    next_after_output(opening, other, &out.stdout)
                }
            },
        };
        GitCliProbe { opening, path, stage }
    }

    /// Reports whether the two paths that the probe asked to compare name
    /// the same file-system entry.
    pub fn compared(self, same: bool) -> (r: GitCliProbe)
        requires
            compares_paths(self.stage()),
        ensures
            r.opening() == self.opening(),
            r.path() == self.path(),
            after_comparison(self.path(), self.stage(), same, r.stage()),
    {
        proof {
            use_type_invariant(&self);
        }
        let opening = self.opening;
        let path = self.path;
        let stage = match self.stage {
            ProbeStage::BareSamePath { .. } => if same {
                ProbeStage::Done(Err(ModifyGuardError::RepositoryWithoutWorktree { path: path.clone() }))
            } else {
                ProbeStage::Done(Ok(None))
            },
            ProbeStage::GitDirSamePath { git_dir } => if same {
                enter_git_dir(git_dir)
            } else {
                ProbeStage::Done(Ok(None))
            },
            ProbeStage::CandidateSamePath { git_dir, worktrees, index, .. } => {
                let listed = worktrees.len();
                proof {
                    assert(index < listed);
                }
                if same {
                    ProbeStage::Done(Ok(Some(worktrees[index].clone())))
                } else {
                    try_worktree(git_dir, worktrees, index + 1)
                }
            },
            other => other,
        };
        GitCliProbe { opening, path, stage }
    }

    /// Returns the outcome of a finished probe: the worktree of the
    /// repository found, or `None` when there is none; `None` while it is
    /// not finished.
    pub fn finish(self) -> (r: Option<Result<Option<String>, ModifyGuardError>>)
        ensures
            r is Some <==> self.stage() is Done,
            r matches Some(x) ==> self.stage() == ProbeStage::Done(x),
    {
        match self.stage {
            ProbeStage::Done(x) => Some(x),
            _ => None,
        }
    }
}

/// `--git-dir=` followed by `git_dir`.
fn git_dir_arg(git_dir: &String) -> (r: String)
    ensures
        r@ == git_dir_option(git_dir@),
{
    let mut arg = "--git-dir=".to_owned();
    arg.append(git_dir.as_str());
    arg
}

/// `git rev-parse option`, run in `dir`.
fn rev_parse_in(dir: &String, option: &str) -> (r: ProbeAction)
    ensures
        r@ == (ProbeActionView::Run { dir: dir@, args: rev_parse(option@) }),
{
    let mut args: Vec<String> = Vec::new();
    args.push("rev-parse".to_owned());
    args.push(option.to_owned());
    proof {
        assert(texts(args@) =~= rev_parse(option@));
    }
    ProbeAction::Run { dir: dir.clone(), args }
}

/// The stage after a successful `git` command at `stage` (any stage that
/// runs one but the first) that printed `stdout`.
fn next_after_output(opening: bool, stage: ProbeStage, stdout: &Vec<u8>) -> (r: ProbeStage)
    requires
        runs_git(stage),
        !(stage is IsBare),
        stage_wf(stage),
    ensures
        stage_wf(r),
        forall|path: Seq<char>, code: Option<i32>|
            after_output(
                opening,
                path,
                stage,
                GitOutput { success: true, code, stdout: *stdout },
                r,
            ),
{
    match stage {
        ProbeStage::BareGitDir => match parse_stdout_as_path(stdout.as_slice()) {
            Err(e) => fail(e),
            Ok(git_dir) => ProbeStage::BareSamePath { git_dir },
        },
        ProbeStage::InsideGitDir => match parse_stdout_as_bool(stdout.as_slice()) {
            Err(e) => fail(e),
            Ok(true) => ProbeStage::GitDir,
            Ok(false) => if opening {
                ProbeStage::ShowPrefix
            } else {
                ProbeStage::Toplevel
            },
        },
        ProbeStage::GitDir => match parse_stdout_as_path(stdout.as_slice()) {
            Err(e) => fail(e),
            Ok(git_dir) => if opening {
                ProbeStage::GitDirSamePath { git_dir }
            } else {
                enter_git_dir(git_dir)
            },
        },
        ProbeStage::CommonDir { git_dir, query_dir } => match parse_stdout_as_path(stdout.as_slice()) {
            Err(e) => fail(e),
            Ok(reported) => {
                let common_dir = path_join(query_dir.as_str(), reported.as_str());
                match path_parent(common_dir.as_str()) {
                    Some(list_dir) => ProbeStage::WorktreeList { git_dir, common_dir, query_dir: list_dir },
                    None => fail(GitCliBackendError::NoGitDirParent { git_dir: common_dir }),
                }
            },
        },
        ProbeStage::WorktreeList { git_dir, .. } => match parse_worktree_list_porcelain(
            trim_trailing_newline(stdout.as_slice()),
        ) {
            Err(e) => fail(e),
            Ok(worktrees) => try_worktree(git_dir, worktrees, 0),
        },
        ProbeStage::CandidateGitDir { git_dir, worktrees, index } => match parse_stdout_as_path(
            stdout.as_slice(),
        ) {
            Err(e) => fail(e),
            Ok(candidate) => ProbeStage::CandidateSamePath { git_dir, worktrees, index, candidate },
        },
        ProbeStage::ShowPrefix => match parse_stdout_as_path(stdout.as_slice()) {
            Err(e) => fail(e),
            Ok(prefix) => if prefix.as_str().is_empty() {
                ProbeStage::Toplevel
            } else {
                ProbeStage::Done(Ok(None))
            },
        },
        ProbeStage::Toplevel => match parse_stdout_as_path(stdout.as_slice()) {
            Err(e) => fail(e),
            Ok(top) => ProbeStage::Done(Ok(Some(top))),
        },
        other => other,
    }
}

} // verus!
