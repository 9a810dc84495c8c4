//! Parsing of the output of the `git` command line tool, and the errors
//! of the `git` command line backend.
//!
//! `git status --porcelain=v1 -z` reports one NUL-terminated entry per file:
//! a byte for the index state, a byte for the worktree state, a space, and
//! the worktree-relative path. `git worktree list --porcelain -z` reports
//! NUL-terminated attributes, among them `worktree <path>`.
use vstd::prelude::*;
use vstd::slice::slice_to_vec;
use vstd::utf8::{decode_utf8, encode_utf8, valid_utf8};

use crate::repository::{same_bytes, FileChange, FileChangeView, StatusFlags};

verus! {

/// Errors returned by `git` command line backend operations.
#[derive(Debug)]
pub enum GitCliBackendError {
    /// Executing a `git` command failed.
    GitCommand { source: std::io::Error, program: String, args: Vec<String> },
    /// A `git` command exited unsuccessfully, with this exit code when it
    /// had one.
    GitExitStatus { code: Option<i32> },
    /// Output that should name a path is not valid UTF-8.
    InvalidUtf8,
    /// An invalid entry in the output of `git status`.
    InvalidGitStatus { entry: Vec<u8> },
    /// An invalid output of `git rev-parse`.
    InvalidRevParse { output: Vec<u8> },
    /// A file query matched a different path than requested.
    AmbiguousFilePath { requested: String, actual: Vec<u8> },
    /// A repository administrative directory has no parent directory.
    NoGitDirParent { git_dir: String },
    /// No worktree listed by Git has this administrative directory.
    NoWorktreeForGitDir { git_dir: String },
}

/// `std::str::from_utf8`: the text that `bytes` encode, when they are valid
/// UTF-8.
#[verifier::external_body]
fn utf8_text(bytes: &[u8]) -> (r: Option<&str>)
    ensures
        r is Some <==> valid_utf8(bytes@),
        r matches Some(s) ==> s@ == decode_utf8(bytes@),
{
    std::str::from_utf8(bytes).ok()
}

/// The newline byte.
pub const NEWLINE: u8 = 0x0a;

/// `bytes` without one trailing newline, if there is one.
pub open spec fn trimmed(bytes: Seq<u8>) -> Seq<u8> {
    if bytes.len() > 0 && bytes.last() == NEWLINE {
        bytes.drop_last()
    } else {
        bytes
    }
}

/// Removes one trailing newline, if there is one.
pub fn trim_trailing_newline(bytes: &[u8]) -> (r: &[u8])
    ensures
        r@ == trimmed(bytes@),
{
    let n = bytes.len();
    if n > 0 && bytes[n - 1] == NEWLINE {
        let (head, _) = bytes.split_at(n - 1);
        proof {
            assert(head@ =~= bytes@.drop_last());
        }
        head
    } else {
        bytes
    }
}

/// Parses the boolean that `git rev-parse` prints: `true` or `false`, with
/// an optional trailing newline.
pub fn parse_stdout_as_bool(stdout: &[u8]) -> (r: Result<bool, GitCliBackendError>)
    ensures
        trimmed(stdout@) == seq![0x74u8, 0x72u8, 0x75u8, 0x65u8] ==> (r matches Ok(b) && b),
        trimmed(stdout@) == seq![0x66u8, 0x61u8, 0x6cu8, 0x73u8, 0x65u8] ==> (r matches Ok(b) && !b),
        trimmed(stdout@) != seq![0x74u8, 0x72u8, 0x75u8, 0x65u8] && trimmed(stdout@) != seq![
            0x66u8,
            0x61u8,
            0x6cu8,
            0x73u8,
            0x65u8,
        ] ==> (r matches Err(GitCliBackendError::InvalidRevParse { output }) && output@ == trimmed(
            stdout@,
        )),
{
    let s = trim_trailing_newline(stdout);
    if s.len() == 4 && s[0] == 0x74 && s[1] == 0x72 && s[2] == 0x75 && s[3] == 0x65 {
        proof {
            assert(s@ =~= seq![0x74u8, 0x72u8, 0x75u8, 0x65u8]);
        }
        return Ok(true);
    }
    if s.len() == 5 && s[0] == 0x66 && s[1] == 0x61 && s[2] == 0x6c && s[3] == 0x73 && s[4]
        == 0x65 {
        proof {
            assert(s@ =~= seq![0x66u8, 0x61u8, 0x6cu8, 0x73u8, 0x65u8]);
        }
        return Ok(false);
    }
    Err(GitCliBackendError::InvalidRevParse { output: vstd::slice::slice_to_vec(s) })
}

/// Parses the path that a `git rev-parse` query prints, with an optional
/// trailing newline. The library holds such paths (worktrees and
/// administrative directories) as UTF-8 text, so a path that is not valid
/// UTF-8 is an error, even where the platform could name it.
pub fn parse_stdout_as_path(stdout: &[u8]) -> (r: Result<String, GitCliBackendError>)
    ensures
        valid_utf8(trimmed(stdout@)) ==> (r matches Ok(p) && p@ == decode_utf8(trimmed(stdout@))),
        !valid_utf8(trimmed(stdout@)) ==> r matches Err(GitCliBackendError::InvalidUtf8),
{
    let s = trim_trailing_newline(stdout);
    match utf8_text(s) {
        Some(text) => Ok(text.to_owned()),
        None => Err(GitCliBackendError::InvalidUtf8),
    }
}

/// The state of a file in the index or in the worktree, as `git status`
/// reports it.
#[derive(Debug, Clone, Copy, PartialEq, Eq, Structural)]
pub enum ChangeKind {
    Unmodified,
    Modified,
    TypeChanged,
    Added,
    Deleted,
    Renamed,
    Copied,
    UpdatedButUnmerged,
    Untracked,
}

/// The state that a status byte denotes.
pub open spec fn kind_of_byte(c: u8) -> Option<ChangeKind> {
    if c == 0x20 {
        Some(ChangeKind::Unmodified)
    } else if c == 0x4d {
        Some(ChangeKind::Modified)
    } else if c == 0x54 {
        Some(ChangeKind::TypeChanged)
    } else if c == 0x41 {
        Some(ChangeKind::Added)
    } else if c == 0x44 {
        Some(ChangeKind::Deleted)
    } else if c == 0x52 {
        Some(ChangeKind::Renamed)
    } else if c == 0x43 {
        Some(ChangeKind::Copied)
    } else if c == 0x55 {
        Some(ChangeKind::UpdatedButUnmerged)
    } else if c == 0x3f {
        Some(ChangeKind::Untracked)
    } else {
        None
    }
}

impl ChangeKind {
    /// The state that a status byte denotes: ` `, `M`, `T`, `A`, `D`, `R`,
    /// `C`, `U` or `?`.
    pub fn from_byte(c: u8) -> (r: Option<ChangeKind>)
        ensures
            r == kind_of_byte(c),
    {
        match c {
            0x20 => Some(ChangeKind::Unmodified),
            0x4d => Some(ChangeKind::Modified),
            0x54 => Some(ChangeKind::TypeChanged),
            0x41 => Some(ChangeKind::Added),
            0x44 => Some(ChangeKind::Deleted),
            0x52 => Some(ChangeKind::Renamed),
            0x43 => Some(ChangeKind::Copied),
            0x55 => Some(ChangeKind::UpdatedButUnmerged),
            0x3f => Some(ChangeKind::Untracked),
            _ => None,
        }
    }
}

/// One entry of `git status` output.
#[derive(Debug, PartialEq, Eq)]
pub struct StatusEntry {
    /// The state in the index.
    pub index: ChangeKind,
    /// The state in the worktree.
    pub worktree: ChangeKind,
    /// The worktree-relative path.
    pub wt_path: Vec<u8>,
}

/// What a [`StatusEntry`] holds.
pub struct StatusEntryView {
    pub index: ChangeKind,
    pub worktree: ChangeKind,
    pub wt_path: Seq<u8>,
}

impl View for StatusEntry {
    type V = StatusEntryView;

    open spec fn view(&self) -> StatusEntryView {
        StatusEntryView { index: self.index, worktree: self.worktree, wt_path: self.wt_path@ }
    }
}

impl Clone for StatusEntry {
    fn clone(&self) -> (r: Self)
        ensures
            r@ == self@,
    {
        StatusEntry { index: self.index, worktree: self.worktree, wt_path: slice_to_vec(self.wt_path.as_slice()) }
    }
}

/// What one NUL-separated field of `git status` output makes.
pub enum FieldParse {
    /// Nothing: an empty field.
    Skip,
    /// A status entry.
    Entry(StatusEntryView),
    /// The field is not a valid entry.
    Invalid,
}

/// The parse of one field of `git status` output: two state bytes, a
/// space, and the path.
pub open spec fn parse_field(field: Seq<u8>) -> FieldParse {
    if field.len() == 0 {
        FieldParse::Skip
    } else if field.len() < 3 || kind_of_byte(field[0]) is None || kind_of_byte(field[1]) is None
        || field[2] != 0x20 {
        FieldParse::Invalid
    } else {
        FieldParse::Entry(
            StatusEntryView {
                index: kind_of_byte(field[0])->0,
                worktree: kind_of_byte(field[1])->0,
                wt_path: field.skip(3),
            },
        )
    }
}

/// The parse of a field followed by the parse of the rest: an invalid field
/// is the error, whatever follows it.
pub open spec fn then_parse(field: Seq<u8>, rest: Result<Seq<StatusEntryView>, Seq<u8>>) -> Result<
    Seq<StatusEntryView>,
    Seq<u8>,
> {
    match parse_field(field) {
        FieldParse::Invalid => Err(field),
        FieldParse::Skip => rest,
        FieldParse::Entry(e) => match rest {
            Ok(es) => Ok(seq![e] + es),
            Err(x) => Err(x),
        },
    }
}

/// The parse of `bytes`, where `field` holds the bytes already read of the
/// current field: the entries in order, or the first invalid field.
pub open spec fn parse_status(bytes: Seq<u8>, field: Seq<u8>) -> Result<
    Seq<StatusEntryView>,
    Seq<u8>,
>
    decreases bytes.len(),
{
    if bytes.len() == 0 {
        then_parse(field, Ok(seq![]))
    } else if bytes[0] == 0 {
        then_parse(field, parse_status(bytes.drop_first(), seq![]))
    } else {
        parse_status(bytes.drop_first(), field.push(bytes[0]))
    }
}

/// The views of a list of status entries.
pub open spec fn entry_views(s: Seq<StatusEntry>) -> Seq<StatusEntryView> {
    s.map_values(|e: StatusEntry| e@)
}

/// Entries parsed so far, followed by what the rest parses to.
pub open spec fn after(done: Seq<StatusEntryView>, rest: Result<Seq<StatusEntryView>, Seq<u8>>) -> Result<
    Seq<StatusEntryView>,
    Seq<u8>,
> {
    match rest {
        Ok(es) => Ok(done + es),
        Err(x) => Err(x),
    }
}

/// Parses one field; `Err(())` for an invalid one.
fn parse_status_field(field: &[u8]) -> (r: Result<Option<StatusEntry>, ()>)
    ensures
        parse_field(field@) is Invalid <==> r is Err,
        parse_field(field@) is Skip <==> r matches Ok(None),
        parse_field(field@) matches FieldParse::Entry(e) ==> (r matches Ok(Some(x)) && x@ == e),
{
    if field.len() == 0 {
        return Ok(None);
    }
    if field.len() < 3 {
        return Err(());
    }
    let index = match ChangeKind::from_byte(field[0]) {
        Some(k) => k,
        None => return Err(()),
    };
    let worktree = match ChangeKind::from_byte(field[1]) {
        Some(k) => k,
        None => return Err(()),
    };
    if field[2] != 0x20 {
        return Err(());
    }
    let (_, path) = field.split_at(3);
    proof {
        assert(path@ =~= field@.skip(3));
    }
    Ok(Some(StatusEntry { index, worktree, wt_path: slice_to_vec(path) }))
}

/// Parses the output of `git status --porcelain=v1 -z`: NUL-separated
/// entries, whose paths are kept as bytes; empty fields are left out; an
/// invalid entry is an error.
pub fn parse_git_status(status: &[u8]) -> (r: Result<Vec<StatusEntry>, GitCliBackendError>)
    ensures
        parse_status(status@, seq![]) matches Ok(es) ==> (r matches Ok(v) && entry_views(v@) == es),
        parse_status(status@, seq![]) matches Err(field) ==> (r matches Err(
            GitCliBackendError::InvalidGitStatus { entry },
        ) && entry@ == field),
{
    let mut out: Vec<StatusEntry> = Vec::new();
    let mut start: usize = 0;
    let mut i: usize = 0;
    proof {
        assert(status@.skip(0) =~= status@);
        assert(status@.subrange(0, 0) =~= Seq::<u8>::empty());
        assert(entry_views(out@) =~= Seq::<StatusEntryView>::empty());
        assert(after(seq![], parse_status(status@, seq![])) == parse_status(status@, seq![])) by {
            match parse_status(status@, seq![]) {
                Ok(es) => {
                    assert(Seq::<StatusEntryView>::empty() + es =~= es);
                },
                Err(_) => {},
            }
        };
    }
    while i < status.len()
        invariant
            start <= i <= status@.len(),
            parse_status(status@, seq![]) == after(
                entry_views(out@),
                parse_status(status@.skip(i as int), status@.subrange(start as int, i as int)),
            ),
        decreases status@.len() - i,
    {
        let ghost field = status@.subrange(start as int, i as int);
        proof {
            assert(status@.skip(i as int).drop_first() =~= status@.skip(i + 1));
            assert(status@.skip(i as int)[0] == status@[i as int]);
        }
        if status[i] == 0 {
            let (_, tail) = status.split_at(start);
            let (field_bytes, _) = tail.split_at(i - start);
            proof {
                assert(field_bytes@ =~= field);
            }
            let ghost rest = parse_status(status@.skip(i + 1), seq![]);
            match parse_status_field(field_bytes) {
                Err(()) => {
                    return Err(GitCliBackendError::InvalidGitStatus { entry: vstd::slice::slice_to_vec(field_bytes) });
                },
                Ok(None) => {},
                Ok(Some(entry)) => {
                    let ghost before = entry_views(out@);
                    out.push(entry);
                    proof {
                        assert(entry_views(out@) =~= before.push(out@.last()@));
                        match rest {
                            Ok(es) => {
                                assert(before.push(out@.last()@) + es =~= before + (seq![
                                    out@.last()@,
                                ] + es));
                            },
                            Err(_) => {},
                        }
                    }
                },
            }
            start = i + 1;
            proof {
                assert(status@.subrange(start as int, i + 1) =~= Seq::<u8>::empty());
            }
        } else {
            proof {
                assert(status@.subrange(start as int, i + 1) =~= field.push(status@[i as int]));
            }
        }
        i = i + 1;
    }
    let ghost field = status@.subrange(start as int, i as int);
    let (_, field_bytes) = status.split_at(start);
    proof {
        assert(field_bytes@ =~= field);
        assert(status@.skip(i as int).len() == 0);
    }
    match parse_status_field(field_bytes) {
        Err(()) => Err(GitCliBackendError::InvalidGitStatus { entry: vstd::slice::slice_to_vec(field_bytes) }),
        Ok(None) => {
            proof {
                assert(entry_views(out@) + Seq::<StatusEntryView>::empty() =~= entry_views(out@));
            }
            Ok(out)
        },
        Ok(Some(entry)) => {
            let ghost before = entry_views(out@);
            out.push(entry);
            proof {
                assert(entry_views(out@) =~= before + (seq![out@.last()@] + Seq::<
                    StatusEntryView,
                >::empty()));
            }
            Ok(out)
        },
    }
}

/// The change that a `git status` entry makes, if any: an untracked entry
/// is an untracked file; otherwise a worktree state makes it modified and
/// an index state makes it staged.
pub open spec fn change_of_entry(e: StatusEntryView) -> Option<FileChangeView> {
    if e.index == ChangeKind::Untracked || e.worktree == ChangeKind::Untracked {
        Some(FileChangeView { path: e.wt_path, modified: false, staged: false, untracked: true })
    } else if e.worktree != ChangeKind::Unmodified || e.index != ChangeKind::Unmodified {
        Some(
            FileChangeView {
                path: e.wt_path,
                modified: e.worktree != ChangeKind::Unmodified,
                staged: e.index != ChangeKind::Unmodified,
                untracked: false,
            },
        )
    } else {
        None
    }
}

impl StatusEntry {
    /// The change that this entry makes, or `None` for a clean entry.
    pub fn build(self) -> (r: Option<FileChange>)
        ensures
            match r {
                Some(c) => change_of_entry(self@) == Some(c@),
                None => change_of_entry(self@) is None,
            },
    {
        let flags = if self.index == ChangeKind::Untracked || self.worktree == ChangeKind::Untracked {
            StatusFlags::untracked()
        } else {
            StatusFlags::versioned(
                self.worktree != ChangeKind::Unmodified,
                self.index != ChangeKind::Unmodified,
            )
        };
        flags.build(self.wt_path)
    }
}

/// Keeps the change of a single-file query only when it is for the
/// requested path: `git status` treats a missing directory path as a
/// prefix and may report a file below it.
pub fn exact_file_change(requested: &str, last_change: Option<FileChange>) -> (r: Result<
    Option<FileChange>,
    GitCliBackendError,
>)
    ensures
        last_change is None ==> r matches Ok(None),
        last_change matches Some(c) ==> (if c@.path == encode_utf8(requested@) {
            r matches Ok(Some(x)) && x@ == c@
        } else {
            r matches Err(GitCliBackendError::AmbiguousFilePath { requested: q, actual: a }) && q@
                == requested@ && a@ == c@.path
        }),
{
    match last_change {
        None => Ok(None),
        Some(change) => {
            if same_bytes(change.path(), requested.as_bytes()) {
                Ok(Some(change))
            } else {
                Err(
                    GitCliBackendError::AmbiguousFilePath {
                        requested: requested.to_owned(),
                        actual: slice_to_vec(change.path()),
                    },
                )
            }
        },
    }
}


/// The attribute name that starts a worktree record, with its space:
/// `worktree `.
pub open spec fn worktree_tag() -> Seq<u8> {
    seq![0x77u8, 0x6fu8, 0x72u8, 0x6bu8, 0x74u8, 0x72u8, 0x65u8, 0x65u8, 0x20u8]
}

/// What one field of `git worktree list --porcelain -z` output names: the
/// worktree path of a `worktree <path>` attribute (`Some(Ok(..))`), an
/// invalid path (`Some(Err(()))`), or nothing.
pub open spec fn worktree_of_field(field: Seq<u8>) -> Option<Result<Seq<char>, ()>> {
    if field.len() >= 9 && field.take(9) == worktree_tag() {
        if valid_utf8(field.skip(9)) {
            Some(Ok(decode_utf8(field.skip(9))))
        } else {
            Some(Err(()))
        }
    } else {
        None
    }
}

/// What a field followed by the rest of the output names.
pub open spec fn then_worktrees(field: Seq<u8>, rest: Result<Seq<Seq<char>>, ()>) -> Result<
    Seq<Seq<char>>,
    (),
> {
    match worktree_of_field(field) {
        None => rest,
        Some(Err(())) => Err(()),
        Some(Ok(p)) => match rest {
            Ok(ps) => Ok(seq![p] + ps),
            Err(e) => Err(e),
        },
    }
}

/// The worktree paths that `bytes` name, where `field` holds the bytes
/// already read of the current field.
pub open spec fn parse_worktrees(bytes: Seq<u8>, field: Seq<u8>) -> Result<Seq<Seq<char>>, ()>
    decreases bytes.len(),
{
    if bytes.len() == 0 {
        then_worktrees(field, Ok(seq![]))
    } else if bytes[0] == 0 {
        then_worktrees(field, parse_worktrees(bytes.drop_first(), seq![]))
    } else {
        parse_worktrees(bytes.drop_first(), field.push(bytes[0]))
    }
}

/// Paths found so far, followed by what the rest names.
pub open spec fn after_paths(done: Seq<Seq<char>>, rest: Result<Seq<Seq<char>>, ()>) -> Result<
    Seq<Seq<char>>,
    (),
> {
    match rest {
        Ok(ps) => Ok(done + ps),
        Err(e) => Err(e),
    }
}

/// The contents of a list of strings.
pub open spec fn texts(v: Seq<String>) -> Seq<Seq<char>> {
    v.map_values(|s: String| s@)
}

fn worktree_field(field: &[u8]) -> (r: Option<Result<String, ()>>)
    ensures
        match worktree_of_field(field@) {
            None => r is None,
            Some(Err(())) => r matches Some(Err(())),
            Some(Ok(p)) => r matches Some(Ok(s)) && s@ == p,
        },
{
    if field.len() < 9 || field[0] != 0x77 || field[1] != 0x6f || field[2] != 0x72 || field[3]
        != 0x6b || field[4] != 0x74 || field[5] != 0x72 || field[6] != 0x65 || field[7] != 0x65
        || field[8] != 0x20 {
        proof {
            if field@.len() >= 9 && field@.take(9) == worktree_tag() {
                assert(field@.take(9)[0] == field@[0]);
                assert(field@.take(9)[1] == field@[1]);
                assert(field@.take(9)[2] == field@[2]);
                assert(field@.take(9)[3] == field@[3]);
                assert(field@.take(9)[4] == field@[4]);
                assert(field@.take(9)[5] == field@[5]);
                assert(field@.take(9)[6] == field@[6]);
                assert(field@.take(9)[7] == field@[7]);
                assert(field@.take(9)[8] == field@[8]);
            }
        }
        return None;
    }
    proof {
        assert(field@.take(9) =~= worktree_tag());
    }
    let (_, path) = field.split_at(9);
    proof {
        assert(path@ =~= field@.skip(9));
    }
    match utf8_text(path) {
        None => Some(Err(())),
        Some(text) => Some(Ok(text.to_owned())),
    }
}

/// Parses the output of `git worktree list --porcelain -z`: the paths of
/// the `worktree <path>` attributes, in order; a path that is not valid
/// UTF-8 is an error.
pub fn parse_worktree_list_porcelain(output: &[u8]) -> (r: Result<Vec<String>, GitCliBackendError>)
    ensures
        parse_worktrees(output@, seq![]) matches Ok(ps) ==> (r matches Ok(v) && texts(v@) == ps),
        parse_worktrees(output@, seq![]) is Err ==> r matches Err(GitCliBackendError::InvalidUtf8),
{
    let mut out: Vec<String> = Vec::new();
    let mut start: usize = 0;
    let mut i: usize = 0;
    proof {
        assert(output@.skip(0) =~= output@);
        assert(output@.subrange(0, 0) =~= Seq::<u8>::empty());
        assert(texts(out@) =~= Seq::<Seq<char>>::empty());
        assert(after_paths(seq![], parse_worktrees(output@, seq![])) == parse_worktrees(
            output@,
            seq![],
        )) by {
            match parse_worktrees(output@, seq![]) {
                Ok(ps) => {
                    assert(Seq::<Seq<char>>::empty() + ps =~= ps);
                },
                Err(_) => {},
            }
        };
    }
    while i < output.len()
        invariant
            start <= i <= output@.len(),
            parse_worktrees(output@, seq![]) == after_paths(
                texts(out@),
                parse_worktrees(output@.skip(i as int), output@.subrange(start as int, i as int)),
            ),
        decreases output@.len() - i,
    {
        let ghost field = output@.subrange(start as int, i as int);
        proof {
            assert(output@.skip(i as int).drop_first() =~= output@.skip(i + 1));
            assert(output@.skip(i as int)[0] == output@[i as int]);
        }
        if output[i] == 0 {
            let (_, tail) = output.split_at(start);
            let (field_bytes, _) = tail.split_at(i - start);
            proof {
                assert(field_bytes@ =~= field);
            }
            let ghost rest = parse_worktrees(output@.skip(i + 1), seq![]);
            match worktree_field(field_bytes) {
                None => {},
                Some(Err(())) => {
                    return Err(GitCliBackendError::InvalidUtf8);
                },
                Some(Ok(path)) => {
                    let ghost before = texts(out@);
                    out.push(path);
                    proof {
                        assert(texts(out@) =~= before.push(out@.last()@));
                        match rest {
                            Ok(ps) => {
                                assert(before.push(out@.last()@) + ps =~= before + (seq![
                                    out@.last()@,
                                ] + ps));
                            },
                            Err(_) => {},
                        }
                    }
                },
            }
            start = i + 1;
            proof {
                assert(output@.subrange(start as int, i + 1) =~= Seq::<u8>::empty());
            }
        } else {
            proof {
                assert(output@.subrange(start as int, i + 1) =~= field.push(output@[i as int]));
            }
        }
        i = i + 1;
    }
    let ghost field = output@.subrange(start as int, i as int);
    let (_, field_bytes) = output.split_at(start);
    proof {
        assert(field_bytes@ =~= field);
        assert(output@.skip(i as int).len() == 0);
    }
    match worktree_field(field_bytes) {
        None => {
            proof {
                assert(texts(out@) + Seq::<Seq<char>>::empty() =~= texts(out@));
            }
            Ok(out)
        },
        Some(Err(())) => Err(GitCliBackendError::InvalidUtf8),
        Some(Ok(path)) => {
            let ghost before = texts(out@);
            out.push(path);
            proof {
                assert(texts(out@) =~= before + (seq![out@.last()@] + Seq::<Seq<char>>::empty()));
            }
            Ok(out)
        },
    }
}


/// What a `git status` entry means for a file: an entry untracked in either
/// column is an untracked file and nothing else; any other entry is
/// modified exactly when its worktree state is not unmodified, staged
/// exactly when its index state is not unmodified (a staged deletion
/// included), and is no change only when both are unmodified. The change
/// is always for the entry's whole path.
pub proof fn law_status_entry_meaning(e: StatusEntryView)
    ensures
        e.index == ChangeKind::Untracked || e.worktree == ChangeKind::Untracked ==> change_of_entry(
            e,
        ) == Some(FileChangeView { path: e.wt_path, modified: false, staged: false, untracked: true }),
        e.index != ChangeKind::Untracked && e.worktree != ChangeKind::Untracked ==> {
            &&& change_of_entry(e) is None <==> (e.index == ChangeKind::Unmodified && e.worktree
                == ChangeKind::Unmodified)
            &&& change_of_entry(e) matches Some(c) ==> c.path == e.wt_path && !c.untracked
                && c.modified == (e.worktree != ChangeKind::Unmodified) && c.staged == (e.index
                != ChangeKind::Unmodified)
        },
{
}

/// A staged change in the index (`git rm`, `git add`, ...) with a clean
/// worktree is a staged, not dirty, change of the entry's path.
pub proof fn law_index_change_is_staged(e: StatusEntryView)
    requires
        e.index != ChangeKind::Unmodified,
        e.index != ChangeKind::Untracked,
        e.worktree == ChangeKind::Unmodified,
    ensures
        change_of_entry(e) matches Some(c) && c.path == e.wt_path && c.staged && !c.is_dirty(),
{
}

/// Bytes without a NUL add to the field being read.
proof fn lemma_parse_status_no_nul(bytes: Seq<u8>, field: Seq<u8>)
    requires
        !bytes.contains(0u8),
    ensures
        parse_status(bytes, field) == then_parse(field + bytes, Ok(seq![])),
    decreases bytes.len(),
{
    if bytes.len() == 0 {
        assert(field + bytes =~= field);
    } else {
        assert(bytes[0] != 0u8) by {
            assert(bytes.contains(bytes[0]));
        };
        assert forall|c: u8| bytes.drop_first().contains(c) implies bytes.contains(c) by {
            let i = choose|i: int| 0 <= i < bytes.drop_first().len() && bytes.drop_first()[i] == c;
            assert(bytes[i + 1] == c);
        };
        lemma_parse_status_no_nul(bytes.drop_first(), field.push(bytes[0]));
        assert(field.push(bytes[0]) + bytes.drop_first() =~= field + bytes);
    }
}

/// An entry of `git status` output, followed by its NUL terminator, parses
/// to that one entry: its two states, and as its path every byte after the
/// two state bytes and the separating space, spaces included.
pub proof fn law_status_entry_keeps_whole_path(entry: Seq<u8>)
    requires
        !entry.contains(0u8),
        entry.len() >= 3,
        kind_of_byte(entry[0]) is Some,
        kind_of_byte(entry[1]) is Some,
        entry[2] == 0x20u8,
    ensures
        parse_status(entry.push(0u8), seq![]) == Ok::<Seq<StatusEntryView>, Seq<u8>>(
            seq![
                StatusEntryView {
                    index: kind_of_byte(entry[0])->0,
                    worktree: kind_of_byte(entry[1])->0,
                    wt_path: entry.subrange(3, entry.len() as int),
                },
            ],
        ),
        parse_status(entry, seq![]) == parse_status(entry.push(0u8), seq![]),
{
    lemma_parse_status_no_nul(entry, seq![]);
    assert(Seq::<u8>::empty() + entry =~= entry);
    assert(entry.skip(3) =~= entry.subrange(3, entry.len() as int));
    let with_nul = entry.push(0u8);
    assert forall|k: int| 0 <= k <= entry.len() implies parse_status(with_nul.skip(k), entry.take(k))
        == then_parse(entry, parse_status(seq![], seq![])) by {
        lemma_parse_status_tail(entry, k);
    };
    assert(with_nul.skip(0) =~= with_nul);
    assert(entry.take(0) =~= Seq::<u8>::empty());
    let r: Result<Seq<StatusEntryView>, Seq<u8>> = Ok(seq![]);
    assert(then_parse(Seq::<u8>::empty(), Ok(seq![])) == r);
    assert(seq![
        StatusEntryView {
            index: kind_of_byte(entry[0])->0,
            worktree: kind_of_byte(entry[1])->0,
            wt_path: entry.skip(3),
        },
    ] + Seq::<StatusEntryView>::empty() =~= seq![
        StatusEntryView {
            index: kind_of_byte(entry[0])->0,
            worktree: kind_of_byte(entry[1])->0,
            wt_path: entry.skip(3),
        },
    ]);
}

/// Reading the rest of an entry and its NUL terminator, after its first
/// `k` bytes, finishes that entry and then parses nothing more.
proof fn lemma_parse_status_tail(entry: Seq<u8>, k: int)
    requires
        !entry.contains(0u8),
        0 <= k <= entry.len(),
    ensures
        parse_status(entry.push(0u8).skip(k), entry.take(k)) == then_parse(
            entry,
            parse_status(seq![], seq![]),
        ),
    decreases entry.len() - k,
{
    let with_nul = entry.push(0u8);
    let rest = with_nul.skip(k);
    if k == entry.len() {
        assert(rest =~= seq![0u8]);
        assert(rest.drop_first() =~= Seq::<u8>::empty());
        assert(entry.take(k) =~= entry);
    } else {
        assert(rest[0] == entry[k]);
        assert(entry[k] != 0u8) by {
            assert(entry.contains(entry[k]));
        };
        assert(rest.drop_first() =~= with_nul.skip(k + 1));
        assert(entry.take(k).push(entry[k]) =~= entry.take(k + 1));
        lemma_parse_status_tail(entry, k + 1);
    }
}

/// A parsed entry keeps the whole of its field after the two state bytes
/// and the separating space as its path, and the states those bytes name.
pub proof fn law_status_field_path(field: Seq<u8>)
    ensures
        parse_field(field) matches FieldParse::Entry(e) ==> e.wt_path == field.skip(3) && Some(
            e.index,
        ) == kind_of_byte(field[0]) && Some(e.worktree) == kind_of_byte(field[1]) && field[2]
            == 0x20u8,
{
}

} // verus!
