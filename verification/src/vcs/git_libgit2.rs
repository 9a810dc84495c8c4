//! What the `libgit2` backend computes from the answers of `libgit2`.
//!
//! The backend asks `libgit2` for status entries and single-file statuses;
//! this module turns those answers into file changes and change sets.
use vstd::prelude::*;
use vstd::slice::slice_to_vec;
use vstd::utf8::encode_utf8;

use crate::error::{BackendError, Libgit2BackendError, ModifyGuardError};
use crate::repository::{
    arranges, change_views, distinct_paths, FileChange, FileChangeView, RepositoryChanges,
    StatusFlags, StatusFlagsView,
};
use crate::util::{path_bytes, NormalizedWorktreePath};

verus! {

/// `git2::Status::is_wt_new`: whether the status has the `WT_NEW` bit
/// (`1 << 7`).
#[verifier::external_body]
fn status_is_wt_new(bits: u32) -> (r: bool)
    ensures
        r == (bits & 0x80u32 != 0),
{
    git2::Status::from_bits_retain(bits).is_wt_new()
}

/// `git2::Status::is_wt_modified`: whether the status has the `WT_MODIFIED`
/// bit (`1 << 8`).
#[verifier::external_body]
fn status_is_wt_modified(bits: u32) -> (r: bool)
    ensures
        r == (bits & 0x100u32 != 0),
{
    git2::Status::from_bits_retain(bits).is_wt_modified()
}

/// `git2::Status::is_wt_deleted`: whether the status has the `WT_DELETED`
/// bit (`1 << 9`).
#[verifier::external_body]
fn status_is_wt_deleted(bits: u32) -> (r: bool)
    ensures
        r == (bits & 0x200u32 != 0),
{
    git2::Status::from_bits_retain(bits).is_wt_deleted()
}

/// `git2::Status::is_wt_typechange`: whether the status has the
/// `WT_TYPECHANGE` bit (`1 << 10`).
#[verifier::external_body]
fn status_is_wt_typechange(bits: u32) -> (r: bool)
    ensures
        r == (bits & 0x400u32 != 0),
{
    git2::Status::from_bits_retain(bits).is_wt_typechange()
}

/// `git2::Status::is_wt_renamed`: whether the status has the `WT_RENAMED`
/// bit (`1 << 11`).
#[verifier::external_body]
fn status_is_wt_renamed(bits: u32) -> (r: bool)
    ensures
        r == (bits & 0x800u32 != 0),
{
    git2::Status::from_bits_retain(bits).is_wt_renamed()
}

/// `git2::Status::is_index_new`: whether the status has the `INDEX_NEW`
/// bit (`1 << 0`).
#[verifier::external_body]
fn status_is_index_new(bits: u32) -> (r: bool)
    ensures
        r == (bits & 0x1u32 != 0),
{
    git2::Status::from_bits_retain(bits).is_index_new()
}

/// `git2::Status::is_index_modified`: whether the status has the
/// `INDEX_MODIFIED` bit (`1 << 1`).
#[verifier::external_body]
fn status_is_index_modified(bits: u32) -> (r: bool)
    ensures
        r == (bits & 0x2u32 != 0),
{
    git2::Status::from_bits_retain(bits).is_index_modified()
}

/// `git2::Status::is_index_deleted`: whether the status has the
/// `INDEX_DELETED` bit (`1 << 2`).
#[verifier::external_body]
fn status_is_index_deleted(bits: u32) -> (r: bool)
    ensures
        r == (bits & 0x4u32 != 0),
{
    git2::Status::from_bits_retain(bits).is_index_deleted()
}

/// `git2::Status::is_index_renamed`: whether the status has the
/// `INDEX_RENAMED` bit (`1 << 3`).
#[verifier::external_body]
fn status_is_index_renamed(bits: u32) -> (r: bool)
    ensures
        r == (bits & 0x8u32 != 0),
{
    git2::Status::from_bits_retain(bits).is_index_renamed()
}

/// `git2::Status::is_index_typechange`: whether the status has the
/// `INDEX_TYPECHANGE` bit (`1 << 4`).
#[verifier::external_body]
fn status_is_index_typechange(bits: u32) -> (r: bool)
    ensures
        r == (bits & 0x10u32 != 0),
{
    git2::Status::from_bits_retain(bits).is_index_typechange()
}

/// The flags of a file whose `libgit2` status bits are `bits`: a new file in
/// the worktree is untracked; otherwise worktree changes (modification,
/// deletion, type change, rename) make it modified and index changes make it
/// staged.
pub open spec fn flags_of_status(bits: u32) -> StatusFlagsView {
    if bits & 0x80u32 != 0 {
        StatusFlagsView { modified: false, staged: false, untracked: true }
    } else {
        StatusFlagsView {
            modified: bits & 0xf00u32 != 0,
            staged: bits & 0x1fu32 != 0,
            untracked: false,
        }
    }
}

impl StatusFlags {
    /// The flags of a file whose `libgit2` status bits are `bits`.
    pub fn from_status_bits(bits: u32) -> (r: StatusFlags)
        ensures
            r@ == flags_of_status(bits),
    {
        if status_is_wt_new(bits) {
            return StatusFlags::untracked();
        }
        let modified = status_is_wt_modified(bits) || status_is_wt_deleted(bits)
            || status_is_wt_renamed(bits) || status_is_wt_typechange(bits);
        let staged = status_is_index_new(bits) || status_is_index_modified(bits)
            || status_is_index_deleted(bits) || status_is_index_renamed(bits)
            || status_is_index_typechange(bits);
        proof {
            assert((bits & 0x100u32 != 0 || bits & 0x200u32 != 0 || bits & 0x800u32 != 0 || bits
                & 0x400u32 != 0) == (bits & 0xf00u32 != 0)) by (bit_vector);
            assert((bits & 0x1u32 != 0 || bits & 0x2u32 != 0 || bits & 0x4u32 != 0 || bits & 0x8u32
                != 0 || bits & 0x10u32 != 0) == (bits & 0x1fu32 != 0)) by (bit_vector);
        }
        StatusFlags::versioned(modified, staged)
    }
}

/// The change a file at `path` with flags `flags` makes, if any.
pub open spec fn change_of(path: Seq<u8>, flags: StatusFlagsView) -> Option<FileChangeView> {
    if flags.modified || flags.staged || flags.untracked {
        Some(
            FileChangeView {
                path,
                modified: flags.modified,
                staged: flags.staged,
                untracked: flags.untracked,
            },
        )
    } else {
        None
    }
}

/// A status entry as `libgit2` reports it: the bytes of its path and its
/// status bits.
#[derive(Debug)]
pub struct StatusRecord {
    /// The worktree-relative path.
    pub path: Vec<u8>,
    /// The status bits.
    pub bits: u32,
}

/// What a [`StatusRecord`] holds.
pub struct StatusRecordView {
    pub path: Seq<u8>,
    pub bits: u32,
}

impl View for StatusRecord {
    type V = StatusRecordView;

    open spec fn view(&self) -> StatusRecordView {
        StatusRecordView { path: self.path@, bits: self.bits }
    }
}

/// The changes that a list of status entries makes, in its order: clean
/// entries are left out.
pub open spec fn changes_of_records(s: Seq<StatusRecordView>) -> Seq<FileChangeView>
    decreases s.len(),
{
    if s.len() == 0 {
        seq![]
    } else {
        let rest = changes_of_records(s.drop_last());
        match change_of(s.last().path, flags_of_status(s.last().bits)) {
            Some(c) => rest.push(c),
            None => rest,
        }
    }
}

/// The views of a list of status entries.
pub open spec fn record_views(s: Seq<StatusRecord>) -> Seq<StatusRecordView> {
    s.map_values(|r: StatusRecord| r@)
}

/// Turns status entries into file changes, in order, leaving out clean
/// entries.
pub fn file_changes_from_statuses(records: &Vec<StatusRecord>) -> (r: Vec<FileChange>)
    ensures
        change_views(r@) == changes_of_records(record_views(records@)),
{
    let ghost all = record_views(records@);
    let mut out: Vec<FileChange> = Vec::new();
    let mut i: usize = 0;
    while i < records.len()
        invariant
            i <= records@.len(),
            all == record_views(records@),
            change_views(out@) == changes_of_records(all.take(i as int)),
        decreases records@.len() - i,
    {
        proof {
            assert(all.take(i + 1).drop_last() =~= all.take(i as int));
            assert(all.take(i + 1).last() == records@[i as int]@);
        }
        let ghost before = out@;
        let flags = StatusFlags::from_status_bits(records[i].bits);
        match flags.build(slice_to_vec(records[i].path.as_slice())) {
            Some(change) => {
                out.push(change);
                proof {
                    assert(change_views(out@) =~= change_views(before).push(out@.last()@));
                }
            },
            None => {},
        }
        i = i + 1;
    }
    proof {
        assert(all.take(records@.len() as int) =~= all);
    }
    out
}

/// What a directory status query finds: `files` are the changes found; a
/// query of a path that does not exist in the worktree must find some
/// change, or the path is not found.
pub fn directory_changes(files: Vec<FileChange>, path: Option<NormalizedWorktreePath>) -> (r: Result<
    Option<RepositoryChanges>,
    ModifyGuardError,
>)
    requires
        distinct_paths(change_views(files@)),
    ensures
        files@.len() == 0 && path is Some && !path->0@.existing ==> (r matches Err(
            ModifyGuardError::PathNotFound { path: e },
        ) && e@ == path->0@.path),
        !(files@.len() == 0 && path is Some && !path->0@.existing) ==> (r matches Ok(c) && (c is None
            <==> files@.len() == 0) && (c matches Some(c) ==> arranges(c@, change_views(files@)))),
{
    if files.len() == 0 {
        if let Some(NormalizedWorktreePath::Missing(p)) = path {
            return Err(ModifyGuardError::PathNotFound { path: p });
        }
    }
    Ok(RepositoryChanges::new(files))
}

/// What `libgit2` answered when asked for a repository.
#[derive(Debug)]
pub enum RepositoryLookup {
    /// A repository: the root of its worktree, when it has one, and its
    /// administrative directory.
    Found { workdir: Option<String>, git_dir: String },
    /// No repository.
    NotFound,
    /// The lookup failed.
    Failed(git2::Error),
}

/// The worktree of the repository found by discovery from `path`, or
/// `None` when there is none. A repository without a worktree is an error
/// naming its administrative directory.
pub fn discovered_worktree(path: &str, lookup: RepositoryLookup) -> (r: Result<
    Option<String>,
    ModifyGuardError,
>)
    ensures
        match lookup {
            RepositoryLookup::Found { workdir: Some(w), .. } => r matches Ok(Some(x)) && x@ == w@,
            RepositoryLookup::Found { workdir: None, git_dir } => r matches Err(
                ModifyGuardError::RepositoryWithoutWorktree { path: p },
            ) && p@ == git_dir@,
            RepositoryLookup::NotFound => r matches Ok(None),
            RepositoryLookup::Failed(source) => r matches Err(
                ModifyGuardError::Backend {
                    source: BackendError::Libgit2(Libgit2BackendError::Discover { path: p, source: s }),
                },
            ) && p@ == path@ && s == source,
        },
{
    match lookup {
        RepositoryLookup::Found { workdir: Some(w), .. } => Ok(Some(w)),
        RepositoryLookup::Found { workdir: None, git_dir } => Err(
            ModifyGuardError::RepositoryWithoutWorktree { path: git_dir },
        ),
        RepositoryLookup::NotFound => Ok(None),
        RepositoryLookup::Failed(source) => Err(
            ModifyGuardError::Backend {
                source: BackendError::Libgit2(
                    Libgit2BackendError::Discover { path: path.to_owned(), source },
                ),
            },
        ),
    }
}

/// The worktree of the repository opened at `path`. A path that is no
/// repository is not one; a repository without a worktree is an error
/// naming its administrative directory.
pub fn opened_worktree(path: &str, lookup: RepositoryLookup) -> (r: Result<String, ModifyGuardError>)
    ensures
        match lookup {
            RepositoryLookup::Found { workdir: Some(w), .. } => r matches Ok(x) && x@ == w@,
            RepositoryLookup::Found { workdir: None, git_dir } => r matches Err(
                ModifyGuardError::RepositoryWithoutWorktree { path: p },
            ) && p@ == git_dir@,
            RepositoryLookup::NotFound => r matches Err(ModifyGuardError::NotARepository { path: p })
                && p@ == path@,
            RepositoryLookup::Failed(source) => r matches Err(
                ModifyGuardError::Backend {
                    source: BackendError::Libgit2(Libgit2BackendError::Open { path: p, source: s }),
                },
            ) && p@ == path@ && s == source,
        },
{
    match lookup {
        RepositoryLookup::Found { workdir: Some(w), .. } => Ok(w),
        RepositoryLookup::Found { workdir: None, git_dir } => Err(
            ModifyGuardError::RepositoryWithoutWorktree { path: git_dir },
        ),
        RepositoryLookup::NotFound => Err(ModifyGuardError::NotARepository { path: path.to_owned() }),
        RepositoryLookup::Failed(source) => Err(
            ModifyGuardError::Backend {
                source: BackendError::Libgit2(Libgit2BackendError::Open { path: path.to_owned(), source }),
            },
        ),
    }
}

/// The answer of a single-file status query.
#[derive(Debug)]
pub enum StatusLookup {
    /// The file has these status bits.
    Found(u32),
    /// `libgit2` does not know the path.
    NotFound,
    /// The query failed.
    Failed(git2::Error),
}

/// The change of a single file at the normalized `path`, from the answer of
/// its status query. A path unknown to `libgit2` is an untracked file when
/// it exists in the worktree, and not found otherwise.
pub fn file_change_from_status(path: NormalizedWorktreePath, lookup: StatusLookup) -> (r: Result<
    Option<FileChange>,
    ModifyGuardError,
>)
    ensures
        r matches Ok(Some(c)) ==> c@.path == encode_utf8(path@.path),
        lookup matches StatusLookup::Found(bits) ==> r matches Ok(c) && match c {
            Some(c) => change_of(encode_utf8(path@.path), flags_of_status(bits)) == Some(c@),
            None => change_of(encode_utf8(path@.path), flags_of_status(bits)) is None,
        },
        lookup is NotFound && path@.existing ==> (r matches Ok(Some(c)) && c@ == (FileChangeView {
            path: encode_utf8(path@.path),
            modified: false,
            staged: false,
            untracked: true,
        })),
        lookup is NotFound && !path@.existing ==> (r matches Err(
            ModifyGuardError::PathNotFound { path: e },
        ) && e@ == path@.path),
        lookup matches StatusLookup::Failed(source) ==> r matches Err(
            ModifyGuardError::Backend {
                source: BackendError::Libgit2(Libgit2BackendError::QueryFileChange { path: e, source: s }),
            },
        ) && e@ == path@.path && s == source,
{
    match lookup {
        StatusLookup::Found(bits) => Ok(
            StatusFlags::from_status_bits(bits).build(path_bytes(path.as_path())),
        ),
        StatusLookup::NotFound => match path {
            NormalizedWorktreePath::Existing(p) => Ok(StatusFlags::untracked().build(path_bytes(p.as_str()))),
            NormalizedWorktreePath::Missing(p) => Err(ModifyGuardError::PathNotFound { path: p }),
        },
        StatusLookup::Failed(source) => Err(
            ModifyGuardError::Backend {
                source: BackendError::Libgit2(
                    Libgit2BackendError::QueryFileChange { path: path.into_path(), source },
                ),
            },
        ),
    }
}

/// Which status query answers a path change query.
#[derive(Debug)]
pub enum ChangeQuery {
    /// Query the whole repository.
    Repository,
    /// Query the files under a directory path.
    Directory(NormalizedWorktreePath),
    /// Query a single file.
    File(NormalizedWorktreePath),
}

/// Chooses the status query for the normalized `path`: the worktree root is
/// the whole repository; a directory, or a path that does not exist, is
/// queried as a directory; an existing non-directory as a single file.
/// `is_dir` tells whether an existing path is a directory.
pub fn plan_path_changes(path: NormalizedWorktreePath, is_dir: bool) -> (r: ChangeQuery)
    ensures
        path@.path.len() == 0 ==> r is Repository,
        path@.path.len() != 0 && (is_dir || !path@.existing) ==> (r matches ChangeQuery::Directory(p)
            && p@ == path@),
        path@.path.len() != 0 && !is_dir && path@.existing ==> (r matches ChangeQuery::File(p) && p@
            == path@),
{
    if path.is_empty() {
        return ChangeQuery::Repository;
    }
    let existing = match &path {
        NormalizedWorktreePath::Existing(_) => true,
        NormalizedWorktreePath::Missing(_) => false,
    };
    if is_dir || !existing {
        ChangeQuery::Directory(path)
    } else {
        ChangeQuery::File(path)
    }
}

/// The change set of a single-file query: the file's change, if any.
pub fn single_file_changes(change: Option<FileChange>) -> (r: Option<RepositoryChanges>)
    ensures
        change is None ==> r is None,
        change matches Some(c) ==> r matches Some(s) && s@ == seq![c@],
{
    match change {
        None => None,
        Some(c) => {
            let ghost v = c@;
            let mut files: Vec<FileChange> = Vec::new();
            files.push(c);
            let r = RepositoryChanges::new(files);
            proof {
                let s = r.unwrap()@;
                assert(change_views(files@) =~= seq![v]);
                assert(s.contains(s[0]));
                assert(seq![v].contains(s[0]));
                assert(s =~= seq![v]);
            }
            r
        },
    }
}


/// What `libgit2` status bits mean for a file: a file new in the worktree
/// (`WT_NEW`, bit 7) is untracked and nothing else; any other file is
/// modified exactly when some worktree-change bit is set (`WT_MODIFIED`,
/// `WT_DELETED`, `WT_TYPECHANGE`, `WT_RENAMED`: bits 8 to 11), whatever its
/// index bits, and staged exactly when some index-change bit is set
/// (`INDEX_NEW`, `INDEX_MODIFIED`, `INDEX_DELETED`, `INDEX_RENAMED`,
/// `INDEX_TYPECHANGE`: bits 0 to 4), whatever its worktree bits.
pub proof fn law_status_bits_meaning(bits: u32)
    ensures
        flags_of_status(bits).untracked == (bits & 0x80u32 != 0),
        bits & 0x80u32 != 0 ==> !flags_of_status(bits).modified && !flags_of_status(bits).staged,
        bits & 0x80u32 == 0 ==> (flags_of_status(bits).modified <==> (bits & 0x100u32 != 0 || bits
            & 0x200u32 != 0 || bits & 0x400u32 != 0 || bits & 0x800u32 != 0)),
        bits & 0x80u32 == 0 ==> (flags_of_status(bits).staged <==> (bits & 0x1u32 != 0 || bits
            & 0x2u32 != 0 || bits & 0x4u32 != 0 || bits & 0x8u32 != 0 || bits & 0x10u32 != 0)),
{
    assert((bits & 0x100u32 != 0 || bits & 0x200u32 != 0 || bits & 0x400u32 != 0 || bits
        & 0x800u32 != 0) == (bits & 0xf00u32 != 0)) by (bit_vector);
    assert((bits & 0x1u32 != 0 || bits & 0x2u32 != 0 || bits & 0x4u32 != 0 || bits & 0x8u32 != 0
        || bits & 0x10u32 != 0) == (bits & 0x1fu32 != 0)) by (bit_vector);
}

/// A file with a change in the worktree is dirty whatever its index holds:
/// the change of a tracked file with any worktree-change bit is modified,
/// and staged as well when an index-change bit is set.
pub proof fn law_worktree_change_is_dirty(path: Seq<u8>, bits: u32)
    requires
        bits & 0x80u32 == 0,
        bits & 0xf00u32 != 0,
    ensures
        change_of(path, flags_of_status(bits)) matches Some(c) && c.path == path && c.modified
            && c.is_dirty() && c.staged == (bits & 0x1fu32 != 0) && !c.untracked,
{
}

} // verus!
