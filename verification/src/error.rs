//! Errors of repository discovery and change queries.
use vstd::prelude::*;

use crate::vcs::git_cli::GitCliBackendError;

verus! {

/// An I/O error, carried as the cause of a path error.
#[verifier::external_type_specification]
#[verifier::external_body]
pub struct ExIoError(std::io::Error);

/// An error of `libgit2`, carried as the cause of a backend error.
#[verifier::external_type_specification]
#[verifier::external_body]
pub struct ExGitError(git2::Error);

/// Errors returned by `libgit2` backend operations.
#[derive(Debug)]
pub enum Libgit2BackendError {
    /// Searching for a Git repository at or above `path` failed.
    Discover { path: String, source: git2::Error },
    /// Opening the Git repository at `path` failed.
    Open { path: String, source: git2::Error },
    /// Querying the changes of the repository with this worktree failed.
    QueryRepositoryChanges { worktree: String, source: git2::Error },
    /// Querying the change of the file at `path` failed.
    QueryFileChange { path: String, source: git2::Error },
}

/// The error of the backend that failed.
#[derive(Debug)]
pub enum BackendError {
    /// The `libgit2` backend failed.
    Libgit2(Libgit2BackendError),
    /// The `git` command line backend failed.
    GitCli(GitCliBackendError),
}

/// Errors returned by repository discovery and change queries.
#[derive(Debug)]
pub enum ModifyGuardError {
    /// The path does not refer to a repository supported by the backends.
    NotARepository { path: String },
    /// The path refers to a repository without a worktree, such as a Git bare
    /// repository.
    RepositoryWithoutWorktree { path: String },
    /// The path could not be accessed.
    InaccessiblePath { path: String, source: std::io::Error },
    /// The path was not found.
    PathNotFound { path: String },
    /// The path could not be resolved to a canonical path.
    CanonicalizePath { path: String, source: std::io::Error },
    /// The path is not a directory.
    PathNotADirectory { path: String },
    /// The path does not resolve to a file.
    PathNotAFile { path: String },
    /// The path does not resolve to a valid path within the repository
    /// worktree.
    InvalidWorktreeRelativePath { path: String },
    /// The VCS backend failed.
    Backend { source: BackendError },
}

impl From<Libgit2BackendError> for ModifyGuardError {
    fn from(source: Libgit2BackendError) -> (r: ModifyGuardError)
        ensures
            r == (ModifyGuardError::Backend { source: BackendError::Libgit2(source) }),
    {
        ModifyGuardError::Backend { source: BackendError::Libgit2(source) }
    }
}

impl vstd::std_specs::convert::FromSpecImpl<Libgit2BackendError> for ModifyGuardError {
    open spec fn obeys_from_spec() -> bool {
        true
    }

    open spec fn from_spec(source: Libgit2BackendError) -> ModifyGuardError {
        ModifyGuardError::Backend { source: BackendError::Libgit2(source) }
    }
}

impl From<GitCliBackendError> for ModifyGuardError {
    fn from(source: GitCliBackendError) -> (r: ModifyGuardError)
        ensures
            r == (ModifyGuardError::Backend { source: BackendError::GitCli(source) }),
    {
        ModifyGuardError::Backend { source: BackendError::GitCli(source) }
    }
}

impl vstd::std_specs::convert::FromSpecImpl<GitCliBackendError> for ModifyGuardError {
    open spec fn obeys_from_spec() -> bool {
        true
    }

    open spec fn from_spec(source: GitCliBackendError) -> ModifyGuardError {
        ModifyGuardError::Backend { source: BackendError::GitCli(source) }
    }
}

} // verus!
