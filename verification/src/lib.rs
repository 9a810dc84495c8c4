//! Help CLI tools decide whether it is safe to modify files in a VCS
//! working tree.
//!
//! The library enforces `--allow-dirty`, `--allow-staged`, and
//! `--allow-no-vcs` style checks before a tool modifies files, with the
//! semantics of `cargo fix`:
//!
//! - [`allow_options`]: the options and the check itself, run as a
//!   [`allow_options::SafetyCheck`] that names each repository query it
//!   needs and decides from the answers;
//! - [`repository`]: change sets of a worktree, ordered by path, and their
//!   file changes;
//! - [`vcs`]: what the `libgit2` and `git` command line backends compute
//!   from the answers of the VCS;
//! - [`util`]: normalization of paths to worktree-relative form;
//! - [`path_order`]: the order of worktree-relative paths;
//! - [`error`]: the errors of discovery and change queries.

pub mod allow_options;
pub mod error;
pub mod path_order;
pub mod repository;
pub mod util;
pub mod vcs;

pub use allow_options::{AllowOptions, ModificationSafety, UnsafeModificationReason};
pub use error::{BackendError, Libgit2BackendError, ModifyGuardError};
pub use vcs::git_cli::GitCliBackendError;
