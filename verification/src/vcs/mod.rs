//! VCS backends: what the library computes from the answers of a VCS.
pub mod git_cli;
pub mod git_cli_backend;
pub mod git_libgit2;
