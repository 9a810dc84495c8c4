# vcs_modify_guard

Help CLI tools decide whether it is safe to modify files in a VCS working
tree: `cargo fix`-style `--allow-dirty`, `--allow-staged` and
`--allow-no-vcs` checks, verified with Verus.

## Layout

- `src/` — the verified library.
  - `allow_options.rs`: the options, the verdict of a check and its
    reasons, the check itself as a `SafetyCheck` step machine, and the laws
    of the policy (what each option allows, that more options never block,
    which files a reason names).
  - `repository.rs`: file changes, change sets ordered by path, their
    iterators, and the aggregate status views.
  - `path_order.rs`: the order of worktree-relative paths.
  - `util.rs`: normalization of paths to worktree-relative form, as a
    `PathNormalizer` step machine.
  - `vcs/git_libgit2.rs`: what the `libgit2` backend computes from status
    bits and lookups; the bits are read through `git2::Status`.
  - `vcs/git_cli.rs`: parsers of `git status`, `git rev-parse` and
    `git worktree list` output.
  - `vcs/git_cli_backend.rs`: the queries of the `git` command line backend
    and what their output means, with opening and discovery as a
    `GitCliProbe` step machine.
  - `error.rs`: the errors.
- `app/` — the I/O around the library: file-system checks, canonicalization,
  `libgit2` repository access, running `git`, and the loops that drive the
  step machines.
- `tests/` — tests of the library on concrete values.

## Paths

Paths of changed files are kept as bytes, whatever their encoding. The
paths of worktrees, administrative directories and queried paths are held as
UTF-8 text: a repository whose worktree path is not valid UTF-8 is refused
(the library cannot build a platform path from raw bytes).
