use vcs_modify_guard::error::ModifyGuardError;
use vcs_modify_guard::util::{
    push_name, worktree_relative, NormalizeStep, NormalizedWorktreePath, PathComponent,
    PathNormalizer,
};

fn components(path: &str) -> Vec<PathComponent> {
    let mut out = vec![];
    if path.starts_with('/') {
        out.push(PathComponent::RootDir);
    }
    for part in path.split('/') {
        match part {
            "" | "." => {}
            ".." => out.push(PathComponent::ParentDir),
            name => out.push(PathComponent::Normal(name.to_owned())),
        }
    }
    out
}

/// Runs a normalizer against a file system in which the paths in `existing`
/// exist, canonically.
fn normalize(path: &str, existing: &[&str]) -> Result<NormalizedWorktreePath, ModifyGuardError> {
    let comps = components(path);
    let mut normalizer = PathNormalizer::new(path.to_owned(), components(path));
    loop {
        let n = match normalizer.step() {
            NormalizeStep::Canonicalize(n) => *n,
            NormalizeStep::Done(_) => return normalizer.finish().unwrap(),
        };
        let mut prefix = String::new();
        for c in &comps[..n] {
            match c {
                PathComponent::RootDir => prefix.push('/'),
                PathComponent::Normal(name) => {
                    push_name(&mut prefix, name);
                }
                PathComponent::ParentDir => push_name(&mut prefix, ".."),
                _ => {}
            }
        }
        let found = existing.contains(&prefix.as_str()).then(|| prefix.clone());
        normalizer.canonicalized(found);
    }
}

#[test]
fn normalizer_keeps_existing_path() {
    match normalize("/w/a/b", &["/w/a/b", "/w/a", "/w", "/"]).unwrap() {
        NormalizedWorktreePath::Existing(p) => assert_eq!(p, "/w/a/b"),
        other => panic!("expected Existing, got {other:?}"),
    }
}

#[test]
fn normalizer_appends_missing_names() {
    match normalize("/w/a/X/Y/Z.txt", &["/w/a", "/w", "/"]).unwrap() {
        NormalizedWorktreePath::Missing(p) => assert_eq!(p, "/w/a/X/Y/Z.txt"),
        other => panic!("expected Missing, got {other:?}"),
    }
}

#[test]
fn normalizer_rejects_parent_dir_in_missing_suffix() {
    match normalize("/w/a/X/../../X.txt", &["/w/a", "/w", "/"]) {
        Err(ModifyGuardError::InvalidWorktreeRelativePath { path }) => {
            assert_eq!(path, "/w/a/X/../../X.txt");
        }
        other => panic!("expected InvalidWorktreeRelativePath, got {other:?}"),
    }
}

#[test]
fn normalizer_rejects_path_with_nothing_existing() {
    assert!(matches!(
        normalize("a/b", &[]),
        Err(ModifyGuardError::InvalidWorktreeRelativePath { .. })
    ));
}

#[test]
fn push_name_adds_separator_when_needed() {
    let mut p = String::new();
    push_name(&mut p, "a");
    assert_eq!(p, "a");
    push_name(&mut p, "b");
    assert_eq!(p, "a/b");
    let mut root = "/".to_owned();
    push_name(&mut root, "x");
    assert_eq!(root, "/x");
}

#[test]
fn strip_prefix_gives_worktree_relative_paths() {
    let p = NormalizedWorktreePath::Existing("/w/a/b.txt".to_owned());
    match p.strip_prefix("/w").unwrap() {
        NormalizedWorktreePath::Existing(q) => assert_eq!(q, "a/b.txt"),
        other => panic!("unexpected {other:?}"),
    }
    assert!(p.strip_prefix("/w/a/b").is_none());
    assert!(p.strip_prefix("/x").is_none());
    let root = NormalizedWorktreePath::Missing("/w".to_owned());
    match root.strip_prefix("/w").unwrap() {
        NormalizedWorktreePath::Missing(q) => assert_eq!(q, ""),
        other => panic!("unexpected {other:?}"),
    }
    let under_root = NormalizedWorktreePath::Existing("/etc".to_owned());
    match under_root.strip_prefix("/").unwrap() {
        NormalizedWorktreePath::Existing(q) => assert_eq!(q, "etc"),
        other => panic!("unexpected {other:?}"),
    }
}

#[test]
fn worktree_relative_rejects_paths_outside_the_worktree() {
    let outside = NormalizedWorktreePath::Missing("/other/X.txt".to_owned());
    match worktree_relative(&outside, "/w", "../other/X.txt") {
        Err(ModifyGuardError::InvalidWorktreeRelativePath { path }) => {
            assert_eq!(path, "../other/X.txt");
        }
        other => panic!("expected InvalidWorktreeRelativePath, got {other:?}"),
    }
    let inside = NormalizedWorktreePath::Existing("/w/a".to_owned());
    let rel = worktree_relative(&inside, "/w", "a").unwrap();
    assert_eq!(rel.as_path(), "a");
    assert!(!rel.is_empty());
}

#[test]
fn normalized_path_accessors() {
    let p = NormalizedWorktreePath::Missing(String::new());
    assert!(p.is_empty());
    assert_eq!(p.into_path(), "");
}
