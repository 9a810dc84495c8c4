use vcs_modify_guard::path_order::path_less;

#[test]
fn path_less_compares_by_components() {
    assert!(path_less(b"a", b"b"));
    assert!(!path_less(b"b", b"a"));
    assert!(path_less(b"a", b"a/b"));
    assert!(path_less(b"a/z", b"a-b"));
    assert!(path_less(b"a/b", b"a!"));
    assert!(!path_less(b"a", b"a"));
    assert!(path_less(b"", b"a"));
    assert!(path_less(b"dir/x", b"dir0"));
}
