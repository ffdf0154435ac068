use rinode::path::normalize_lexical;

#[test]
fn lexical_normalization() {
    assert_eq!(normalize_lexical("/a/b/../c/./d"), "/a/c/d");
    assert_eq!(normalize_lexical("///"), "/");
    assert_eq!(normalize_lexical("/.."), "/");
    assert_eq!(normalize_lexical("/a//b/"), "/a/b");
    assert_eq!(normalize_lexical("a/../.."), "/");
    assert_eq!(normalize_lexical("x/./y/../z"), "x/z");
    assert_eq!(normalize_lexical(""), "/");
}

#[test]
fn normalization_is_idempotent() {
    for p in ["/a/b/../c", "x/./y/../z", "/../../etc//passwd", "a/b/c/../../.."] {
        let once = normalize_lexical(p);
        assert_eq!(normalize_lexical(&once), once);
    }
}
