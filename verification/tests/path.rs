use opendal::path::build_abs_path;
use opendal::path::normalize_root;

#[test]
fn normalize_root_gives_slashes_at_both_ends() {
    assert_eq!(normalize_root(""), "/");
    assert_eq!(normalize_root("/"), "/");
    assert_eq!(normalize_root("//"), "/");
    assert_eq!(normalize_root("abc"), "/abc/");
    assert_eq!(normalize_root("/abc"), "/abc/");
    assert_eq!(normalize_root("abc/"), "/abc/");
    assert_eq!(normalize_root("/abc/"), "/abc/");
    assert_eq!(normalize_root("/abc/def"), "/abc/def/");
}

#[test]
fn normalize_root_drops_empty_segments() {
    assert_eq!(normalize_root("//abc///def//"), "/abc/def/");
    assert_eq!(normalize_root("a//b"), "/a/b/");
    assert_eq!(normalize_root("///"), "/");
    assert_eq!(normalize_root("/ü//é/"), "/ü/é/");
}

#[test]
fn normalize_root_is_idempotent_on_samples() {
    for root in ["", "/", "a", "/a/b", "a//b/", "//x//y//z"] {
        let once = normalize_root(root);
        assert_eq!(normalize_root(&once), once);
    }
}

#[test]
fn abs_path_drops_the_leading_slash_of_the_root() {
    assert_eq!(build_abs_path("/", "file"), "file");
    assert_eq!(build_abs_path("/", "dir/"), "dir/");
    assert_eq!(build_abs_path("/abc/", "file"), "abc/file");
    assert_eq!(build_abs_path("/abc/def/", "dir/file"), "abc/def/dir/file");
}

#[test]
fn abs_path_of_the_root_is_the_root() {
    assert_eq!(build_abs_path("/", "/"), "");
    assert_eq!(build_abs_path("/abc/", "/"), "abc/");
}
