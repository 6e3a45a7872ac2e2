use bazel_cwd::{is_absolute, is_relative, join, SEPARATOR};
use std::path::Path;

#[test]
fn separator_is_the_slash() {
    assert_eq!(SEPARATOR, b'/');
}

#[test]
fn absolute_begins_with_separator() {
    for path in ["/", "/foo", "/foo/bar/", "//", "/."] {
        assert!(is_absolute(path.as_bytes()));
        assert!(!is_relative(path.as_bytes()));
    }
}

#[test]
fn relative_is_everything_else() {
    for path in ["", ".", "..", "foo", "foo/", "./foo", "../foo", "foo/../bar", " /", "~/x"] {
        assert!(is_relative(path.as_bytes()));
        assert!(!is_absolute(path.as_bytes()));
    }
}

#[test]
fn join_inserts_one_separator_where_needed() {
    assert_eq!(join(b"/a/b", b"c/d"), b"/a/b/c/d");
    assert_eq!(join(b"/a/b/", b"c/d"), b"/a/b/c/d");
    assert_eq!(join(b"/", b"c"), b"/c");
    assert_eq!(join(b"a", b"b"), b"a/b");
    assert_eq!(join(b"/a//", b"c"), b"/a//c");
}

#[test]
fn join_keeps_the_path_as_written() {
    assert_eq!(join(b"/a", b"./b/../c/"), b"/a/./b/../c/");
    assert_eq!(join(b"/a", b".."), b"/a/..");
    assert_eq!(join(b"/a", b"b//c"), b"/a/b//c");
}

#[test]
fn join_with_empty_path_is_the_root() {
    assert_eq!(join(b"/a/b", b""), b"/a/b");
    assert_eq!(join(b"/a/b/", b""), b"/a/b/");
    assert_eq!(join(b"", b""), b"");
}

#[test]
fn join_onto_empty_root_is_the_path() {
    assert_eq!(join(b"", b"c/d"), b"c/d");
    assert_eq!(join(b"", b"."), b".");
}

#[test]
fn join_with_absolute_path_replaces_the_root() {
    assert_eq!(join(b"/a/b", b"/c"), b"/c");
    assert_eq!(join(b"", b"/"), b"/");
    assert_eq!(join(b"rel", b"/c/"), b"/c/");
}

#[test]
fn join_names_the_same_file_as_the_platform_join() {
    let roots = ["/a/b", "/a/b/", "/", "a", ""];
    let paths = ["", ".", "c", "c/d/", "../c", "/c", "/"];
    for root in roots {
        for path in paths {
            let ours = join(root.as_bytes(), path.as_bytes());
            let ours = String::from_utf8(ours).unwrap();
            assert_eq!(Path::new(&ours), Path::new(root).join(path).as_path());
        }
    }
}

#[test]
fn classification_agrees_with_the_platform() {
    for path in ["", "/", "/foo", "foo", "./foo", "../foo", "foo/", "//x"] {
        assert_eq!(is_absolute(path.as_bytes()), Path::new(path).is_absolute());
        assert_eq!(is_relative(path.as_bytes()), Path::new(path).is_relative());
    }
}
