use std::path::Path;

use install_mimic::path::file_name;
use install_mimic::path::join;

fn std_file_name(path: &str) -> Option<String> {
    Path::new(path).file_name().and_then(|name| name.to_str()).map(|name| name.to_owned())
}

fn std_join(dir: &str, name: &str) -> String {
    Path::new(dir).join(name).to_str().unwrap().to_owned()
}

#[test]
fn file_name_of_plain_name() {
    assert_eq!(file_name("foo.txt"), Some("foo.txt".to_owned()));
}

#[test]
fn file_name_of_nested_path() {
    assert_eq!(file_name("tmp/foo.txt"), Some("foo.txt".to_owned()));
    assert_eq!(file_name("/usr/local/bin/tool"), Some("tool".to_owned()));
}

#[test]
fn file_name_ignores_trailing_separators() {
    assert_eq!(file_name("/usr/bin/"), Some("bin".to_owned()));
    assert_eq!(file_name("a//"), Some("a".to_owned()));
}

#[test]
fn file_name_ignores_trailing_current_directory() {
    assert_eq!(file_name("foo.txt/."), Some("foo.txt".to_owned()));
    assert_eq!(file_name("foo.txt/.//"), Some("foo.txt".to_owned()));
    assert_eq!(file_name("a/./."), Some("a".to_owned()));
}

#[test]
fn file_name_of_root_is_none() {
    assert_eq!(file_name("/"), None);
    assert_eq!(file_name("//"), None);
    assert_eq!(file_name("/."), None);
}

#[test]
fn file_name_of_empty_path_is_none() {
    assert_eq!(file_name(""), None);
}

#[test]
fn file_name_of_parent_directory_is_none() {
    assert_eq!(file_name(".."), None);
    assert_eq!(file_name("foo.txt/.."), None);
    assert_eq!(file_name("a/../"), None);
}

#[test]
fn file_name_of_current_directory_is_none() {
    assert_eq!(file_name("."), None);
    assert_eq!(file_name("./"), None);
    assert_eq!(file_name("./."), None);
}

#[test]
fn file_name_keeps_dotted_names() {
    assert_eq!(file_name(".hidden"), Some(".hidden".to_owned()));
    assert_eq!(file_name("a/..."), Some("...".to_owned()));
    assert_eq!(file_name("a/..b"), Some("..b".to_owned()));
    assert_eq!(file_name("a/b."), Some("b.".to_owned()));
}

#[test]
fn file_name_counts_characters_not_bytes() {
    assert_eq!(file_name("répertoire/données.txt"), Some("données.txt".to_owned()));
    assert_eq!(file_name("目录/文件/"), Some("文件".to_owned()));
}

#[test]
fn file_name_agrees_with_std() {
    let samples = [
        "", "/", "//", ".", "..", "./", "../", "a", "a/", "a//", "a/.", "a/./", "a/..", "a/../",
        "/a", "/.", "/..", "./a", "../a", "a/b", "a/b/", "a/b/.", "a/b/./.", "a/./b", ".a", "a.",
        "...", "a/...", ".hidden", "foo.txt/.//", "/usr/bin/", " ", "a b/c d", "é/ü", "./.",
        ".//.", "/./", "/./a", "a/.b", "a/b..", "..a/", "a/././/", "/../..", "x/y/z.tar.gz",
        "././x", "x/./.", "x/.../.", "-", "--", "a\\b", "a\nb/c\td",
    ];
    for path in samples {
        assert_eq!(file_name(path), std_file_name(path), "path {:?}", path);
    }
}

#[test]
fn join_puts_a_separator_between() {
    assert_eq!(join("/etc", "passwd"), "/etc/passwd");
    assert_eq!(join("dir", "a"), "dir/a");
}

#[test]
fn join_after_trailing_separator_adds_none() {
    assert_eq!(join("/etc/", "passwd"), "/etc/passwd");
    assert_eq!(join("/", "a"), "/a");
}

#[test]
fn join_to_empty_directory_is_the_name() {
    assert_eq!(join("", "a"), "a");
}

#[test]
fn join_of_rooted_name_is_the_name() {
    assert_eq!(join("/etc", "/bin/sh"), "/bin/sh");
}

#[test]
fn join_of_empty_name_ends_in_separator() {
    assert_eq!(join("dir", ""), "dir/");
}

#[test]
fn join_agrees_with_std() {
    let dirs = ["", "/", "a", "a/", "/a", "/a/b", "/a/b/", ".", "..", "a//", "répertoire"];
    let names = ["", "x", "x.txt", ".x", "/x", "/", "x/y", "données", "..", "."];
    for dir in dirs {
        for name in names {
            assert_eq!(join(dir, name), std_join(dir, name), "dir {:?} name {:?}", dir, name);
        }
    }
}
