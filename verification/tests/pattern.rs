use deployer::pattern::{PathFinder, PATH_GROUP, PATH_PATTERN};

fn path_in(line: &str) -> Option<String> {
    PathFinder::new().unwrap().extract(line)
}

#[test]
fn the_path_pattern_is_accepted() {
    assert!(PathFinder::new().is_ok());
    assert_eq!(PATH_PATTERN, "\"(/[^\"]+)\"");
    assert_eq!(PATH_GROUP, 1);
}

#[test]
fn extracts_the_quoted_path() {
    let line = "1234 openat(AT_FDCWD, \"/env/lib/py3/site-packages/foo/bar.so\", O_RDONLY|O_CLOEXEC) = 3";
    assert_eq!(
        path_in(line),
        Some(String::from("/env/lib/py3/site-packages/foo/bar.so"))
    );
}

#[test]
fn extracts_the_path_without_its_quotes() {
    assert_eq!(path_in("\"/a\""), Some(String::from("/a")));
    assert_eq!(path_in("open(\"/etc/ld.so.cache\", O_RDONLY) = 3"), Some(String::from("/etc/ld.so.cache")));
}

#[test]
fn a_line_without_a_quoted_absolute_path_names_none() {
    assert_eq!(path_in(""), None);
    assert_eq!(path_in("+++ exited with 0 +++"), None);
    assert_eq!(path_in("openat(AT_FDCWD, \"relative/path.py\", O_RDONLY) = 3"), None);
    assert_eq!(path_in("/env/lib/not/quoted"), None);
    assert_eq!(path_in("\"/unterminated"), None);
    assert_eq!(path_in("\"/\""), None);
    assert_eq!(path_in("\"\""), None);
}

#[test]
fn only_the_first_quoted_path_of_a_line_is_taken() {
    assert_eq!(
        path_in("rename(\"/env/a.tmp\", \"/env/a.py\") = 0"),
        Some(String::from("/env/a.tmp"))
    );
    assert_eq!(
        path_in("execve(\"python3\", [\"/env/bin/python3\", \"/srv/app.py\"], 0x7ffd) = 0"),
        Some(String::from("/env/bin/python3"))
    );
}

#[test]
fn the_extraction_is_syntactic() {
    assert_eq!(path_in("\"a\"/b\""), Some(String::from("/b")));
    assert_eq!(path_in("x\"/with space/and\ttab\"y"), Some(String::from("/with space/and\ttab")));
    assert_eq!(path_in("\"/päckages/ü.py\""), Some(String::from("/päckages/ü.py")));
}

#[test]
fn one_finder_serves_many_lines() {
    let finder = PathFinder::new().unwrap();
    assert_eq!(finder.extract("\"/one\""), Some(String::from("/one")));
    assert_eq!(finder.extract("nothing"), None);
    assert_eq!(finder.extract("\"/two\""), Some(String::from("/two")));
    assert_eq!(finder.extract("\"/one\""), Some(String::from("/one")));
}
