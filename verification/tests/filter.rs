use deployer::filter::{is_candidate, CACHE_MARKER};

#[test]
fn the_cache_marker_is_the_bytecode_cache_directory() {
    assert_eq!(CACHE_MARKER, "__pycache__");
}

#[test]
fn a_path_inside_the_root_is_a_candidate() {
    assert!(is_candidate("/env/lib/py3/site-packages/foo/bar.so", "/env"));
    assert!(is_candidate("/env/pyvenv.cfg", "/env"));
    assert!(is_candidate("/env", "/env"));
}

#[test]
fn a_path_outside_the_root_is_no_candidate() {
    assert!(!is_candidate("/usr/lib/libc.so.6", "/env"));
    assert!(!is_candidate("/home/env/lib/x.py", "/env"));
    assert!(!is_candidate("/en", "/env"));
    assert!(!is_candidate("", "/env"));
}

#[test]
fn the_root_is_compared_as_text() {
    assert!(is_candidate("/env2/lib/x.py", "/env"));
    assert!(!is_candidate("/env/lib/x.py", "/ENV"));
    assert!(!is_candidate("/env/lib/x.py", "/env/lib/x.py/"));
    assert!(is_candidate("/anything", ""));
}

#[test]
fn a_path_through_a_bytecode_cache_is_no_candidate() {
    assert!(!is_candidate("/env/lib/py3/site-packages/foo/__pycache__/bar.pyc", "/env"));
    assert!(!is_candidate("/env/__pycache__", "/env"));
    assert!(!is_candidate("/env/x__pycache__y/z.py", "/env"));
    assert!(!is_candidate("/env__pycache__", "/env"));
    assert!(is_candidate("/env/_pycache_/z.py", "/env"));
    assert!(is_candidate("/env/__pycache_/z.py", "/env"));
}
