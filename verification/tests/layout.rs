use deployer::layout::{
    destination, join, package_relative, PACKAGES_MARKER, PACKAGES_MARKER_LEN, SEPARATOR,
};

#[test]
fn the_packages_marker_and_its_length_agree() {
    assert_eq!(PACKAGES_MARKER, "/site-packages/");
    assert_eq!(PACKAGES_MARKER_LEN, 15);
    assert_eq!(PACKAGES_MARKER.chars().count(), PACKAGES_MARKER_LEN);
    assert_eq!(SEPARATOR, '/');
}

#[test]
fn the_marker_is_validated_on_a_representative_path() {
    let path = "/home/me/venv/lib/python3.10/site-packages/paddle/dataset/image.py";
    assert_eq!(package_relative(path), Some(String::from("paddle/dataset/image.py")));
    assert_eq!(
        destination("dist/lib", path),
        Some(String::from("dist/lib/paddle/dataset/image.py"))
    );
}

#[test]
fn the_destination_is_rebuilt_below_the_output_directory() {
    assert_eq!(
        destination("OUT", "/env/lib/py3/site-packages/pkgA/mod.ext"),
        Some(String::from("OUT/pkgA/mod.ext"))
    );
    assert_eq!(
        destination("OUT", "/a/very/deep/root/lib/py3/site-packages/pkgA/mod.ext"),
        Some(String::from("OUT/pkgA/mod.ext"))
    );
    assert_eq!(
        destination("/abs/out", "/env/lib/site-packages/imaging/codec.bin"),
        Some(String::from("/abs/out/imaging/codec.bin"))
    );
}

#[test]
fn a_path_without_the_marker_has_no_destination() {
    assert_eq!(package_relative("/env/lib/py3/os.py"), None);
    assert_eq!(destination("OUT", "/env/lib/py3/os.py"), None);
    assert_eq!(package_relative("/env/lib/site-packages"), None);
    assert_eq!(package_relative("/env/lib/dist-packages/x.py"), None);
    assert_eq!(package_relative("site-packages/x.py"), None);
    assert_eq!(package_relative(""), None);
}

#[test]
fn the_first_marker_counts() {
    assert_eq!(
        package_relative("/env/site-packages/a/site-packages/b.py"),
        Some(String::from("a/site-packages/b.py"))
    );
    assert_eq!(
        destination("OUT", "/env/site-packages/a/site-packages/b.py"),
        Some(String::from("OUT/a/site-packages/b.py"))
    );
}

#[test]
fn the_tail_may_be_empty_or_absolute() {
    assert_eq!(package_relative("/env/lib/site-packages/"), Some(String::new()));
    assert_eq!(destination("OUT", "/env/lib/site-packages/"), Some(String::from("OUT/")));
    assert_eq!(package_relative("/env/site-packages//etc/x"), Some(String::from("/etc/x")));
    assert_eq!(destination("OUT", "/env/site-packages//etc/x"), Some(String::from("/etc/x")));
}

#[test]
fn the_tail_is_cut_by_characters() {
    assert_eq!(
        package_relative("/énv/site-packages/pkg/ü.py"),
        Some(String::from("pkg/ü.py"))
    );
}

#[test]
fn join_puts_one_separator_between() {
    assert_eq!(join("out", "a/b.py"), "out/a/b.py");
    assert_eq!(join("out/", "a/b.py"), "out/a/b.py");
    assert_eq!(join("/", "a"), "/a");
    assert_eq!(join("", "a/b.py"), "a/b.py");
    assert_eq!(join("out", ""), "out/");
    assert_eq!(join("out/", ""), "out/");
    assert_eq!(join("", ""), "");
}

#[test]
fn join_lets_an_absolute_path_stand_alone() {
    assert_eq!(join("out", "/a/b.py"), "/a/b.py");
    assert_eq!(join("", "/"), "/");
}

#[test]
fn join_agrees_with_the_standard_library() {
    let cases = [
        ("out", "a/b.py"),
        ("out/", "a/b.py"),
        ("/", "a"),
        ("", "a"),
        ("out", ""),
        ("out", "/abs"),
        ("/env", "bin/python3"),
        ("dist/lib", "paddle/dataset/image.py"),
    ];
    for (dir, rest) in cases {
        let expected = std::path::Path::new(dir).join(rest);
        assert_eq!(join(dir, rest), expected.to_string_lossy());
    }
}
