//! Where a harvested file goes in the output tree.
//!
//! A file keeps the place it had below the packages directory of the
//! dependency root. Everything up to and including the packages marker is
//! dropped, and what is left is joined to the output directory.

use crate::text::{
    chars_of, find_chars, first_occurrence, is_first_occurrence, lemma_first_occurrence_is,
    occurs_at,
};
use vstd::prelude::*;

verus! {

/// The directory that holds installed packages, with the separators around
/// it. What follows its first occurrence in a path is the package-relative
/// path.
pub const PACKAGES_MARKER: &'static str = "/site-packages/";

/// The length of `PACKAGES_MARKER`, in characters.
pub const PACKAGES_MARKER_LEN: usize = 15;

/// The path separator.
pub const SEPARATOR: char = '/';

/// `PACKAGES_MARKER_LEN` is the length of `PACKAGES_MARKER`.
pub proof fn lemma_packages_marker_len()
    ensures
        PACKAGES_MARKER@.len() == PACKAGES_MARKER_LEN,
{
    reveal_strlit("/site-packages/");
}

/// The part of `path` behind the first packages marker in it.
pub open spec fn package_tail(path: Seq<char>) -> Option<Seq<char>> {
    match first_occurrence(path, PACKAGES_MARKER@) {
        Some(at) => Some(path.skip(at + PACKAGES_MARKER_LEN)),
        None => None,
    }
}

/// `rest` appended to the directory `dir`. A `rest` that begins with a
/// separator is absolute and stands alone; otherwise a separator is put
/// between the two unless `dir` is empty or ends with one.
pub open spec fn joined(dir: Seq<char>, rest: Seq<char>) -> Seq<char> {
    if rest.len() > 0 && rest[0] == SEPARATOR {
        rest
    } else if dir.len() == 0 || dir.last() == SEPARATOR {
        dir + rest
    } else {
        dir + seq![SEPARATOR] + rest
    }
}

/// Where `path` is copied to below `output_dir`; `None` for a path without a
/// packages marker, which is not copied.
pub open spec fn destination_path(output_dir: Seq<char>, path: Seq<char>) -> Option<Seq<char>> {
    match package_tail(path) {
        Some(tail) => Some(joined(output_dir, tail)),
        None => None,
    }
}

/// What stands behind the packages marker is the package-relative path:
/// of a path made of `before`, the marker and `tail`, it is `tail`, provided
/// that the marker does not begin anywhere in the path before the place
/// where `before` ends.
pub proof fn lemma_tail_behind_marker(before: Seq<char>, tail: Seq<char>)
    requires
        forall|at: int|
            0 <= at < before.len() ==> !occurs_at(
                before + PACKAGES_MARKER@ + tail,
                PACKAGES_MARKER@,
                at,
            ),
    ensures
        package_tail(before + PACKAGES_MARKER@ + tail) == Some(tail),
{
    let path = before + PACKAGES_MARKER@ + tail;
    let at = before.len() as int;
    lemma_packages_marker_len();
    assert(path.subrange(at, at + PACKAGES_MARKER@.len()) =~= PACKAGES_MARKER@);
    assert(is_first_occurrence(path, PACKAGES_MARKER@, at));
    lemma_first_occurrence_is(path, PACKAGES_MARKER@, at);
    assert(path.skip(at + PACKAGES_MARKER_LEN) =~= tail);
}

/// A file goes where it stood below the packages directory: its
/// destination is the output directory, a separator, and the
/// package-relative path. This holds of an output directory that is not
/// empty and does not end with a separator, and of a package-relative path
/// that does not begin with one.
pub proof fn lemma_destination_rebuilt(output_dir: Seq<char>, before: Seq<char>, tail: Seq<char>)
    requires
        forall|at: int|
            0 <= at < before.len() ==> !occurs_at(
                before + PACKAGES_MARKER@ + tail,
                PACKAGES_MARKER@,
                at,
            ),
        output_dir.len() > 0 && output_dir.last() != SEPARATOR,
        tail.len() == 0 || tail[0] != SEPARATOR,
    ensures
        destination_path(output_dir, before + PACKAGES_MARKER@ + tail) == Some(
            output_dir + seq![SEPARATOR] + tail,
        ),
{
    lemma_tail_behind_marker(before, tail);
}

/// A destination lies below the output directory, unless the
/// package-relative path begins with a separator: then that path is the
/// destination as it stands.
pub proof fn lemma_destination_below_output(output_dir: Seq<char>, path: Seq<char>)
    requires
        package_tail(path) is Some,
    ensures
        destination_path(output_dir, path) is Some,
        package_tail(path).unwrap().len() > 0 && package_tail(path).unwrap()[0] == SEPARATOR
            ==> destination_path(output_dir, path) == package_tail(path),
        !(package_tail(path).unwrap().len() > 0 && package_tail(path).unwrap()[0] == SEPARATOR)
            ==> output_dir.is_prefix_of(destination_path(output_dir, path).unwrap())
            && package_tail(path).unwrap().is_suffix_of(destination_path(output_dir, path).unwrap()),
{
    let tail = package_tail(path).unwrap();
    let target = destination_path(output_dir, path).unwrap();
    if !(tail.len() > 0 && tail[0] == SEPARATOR) {
        assert(target.subrange(0, output_dir.len() as int) =~= output_dir);
        assert(target.subrange(target.len() - tail.len(), target.len() as int) =~= tail);
    }
}

/// The package-relative path of `path`.
pub fn package_relative(path: &str) -> (tail: Option<String>)
    ensures
        tail is Some <==> package_tail(path@) is Some,
        tail matches Some(found) ==> package_tail(path@) == Some(found@),
{
    let chars = chars_of(path);
    let marker = chars_of(PACKAGES_MARKER);
    proof {
        lemma_packages_marker_len();
    }
    match find_chars(&chars, &marker) {
        Some(at) => {
            assert(occurs_at(chars@, marker@, at as int));
            let end = chars.len();
            let rest = path.substring_char(at + marker.len(), end);
            Some(rest.to_owned())
        },
        None => None,
    }
}

/// Joins `rest` to the directory `dir`.
pub fn join(dir: &str, rest: &str) -> (whole: String)
    ensures
        whole@ == joined(dir@, rest@),
{
    let rest_chars = chars_of(rest);
    if rest_chars.len() > 0 && rest_chars[0] == SEPARATOR {
        return rest.to_owned();
    }
    let dir_chars = chars_of(dir);
    let mut whole = dir.to_owned();
    if dir_chars.len() > 0 && dir_chars[dir_chars.len() - 1] != SEPARATOR {
        proof {
            reveal_strlit("/");
        }
        whole.append("/");
        assert(whole@ == dir@ + seq![SEPARATOR]);
    }
    whole.append(rest);
    whole
}

/// Where `path` is copied to below `output_dir`, if it is copied at all.
pub fn destination(output_dir: &str, path: &str) -> (target: Option<String>)
    ensures
        target is Some <==> destination_path(output_dir@, path@) is Some,
        target matches Some(found) ==> destination_path(output_dir@, path@) == Some(found@),
{
    match package_relative(path) {
        Some(tail) => Some(join(output_dir, tail.as_str())),
        None => None,
    }
}

} // verus!
