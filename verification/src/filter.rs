//! Which paths are worth harvesting.
//!
//! A path is kept when it lies inside the dependency root, does not pass
//! through a bytecode cache, and names a regular file on disk. The first two
//! conditions are read off the text of the path; the third is the disk's
//! answer, which the caller supplies.

use crate::text::{chars_of, find_chars, matches_at, occurs};
use vstd::prelude::*;

verus! {

/// The directory name of a bytecode cache. A path that holds it anywhere in
/// its text is never harvested.
pub const CACHE_MARKER: &'static str = "__pycache__";

/// `path` begins with the text of `root`.
pub open spec fn inside_root(path: Seq<char>, root: Seq<char>) -> bool {
    root.is_prefix_of(path)
}

/// `path` passes through a bytecode cache.
pub open spec fn in_cache(path: Seq<char>) -> bool {
    occurs(path, CACHE_MARKER@)
}

/// What the text of `path` alone must show for it to be harvested.
pub open spec fn lexically_admitted(path: Seq<char>, root: Seq<char>) -> bool {
    inside_root(path, root) && !in_cache(path)
}

/// The whole filter: the text of the path and the disk's answer.
pub open spec fn admitted(path: Seq<char>, root: Seq<char>, regular_file: bool) -> bool {
    lexically_admitted(path, root) && regular_file
}

/// Whether `path` passes the two conditions on its text. The root is tested
/// first, the cache marker second.
pub fn is_candidate(path: &str, root: &str) -> (kept: bool)
    ensures
        kept == lexically_admitted(path@, root@),
{
    let path_chars = chars_of(path);
    let root_chars = chars_of(root);
    if !matches_at(&path_chars, &root_chars, 0) {
        return false;
    }
    let marker = chars_of(CACHE_MARKER);
    find_chars(&path_chars, &marker).is_none()
}

} // verus!
