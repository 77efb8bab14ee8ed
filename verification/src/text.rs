//! Searching in sequences of characters.
//!
//! Paths and log lines are compared character by character. The functions
//! here say where one text occurs in another, and compute it.

use vstd::prelude::*;

verus! {

/// `needle` stands in `text` at position `at`.
pub open spec fn occurs_at(text: Seq<char>, needle: Seq<char>, at: int) -> bool {
    &&& 0 <= at
    &&& at + needle.len() <= text.len()
    &&& text.subrange(at, at + needle.len()) == needle
}

/// `needle` stands somewhere in `text`.
pub open spec fn occurs(text: Seq<char>, needle: Seq<char>) -> bool {
    exists|at: int| occurs_at(text, needle, at)
}

/// `needle` stands in `text` at `at` and nowhere before it.
pub open spec fn is_first_occurrence(text: Seq<char>, needle: Seq<char>, at: int) -> bool {
    &&& occurs_at(text, needle, at)
    &&& forall|before: int| 0 <= before < at ==> !occurs_at(text, needle, before)
}

/// The leftmost position at which `needle` stands in `text`, if there is one.
pub open spec fn first_occurrence(text: Seq<char>, needle: Seq<char>) -> Option<int> {
    if exists|at: int| is_first_occurrence(text, needle, at) {
        Some(choose|at: int| is_first_occurrence(text, needle, at))
    } else {
        None
    }
}

/// A first occurrence is the only one of its kind, so it is the one that
/// `first_occurrence` names.
pub proof fn lemma_first_occurrence_is(text: Seq<char>, needle: Seq<char>, at: int)
    requires
        is_first_occurrence(text, needle, at),
    ensures
        first_occurrence(text, needle) == Some(at),
{
    let chosen = choose|k: int| is_first_occurrence(text, needle, k);
    assert(is_first_occurrence(text, needle, chosen));
    if chosen < at {
        assert(!occurs_at(text, needle, chosen));
    } else if at < chosen {
        assert(!occurs_at(text, needle, at));
    }
}

/// Where nothing occurs, there is no first occurrence; where something
/// occurs, there is one.
pub proof fn lemma_first_occurrence_none(text: Seq<char>, needle: Seq<char>)
    ensures
        first_occurrence(text, needle) is None <==> !occurs(text, needle),
{
    if occurs(text, needle) {
        let some = choose|at: int| occurs_at(text, needle, at);
        lemma_least_occurrence(text, needle, some);
    } else {
        assert forall|at: int| !is_first_occurrence(text, needle, at) by {
            assert(!occurs_at(text, needle, at));
        }
    }
}

/// Below any occurrence lies a first one.
proof fn lemma_least_occurrence(text: Seq<char>, needle: Seq<char>, at: int)
    requires
        occurs_at(text, needle, at),
    ensures
        exists|first: int| 0 <= first <= at && is_first_occurrence(text, needle, first),
    decreases at,
{
    if exists|before: int| 0 <= before < at && occurs_at(text, needle, before) {
        let before = choose|before: int| 0 <= before < at && occurs_at(text, needle, before);
        lemma_least_occurrence(text, needle, before);
        let first = choose|first: int|
            0 <= first <= before && is_first_occurrence(text, needle, first);
        assert(0 <= first <= at && is_first_occurrence(text, needle, first));
    } else {
        assert(is_first_occurrence(text, needle, at));
    }
}

/// The characters of a string, one by one.
pub fn chars_of(text: &str) -> (chars: Vec<char>)
    ensures
        chars@ == text@,
{
    let mut chars: Vec<char> = Vec::new();
    for c in it: text.chars()
        invariant
            chars@ == it.seq().take(it.index() as int),
            it.seq() == text@,
    {
        chars.push(c);
    }
    chars
}

/// Whether `needle` stands in `text` at position `at`.
pub fn matches_at(text: &Vec<char>, needle: &Vec<char>, at: usize) -> (found: bool)
    ensures
        found == occurs_at(text@, needle@, at as int),
{
    if needle.len() > text.len() || at > text.len() - needle.len() {
        return false;
    }
    let mut k: usize = 0;
    while k < needle.len()
        invariant
            k <= needle.len(),
            at + needle.len() <= text.len(),
            forall|j: int| 0 <= j < k ==> text@[at + j] == needle@[j],
        decreases needle.len() - k,
    {
        if text[at + k] != needle[k] {
            proof {
                let window = text@.subrange(at as int, at + needle.len());
                assert(window[k as int] == text@[at + k]);
            }
            return false;
        }
        k += 1;
    }
    assert(text@.subrange(at as int, at + needle.len()) =~= needle@);
    true
}

/// The leftmost position at which `needle` stands in `text`.
pub fn find_chars(text: &Vec<char>, needle: &Vec<char>) -> (found: Option<usize>)
    ensures
        found is Some <==> occurs(text@, needle@),
        found matches Some(at) ==> is_first_occurrence(text@, needle@, at as int),
        match found {
            Some(at) => first_occurrence(text@, needle@) == Some(at as int),
            None => first_occurrence(text@, needle@) is None,
        },
{
    proof {
        lemma_first_occurrence_none(text@, needle@);
    }
    if needle.len() > text.len() {
        assert forall|at: int| !occurs_at(text@, needle@, at) by {}
        return None;
    }
    let last: usize = text.len() - needle.len();
    let mut at: usize = 0;
    loop
        invariant
            at <= last,
            last == text.len() - needle.len(),
            forall|before: int| 0 <= before < at ==> !occurs_at(text@, needle@, before),
        decreases last - at,
    {
        if matches_at(text, needle, at) {
            proof {
                lemma_first_occurrence_is(text@, needle@, at as int);
            }
            return Some(at);
        }
        if at == last {
            assert forall|k: int| !occurs_at(text@, needle@, k) by {}
            return None;
        }
        at += 1;
    }
}

} // verus!
