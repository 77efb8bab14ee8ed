//! The set of files to harvest.
//!
//! One run opens the same file many times. The set keeps each path once, in
//! the order in which the paths were first seen.

use vstd::prelude::*;

verus! {

/// The texts of a list of strings.
pub open spec fn texts(strings: Seq<String>) -> Seq<Seq<char>> {
    Seq::new(strings.len(), |i: int| strings[i]@)
}

/// `files` with `path` recorded in it: put at the end where it is new, and
/// left out where `files` holds it already.
pub open spec fn recorded(files: Seq<Seq<char>>, path: Seq<char>) -> Seq<Seq<char>> {
    if files.contains(path) {
        files
    } else {
        files.push(path)
    }
}

/// Recording a path keeps a list free of duplicates so.
pub proof fn lemma_recorded_distinct(files: Seq<Seq<char>>, path: Seq<char>)
    requires
        files.no_duplicates(),
    ensures
        recorded(files, path).no_duplicates(),
        recorded(files, path).contains(path),
{
    let after = recorded(files, path);
    if files.contains(path) {
    } else {
        assert(after[files.len() as int] == path);
        assert forall|i: int, j: int| 0 <= i < after.len() && 0 <= j < after.len() && i != j implies after[i]
            != after[j] by {
            if i < files.len() && j < files.len() {
                assert(files[i] != files[j]);
            } else if i < files.len() {
                assert(files.contains(files[i]));
            } else {
                assert(files.contains(files[j]));
            }
        }
    }
}

/// A set of paths. Its view lists the members in the order of their first
/// insertion; no path is listed twice.
pub struct HarvestSet {
    paths: Vec<String>,
}

impl View for HarvestSet {
    type V = Seq<Seq<char>>;

    closed spec fn view(&self) -> Seq<Seq<char>> {
        texts(self.paths@)
    }
}

impl HarvestSet {
    #[verifier::type_invariant]
    spec fn distinct(self) -> bool {
        texts(self.paths@).no_duplicates()
    }

    /// The empty set.
    pub fn new() -> (set: HarvestSet)
        ensures
            set@ == Seq::<Seq<char>>::empty(),
    {
        let set = HarvestSet { paths: Vec::new() };
        assert(set@ =~= Seq::<Seq<char>>::empty());
        set
    }

    /// The number of members.
    pub fn len(&self) -> (count: usize)
        ensures
            count == self@.len(),
            self@.no_duplicates(),
    {
        proof {
            use_type_invariant(self);
        }
        self.paths.len()
    }

    /// Whether the set has no member.
    pub fn is_empty(&self) -> (empty: bool)
        ensures
            empty == (self@.len() == 0),
    {
        self.paths.len() == 0
    }

    /// Whether `path` is a member.
    pub fn contains(&self, path: &str) -> (found: bool)
        ensures
            found == self@.contains(path@),
    {
        let wanted = path.to_owned();
        let mut i: usize = 0;
        while i < self.paths.len()
            invariant
                i <= self.paths.len(),
                wanted@ == path@,
                forall|j: int| 0 <= j < i ==> texts(self.paths@)[j] != path@,
            decreases self.paths.len() - i,
        {
            if self.paths[i] == wanted {
                assert(texts(self.paths@)[i as int] == path@);
                return true;
            }
            i += 1;
        }
        false
    }

    /// Records `path`. Says whether it was new.
    pub fn insert(&mut self, path: String) -> (added: bool)
        ensures
            added == !old(self)@.contains(path@),
            final(self)@ == recorded(old(self)@, path@),
            final(self)@.no_duplicates(),
            final(self)@.len() <= usize::MAX,
    {
        proof {
            use_type_invariant(&*self);
            lemma_recorded_distinct(self@, path@);
        }
        if self.contains(path.as_str()) {
            assert(self.paths.len() <= usize::MAX);
            false
        } else {
            let ghost before = self.paths@;
            let mut paths: Vec<String> = Vec::new();
            std::mem::swap(&mut self.paths, &mut paths);
            paths.push(path);
            assert(texts(paths@) =~= texts(before).push(path@));
            assert(paths.len() <= usize::MAX);
            self.paths = paths;
            true
        }
    }

    /// The member at `index` in the order of insertion, if there is one.
    pub fn get(&self, index: usize) -> (path: Option<&String>)
        ensures
            path is Some <==> index < self@.len(),
            path matches Some(found) ==> found@ == self@[index as int],
    {
        if index < self.paths.len() {
            Some(&self.paths[index])
        } else {
            None
        }
    }

    /// The members, in the order of insertion.
    pub fn to_vec(&self) -> (all: Vec<String>)
        ensures
            texts(all@) == self@,
            self@.no_duplicates(),
    {
        proof {
            use_type_invariant(self);
        }
        let mut all: Vec<String> = Vec::new();
        let mut i: usize = 0;
        while i < self.paths.len()
            invariant
                i <= self.paths.len(),
                all@.len() == i,
                forall|j: int| 0 <= j < i ==> all@[j]@ == self.paths@[j]@,
            decreases self.paths.len() - i,
        {
            all.push(self.paths[i].clone());
            i += 1;
        }
        assert(texts(all@) =~= texts(self.paths@));
        all
    }
}

} // verus!
