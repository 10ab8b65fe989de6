//! Paths of source files, held as the sequence of their components.
//!
//! Ownership of a file is decided on components alone: whether one path lies
//! under a directory never depends on how the path was written down.

use vstd::prelude::*;

verus! {

/// A path as the sequence of its components, outermost first.
///
/// The root of an absolute path is a component like any other, so that an
/// absolute and a relative path never compare equal.
#[derive(Clone, Debug, PartialEq, Eq)]
pub struct SourcePath {
    pub segments: Vec<String>,
}

/// The text of each component.
pub open spec fn segment_views(segments: Seq<String>) -> Seq<Seq<char>> {
    segments.map_values(|s: String| s@)
}

impl View for SourcePath {
    type V = Seq<Seq<char>>;

    open spec fn view(&self) -> Seq<Seq<char>> {
        segment_views(self.segments@)
    }
}

/// The directory that holds `path`: the path without its last component.
///
/// A path of fewer than two components names no directory that holds it.
pub open spec fn parent_of(path: Seq<Seq<char>>) -> Option<Seq<Seq<char>>> {
    if path.len() >= 2 {
        Some(path.drop_last())
    } else {
        None
    }
}

/// `path` itself, then its parent, then the parent of that, as long as there is one.
pub open spec fn ancestors_of(path: Seq<Seq<char>>) -> Seq<Seq<Seq<char>>>
    decreases path.len(),
{
    match parent_of(path) {
        None => seq![path],
        Some(up) => seq![path] + ancestors_of(up),
    }
}

/// `path` is `dir` or lies in the subtree below it.
pub open spec fn lies_within(path: Seq<Seq<char>>, dir: Seq<Seq<char>>) -> bool {
    dir.is_prefix_of(path)
}

/// The ancestors of a path are its prefixes, longest first, down to the first
/// component; the empty path is its own and nobody else's ancestor.
pub proof fn lemma_ancestors_are_prefixes(path: Seq<Seq<char>>, dir: Seq<Seq<char>>)
    ensures
        ancestors_of(path).contains(dir) <==> lies_within(path, dir) && (dir.len() >= 1
            || path.len() == 0),
    decreases path.len(),
{
    let here = seq![path];
    assert(here[0] == path);
    if path.len() >= 2 {
        let up = path.drop_last();
        let rest = ancestors_of(up);
        lemma_ancestors_are_prefixes(up, dir);
        assert(ancestors_of(path) == here + rest);
        if dir == path {
            assert((here + rest)[0] == dir);
        } else if rest.contains(dir) {
            let k = choose|k: int| 0 <= k < rest.len() && rest[k] == dir;
            assert((here + rest)[k + 1] == dir);
            assert(dir.is_prefix_of(path)) by {
                assert(dir =~= up.subrange(0, dir.len() as int));
                assert(dir =~= path.subrange(0, dir.len() as int));
            }
        } else {
            assert(!(here + rest).contains(dir));
            if dir.is_prefix_of(path) && dir.len() >= 1 {
                assert(dir.len() < path.len()) by {
                    if dir.len() == path.len() {
                        assert(dir =~= path);
                    }
                }
                assert(dir.is_prefix_of(up)) by {
                    assert(dir =~= up.subrange(0, dir.len() as int));
                }
            }
        }
    } else {
        assert(ancestors_of(path) == here);
        if dir.is_prefix_of(path) && (dir.len() >= 1 || path.len() == 0) {
            assert(dir =~= path);
        }
    }
}

impl SourcePath {
    /// The path made of `segments`, outermost first.
    pub fn new(segments: Vec<String>) -> (path: SourcePath)
        ensures
            path.segments == segments,
    {
        SourcePath { segments }
    }

    /// The number of components.
    pub fn len(&self) -> (n: usize)
        ensures
            n == self@.len(),
    {
        self.segments.len()
    }

    /// Whether `self` has `len` components or more, the first `len` of which
    /// are exactly the components of `other`.
    pub fn prefix_is(&self, len: usize, other: &SourcePath) -> (same: bool)
        ensures
            same == (len <= self@.len() && self@.take(len as int) == other@),
    {
        if len > self.segments.len() {
            return false;
        }
        if other.segments.len() != len {
            assert(self@.take(len as int).len() != other@.len());
            return false;
        }
        let mut i: usize = 0;
        while i < len
            invariant
                i <= len,
                len <= self.segments.len(),
                len == other.segments.len(),
                forall|j: int| 0 <= j < i ==> self@[j] == other@[j],
            decreases len - i,
        {
            if !(self.segments[i] == other.segments[i]) {
                assert(self@.take(len as int)[i as int] != other@[i as int]);
                return false;
            }
            i += 1;
        }
        assert(self@.take(len as int) =~= other@);
        true
    }

    /// Whether the two paths have the same components.
    pub fn same_as(&self, other: &SourcePath) -> (same: bool)
        ensures
            same == (self@ == other@),
    {
        assert(self@.take(self@.len() as int) =~= self@);
        self.prefix_is(self.segments.len(), other)
    }

    /// The directory that holds this path, if it names one.
    pub fn parent(&self) -> (up: Option<SourcePath>)
        ensures
            up is Some <==> parent_of(self@) is Some,
            up matches Some(p) ==> parent_of(self@) == Some(p@),
    {
        let n = self.segments.len();
        if n < 2 {
            return None;
        }
        let mut kept: Vec<String> = Vec::new();
        let mut i: usize = 0;
        while i < n - 1
            invariant
                2 <= n == self.segments.len(),
                i <= n - 1,
                kept.len() == i,
                forall|j: int| 0 <= j < i ==> kept@[j] == self.segments@[j],
            decreases n - 1 - i,
        {
            kept.push(self.segments[i].clone());
            i += 1;
        }
        let up = SourcePath { segments: kept };
        assert(up@ =~= self@.drop_last());
        Some(up)
    }

    /// Whether `dir` is this path or one of the directories above it.
    ///
    /// Walks from the path itself upward, one component at a time, and compares
    /// each ancestor with `dir`.
    pub fn has_ancestor(&self, dir: &SourcePath) -> (found: bool)
        ensures
            found == ancestors_of(self@).contains(dir@),
    {
        let n = self.segments.len();
        if n == 0 {
            proof {
                lemma_ancestors_are_prefixes(self@, dir@);
            }
            return dir.segments.len() == 0;
        }
        let mut k: usize = n;
        while k >= 1
            invariant
                k <= n == self@.len(),
                forall|m: int| k < m <= n ==> self@.take(m) != dir@,
            decreases k,
        {
            if self.prefix_is(k, dir) {
                proof {
                    lemma_ancestors_are_prefixes(self@, dir@);
                    assert(self@.take(k as int).is_prefix_of(self@));
                }
                return true;
            }
            k -= 1;
        }
        proof {
            lemma_ancestors_are_prefixes(self@, dir@);
            if lies_within(self@, dir@) && dir@.len() >= 1 {
                assert(self@.take(dir@.len() as int) =~= dir@);
            }
        }
        false
    }
}

} // verus!
