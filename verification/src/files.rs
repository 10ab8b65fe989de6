//! The parsed files of a workspace and the registry that knows their paths.

use crate::path::SourcePath;
use std::collections::HashMap;
use vstd::prelude::*;

verus! {

broadcast use vstd::std_specs::hash::group_hash_axioms;

/// Identifies one parsed source file of a workspace.
#[derive(Clone, Copy, Debug, Hash, PartialEq, Eq, Structural)]
pub struct FileId(pub usize);

/// The parsed files of a workspace, in the order in which they are visited.
///
/// No file occurs twice.
#[derive(Debug)]
pub struct ParsedFiles {
    ids: Vec<FileId>,
}

impl View for ParsedFiles {
    type V = Seq<FileId>;

    closed spec fn view(&self) -> Seq<FileId> {
        self.ids@
    }
}

impl ParsedFiles {
    #[verifier::type_invariant]
    spec fn each_file_once(self) -> bool {
        self.ids@.no_duplicates()
    }

    /// The files `ids`, in that order; `None` where a file occurs twice.
    pub fn new(ids: Vec<FileId>) -> (files: Option<ParsedFiles>)
        ensures
            files is Some <==> ids@.no_duplicates(),
            files matches Some(f) ==> f@ == ids@,
    {
        let mut i: usize = 0;
        while i < ids.len()
            invariant
                i <= ids.len(),
                forall|a: int, b: int| 0 <= a < b < i ==> ids@[a] != ids@[b],
            decreases ids.len() - i,
        {
            let mut j: usize = 0;
            while j < i
                invariant
                    j <= i < ids.len(),
                    forall|a: int| 0 <= a < j ==> ids@[a] != ids@[i as int],
                decreases i - j,
            {
                if ids[j] == ids[i] {
                    return None;
                }
                j += 1;
            }
            i += 1;
        }
        Some(ParsedFiles { ids })
    }

    /// The files in visiting order; none occurs twice.
    pub fn ids(&self) -> (ids: &Vec<FileId>)
        ensures
            ids@ == self@,
            ids@.no_duplicates(),
    {
        proof {
            use_type_invariant(self);
        }
        &self.ids
    }
}

/// Knows the path of each file that was read into the workspace.
#[derive(Debug)]
pub struct FileRegistry {
    paths: HashMap<usize, SourcePath>,
}

impl View for FileRegistry {
    type V = Map<FileId, Seq<Seq<char>>>;

    closed spec fn view(&self) -> Map<FileId, Seq<Seq<char>>> {
        Map::new(|id: FileId| self.paths@.contains_key(id.0), |id: FileId| self.paths@[id.0]@)
    }
}

impl FileRegistry {
    /// A registry that knows no file.
    pub fn new() -> (registry: FileRegistry)
        ensures
            registry@ == Map::<FileId, Seq<Seq<char>>>::empty(),
    {
        let registry = FileRegistry { paths: HashMap::new() };
        assert(registry@ =~= Map::<FileId, Seq<Seq<char>>>::empty());
        registry
    }

    /// Records `path` as the path of `id`, in place of any path recorded for it before.
    pub fn register(&mut self, id: FileId, path: SourcePath)
        ensures
            final(self)@ == old(self)@.insert(id, path@),
    {
        self.paths.insert(id.0, path);
        assert(self@ =~= old(self)@.insert(id, path@));
    }

    /// The path of `id`, if the registry knows the file.
    pub fn path(&self, id: FileId) -> (path: Option<&SourcePath>)
        ensures
            path is Some <==> self@.contains_key(id),
            path matches Some(p) ==> self@[id] == p@,
    {
        self.paths.get(&id.0)
    }
}

} // verus!
