//! Which parsed files belong to the unit that is debugged.
//!
//! A file belongs to a unit when the directory of the unit's entry file is
//! among the ancestors of the file's path. Those files, and no others, get
//! debug instrumentation.

use crate::files::{FileId, FileRegistry, ParsedFiles};
use crate::path::{ancestors_of, lemma_ancestors_are_prefixes, lies_within, parent_of};
use crate::scan::{first_index, lemma_first_index_is};
use crate::workspace::Unit;
use vstd::prelude::*;

verus! {

/// What the parser, the registry and the resolved workspace hand over does not
/// fit together. No caller can recover from it.
#[derive(Clone, Copy, Debug, PartialEq, Eq, Structural)]
pub enum ConsistencyFault {
    /// The unit's entry path names no directory that holds it.
    EntryWithoutParent,
    /// A parsed file whose path the registry does not know.
    UnknownFile(FileId),
}

/// A file at `path` belongs to the unit whose entry file lies in `base`.
pub open spec fn is_owned(base: Seq<Seq<char>>, path: Seq<Seq<char>>) -> bool {
    ancestors_of(path).contains(base)
}

/// Those of `files` that the unit with base `base` owns, in the order of `files`.
pub open spec fn owned_files(
    files: Seq<FileId>,
    registry: Map<FileId, Seq<Seq<char>>>,
    base: Seq<Seq<char>>,
) -> Seq<FileId> {
    files.filter(|id: FileId| is_owned(base, registry[id]))
}

/// The place of the first of `files` whose path the registry lacks:
/// `files.len()` if it knows them all.
pub open spec fn first_unknown_at(files: Seq<FileId>, registry: Map<FileId, Seq<Seq<char>>>) -> int {
    first_index(files, |id: FileId| !registry.contains_key(id))
}

/// What resolving the files of the unit with entry file `entry` gives.
///
/// An entry path without a parent is found before any file is looked at; after
/// that the first file in visiting order that the registry lacks is the fault.
pub open spec fn resolve(
    files: Seq<FileId>,
    registry: Map<FileId, Seq<Seq<char>>>,
    entry: Seq<Seq<char>>,
) -> Result<Seq<FileId>, ConsistencyFault> {
    match parent_of(entry) {
        None => Err(ConsistencyFault::EntryWithoutParent),
        Some(base) => {
            let unknown = first_unknown_at(files, registry);
            if unknown < files.len() {
                Err(ConsistencyFault::UnknownFile(files[unknown]))
            } else {
                Ok(owned_files(files, registry, base))
            }
        },
    }
}

/// The parsed files that `unit` owns, in visiting order, each once.
pub fn resolve_owned(files: &ParsedFiles, registry: &FileRegistry, unit: &Unit) -> (resolved: Result<
    Vec<FileId>,
    ConsistencyFault,
>)
    ensures
        resolved matches Ok(owned) ==> resolve(files@, registry@, unit.entry_path@) == Ok::<
            Seq<FileId>,
            ConsistencyFault,
        >(owned@),
        resolved matches Err(fault) ==> resolve(files@, registry@, unit.entry_path@) == Err::<
            Seq<FileId>,
            ConsistencyFault,
        >(fault),
        resolved matches Ok(owned) ==> owned@.no_duplicates(),
{
    let base = match unit.base() {
        None => {
            return Err(ConsistencyFault::EntryWithoutParent);
        },
        Some(base) => base,
    };
    let ids = files.ids();
    let ghost unknown = |id: FileId| !registry@.contains_key(id);
    let ghost owned_by_base = |id: FileId| is_owned(base@, registry@[id]);
    let mut owned: Vec<FileId> = Vec::new();
    let mut i: usize = 0;
    while i < ids.len()
        invariant
            i <= ids.len(),
            ids@ == files@,
            parent_of(unit.entry_path@) == Some(base@),
            unknown == (|id: FileId| !registry@.contains_key(id)),
            owned_by_base == (|id: FileId| is_owned(base@, registry@[id])),
            forall|k: int| 0 <= k < i ==> !unknown(#[trigger] ids@[k]),
            owned@ == ids@.take(i as int).filter(owned_by_base),
        decreases ids.len() - i,
    {
        let id = ids[i];
        match registry.path(id) {
            None => {
                proof {
                    lemma_first_index_is(ids@, unknown, i as int);
                }
                return Err(ConsistencyFault::UnknownFile(id));
            },
            Some(path) => {
                if path.has_ancestor(&base) {
                    owned.push(id);
                }
                proof {
                    reveal(Seq::filter);
                    assert(ids@.take(i + 1).drop_last() =~= ids@.take(i as int));
                }
            },
        }
        i += 1;
    }
    proof {
        assert(ids@.take(i as int) =~= ids@);
        lemma_first_index_is(ids@, unknown, ids@.len() as int);
        law_each_owned_file_once(files@, registry@, unit.entry_path@);
    }
    Ok(owned)
}

/// A file is owned exactly when its path is the directory of the unit's entry
/// file or lies in the subtree below that directory.
pub proof fn law_owned_iff_in_subtree(entry: Seq<Seq<char>>, path: Seq<Seq<char>>)
    requires
        parent_of(entry) is Some,
    ensures
        is_owned(parent_of(entry)->0, path) <==> lies_within(path, parent_of(entry)->0),
{
    lemma_ancestors_are_prefixes(path, parent_of(entry)->0);
}

/// Two units of which neither's directory lies within the other's own no file
/// in common: the files of a sibling unit, and those of a library that lives
/// outside the unit's directory, are never owned.
pub proof fn law_ownership_is_exclusive(
    entry: Seq<Seq<char>>,
    other_entry: Seq<Seq<char>>,
    path: Seq<Seq<char>>,
)
    requires
        parent_of(entry) is Some,
        parent_of(other_entry) is Some,
        !lies_within(parent_of(entry)->0, parent_of(other_entry)->0),
        !lies_within(parent_of(other_entry)->0, parent_of(entry)->0),
    ensures
        !(is_owned(parent_of(entry)->0, path) && is_owned(parent_of(other_entry)->0, path)),
{
    let a = parent_of(entry)->0;
    let b = parent_of(other_entry)->0;
    lemma_ancestors_are_prefixes(path, a);
    lemma_ancestors_are_prefixes(path, b);
    if a.is_prefix_of(path) && b.is_prefix_of(path) {
        if a.len() <= b.len() {
            assert(a =~= b.subrange(0, a.len() as int));
        } else {
            assert(b =~= a.subrange(0, b.len() as int));
        }
    }
}

/// Where resolution succeeds, a file is in the result exactly when it is one of
/// the parsed files and owned, and it is there as often as among the parsed
/// files: once, where no parsed file occurs twice.
pub proof fn law_each_owned_file_once(
    files: Seq<FileId>,
    registry: Map<FileId, Seq<Seq<char>>>,
    entry: Seq<Seq<char>>,
)
    requires
        files.no_duplicates(),
        resolve(files, registry, entry) is Ok,
    ensures
        resolve(files, registry, entry)->Ok_0.no_duplicates(),
        forall|id: FileId|
            resolve(files, registry, entry)->Ok_0.contains(id) <==> files.contains(id) && is_owned(
                parent_of(entry)->0,
                #[trigger] registry[id],
            ),
{
    let base = parent_of(entry)->0;
    let owned = owned_files(files, registry, base);
    lemma_filter_keeps_distinct(files, |id: FileId| is_owned(base, registry[id]));
    assert forall|id: FileId| owned.contains(id) <==> files.contains(id) && is_owned(
        base,
        #[trigger] registry[id],
    ) by {
        lemma_filter_members(files, |id: FileId| is_owned(base, registry[id]), id);
    }
}

/// Which files are owned does not depend on the order in which the parsed
/// files are visited.
pub proof fn law_order_does_not_matter(
    files: Seq<FileId>,
    reordered: Seq<FileId>,
    registry: Map<FileId, Seq<Seq<char>>>,
    base: Seq<Seq<char>>,
)
    requires
        files.to_set() == reordered.to_set(),
    ensures
        owned_files(files, registry, base).to_set() == owned_files(
            reordered,
            registry,
            base,
        ).to_set(),
{
    let keep = |id: FileId| is_owned(base, registry[id]);
    assert forall|id: FileId|
        owned_files(files, registry, base).to_set().contains(id) == owned_files(
            reordered,
            registry,
            base,
        ).to_set().contains(id) by {
        lemma_filter_members(files, keep, id);
        lemma_filter_members(reordered, keep, id);
        assert(files.contains(id) == files.to_set().contains(id));
        assert(reordered.contains(id) == reordered.to_set().contains(id));
    }
    assert(owned_files(files, registry, base).to_set() =~= owned_files(
        reordered,
        registry,
        base,
    ).to_set());
}

/// What a filter keeps: the elements of the sequence that pass.
proof fn lemma_filter_members<A>(s: Seq<A>, keep: spec_fn(A) -> bool, x: A)
    ensures
        s.filter(keep).contains(x) <==> s.contains(x) && keep(x),
    decreases s.len(),
{
    reveal(Seq::filter);
    if s.len() > 0 {
        let front = s.drop_last();
        lemma_filter_members(front, keep, x);
        if s.contains(x) {
            let k = choose|k: int| 0 <= k < s.len() && s[k] == x;
            if k < s.len() - 1 {
                assert(front[k] == x);
            }
        }
        if front.contains(x) {
            let k = choose|k: int| 0 <= k < front.len() && front[k] == x;
            assert(s[k] == x);
        }
        let kept = front.filter(keep);
        if keep(s.last()) {
            let all = kept.push(s.last());
            assert(all[kept.len() as int] == s.last());
            assert(s[s.len() - 1] == s.last());
            if kept.contains(x) {
                let k = choose|k: int| 0 <= k < kept.len() && kept[k] == x;
                assert(all[k] == x);
            }
        }
    }
}

/// A filter of a sequence without repeats has no repeats.
proof fn lemma_filter_keeps_distinct<A>(s: Seq<A>, keep: spec_fn(A) -> bool)
    requires
        s.no_duplicates(),
    ensures
        s.filter(keep).no_duplicates(),
    decreases s.len(),
{
    reveal(Seq::filter);
    if s.len() > 0 {
        let front = s.drop_last();
        lemma_filter_keeps_distinct(front, keep);
        lemma_filter_members(front, keep, s.last());
        if front.contains(s.last()) {
            let k = choose|k: int| 0 <= k < front.len() && front[k] == s.last();
            assert(s[k] == s[s.len() - 1]);
        }
    }
}

} // verus!
