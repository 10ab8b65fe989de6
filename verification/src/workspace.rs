//! Compilable units and the workspace that holds them.

use crate::path::{parent_of, SourcePath};
use crate::scan::{first_index, lemma_first_index_is};
use vstd::prelude::*;

verus! {

/// What a unit compiles to. Only a binary unit can be debugged.
#[derive(Clone, Copy, Debug, PartialEq, Eq, Structural)]
pub enum UnitKind {
    Binary,
    NonBinary,
}

/// One compilable unit of a workspace.
#[derive(Clone, Debug)]
pub struct Unit {
    pub name: String,
    /// The directory of the unit, as the text that names it on this machine.
    pub root_dir: String,
    /// The file at which compilation of the unit starts.
    pub entry_path: SourcePath,
    pub kind: UnitKind,
}

impl Unit {
    /// The directory whose subtree holds the unit's source files: the one that
    /// holds the entry file.
    pub open spec fn spec_base(&self) -> Option<Seq<Seq<char>>> {
        parent_of(self.entry_path@)
    }

    /// Whether the unit can be debugged.
    pub fn is_binary(&self) -> (binary: bool)
        ensures
            binary == (self.kind == UnitKind::Binary),
    {
        self.kind == UnitKind::Binary
    }

    /// The directory that holds the entry file; `None` where the entry path
    /// names no such directory.
    pub fn base(&self) -> (dir: Option<SourcePath>)
        ensures
            dir is Some <==> self.spec_base() is Some,
            dir matches Some(d) ==> self.spec_base() == Some(d@),
    {
        self.entry_path.parent()
    }
}

/// No two of `units` have the same name.
pub open spec fn names_differ(units: Seq<Unit>) -> bool {
    forall|i: int, j: int| 0 <= i < j < units.len() ==> units[i].name@ != units[j].name@
}

/// The place of the first binary unit among `units`: `units.len()` if there is none.
pub open spec fn first_binary_at(units: Seq<Unit>) -> int {
    first_index(units, |unit: Unit| unit.kind == UnitKind::Binary)
}

/// The units that a call of the debugger was resolved for, in their order,
/// and the directory for what is built.
///
/// No two units have the same name.
#[derive(Debug)]
pub struct Workspace {
    units: Vec<Unit>,
    target_dir: String,
}

impl Workspace {
    #[verifier::type_invariant]
    spec fn unique_names(self) -> bool {
        names_differ(self.units@)
    }

    /// The units in their order.
    pub closed spec fn spec_units(&self) -> Seq<Unit> {
        self.units@
    }

    /// The directory for what is built.
    pub closed spec fn spec_target_dir(&self) -> String {
        self.target_dir
    }

    /// The workspace of `units`, in that order; `None` where two units share a name.
    pub fn new(units: Vec<Unit>, target_dir: String) -> (workspace: Option<Workspace>)
        ensures
            workspace is Some <==> names_differ(units@),
            workspace matches Some(w) ==> w.spec_units() == units@ && w.spec_target_dir()
                == target_dir,
    {
        let mut j: usize = 0;
        while j < units.len()
            invariant
                j <= units.len(),
                forall|a: int, b: int| 0 <= a < b < j ==> units@[a].name@ != units@[b].name@,
            decreases units.len() - j,
        {
            let mut i: usize = 0;
            while i < j
                invariant
                    i <= j < units.len(),
                    forall|a: int| 0 <= a < i ==> units@[a].name@ != units@[j as int].name@,
                decreases j - i,
            {
                if units[i].name == units[j].name {
                    return None;
                }
                i += 1;
            }
            j += 1;
        }
        Some(Workspace { units, target_dir })
    }

    /// The units in their order; no two share a name.
    pub fn units(&self) -> (units: &Vec<Unit>)
        ensures
            units@ == self.spec_units(),
            names_differ(units@),
    {
        proof {
            use_type_invariant(self);
        }
        &self.units
    }

    /// The directory for what is built.
    pub fn target_dir(&self) -> (dir: &String)
        ensures
            *dir == self.spec_target_dir(),
    {
        &self.target_dir
    }

    /// The first binary unit in the workspace's order, if it has one.
    pub fn first_binary(&self) -> (unit: Option<&Unit>)
        ensures
            unit is Some <==> first_binary_at(self.spec_units()) < self.spec_units().len(),
            unit matches Some(u) ==> *u == self.spec_units()[first_binary_at(self.spec_units())],
    {
        let ghost binary = |unit: Unit| unit.kind == UnitKind::Binary;
        let mut i: usize = 0;
        while i < self.units.len()
            invariant
                i <= self.units.len(),
                binary == (|unit: Unit| unit.kind == UnitKind::Binary),
                forall|k: int| 0 <= k < i ==> !binary(#[trigger] self.units@[k]),
            decreases self.units.len() - i,
        {
            if self.units[i].is_binary() {
                proof {
                    lemma_first_index_is(self.units@, binary, i as int);
                }
                return Some(&self.units[i]);
            }
            i += 1;
        }
        proof {
            lemma_first_index_is(self.units@, binary, self.units@.len() as int);
        }
        None
    }
}

} // verus!
