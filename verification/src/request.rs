//! What the caller asks of a debugging session.

use acvm::acir::circuit::ExpressionWidth;
use vstd::prelude::*;

verus! {

/// The compile options that a session decides on.
#[derive(Clone, Copy, Debug, PartialEq, Eq)]
pub struct CompileSettings {
    /// Whether the compiler is to weave debug instrumentation into the program.
    pub instrument_debug: bool,
    /// The expression width that the caller asks for, if any.
    pub expression_width: Option<ExpressionWidth>,
}

impl CompileSettings {
    /// The settings with instrumentation switched on and all else as it was.
    pub open spec fn spec_for_debugging(self) -> CompileSettings {
        CompileSettings { instrument_debug: true, expression_width: self.expression_width }
    }

    /// The settings under which a unit is compiled for debugging:
    /// instrumentation is on whatever the caller chose, since a program
    /// without it cannot be stepped through.
    pub fn for_debugging(self) -> (settings: CompileSettings)
        ensures
            settings == self.spec_for_debugging(),
    {
        CompileSettings { instrument_debug: true, expression_width: self.expression_width }
    }
}

/// Which units of a project the workspace is resolved for.
#[derive(Clone, Debug, PartialEq, Eq)]
pub enum UnitSelection {
    /// The project's default unit, or all of them where it has no default.
    DefaultOrAll,
    /// The unit of this name.
    Selected(String),
}

/// One call of the debugger.
#[derive(Clone, Debug)]
pub struct DebugRequest {
    /// The name under which the solved witness is to be written, if it is to be.
    pub witness_name: Option<String>,
    /// The name of the profile from which the input values are read.
    pub prover_name: String,
    /// The unit to debug, where the caller names one.
    pub package: Option<String>,
    pub compile: CompileSettings,
}

impl DebugRequest {
    /// Which units the workspace is to be resolved for.
    pub open spec fn spec_selection(&self) -> UnitSelection {
        match self.package {
            Some(name) => UnitSelection::Selected(name),
            None => UnitSelection::DefaultOrAll,
        }
    }

    /// Which units the workspace is to be resolved for: the one that the
    /// caller names, else the default.
    pub fn selection(&self) -> (selection: UnitSelection)
        ensures
            selection == self.spec_selection(),
    {
        match &self.package {
            Some(name) => UnitSelection::Selected(name.clone()),
            None => UnitSelection::DefaultOrAll,
        }
    }
}

} // verus!
