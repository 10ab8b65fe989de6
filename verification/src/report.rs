//! The lines that tell the user how far a session has come.

use vstd::prelude::*;
use vstd::string::StringExecFns;

verus! {

/// One line of progress.
#[derive(Clone, Debug, PartialEq, Eq)]
pub enum ReportLine {
    /// The workspace holds no unit that can be debugged.
    NoBinaryUnit,
    /// The debugger starts on the unit.
    Starting,
    /// The user halted the debugger before the witness was solved.
    Halted,
    /// The witness was solved.
    WitnessSolved,
    /// The value that the circuit returned, as text.
    CircuitOutput(String),
    /// The path to which the witness was written.
    WitnessSaved(String),
}

/// `rest` behind the unit's name in square brackets.
pub open spec fn tagged(unit_name: Seq<char>, rest: Seq<char>) -> Seq<char> {
    "["@ + unit_name + rest
}

impl ReportLine {
    /// The text of the line for the unit named `unit_name`.
    pub open spec fn text(self, unit_name: Seq<char>) -> Seq<char> {
        match self {
            ReportLine::NoBinaryUnit =>
            "No matching binary packages found in workspace. Only binary packages can be debugged."@,
            ReportLine::Starting => tagged(unit_name, "] Starting debugger"@),
            ReportLine::Halted => "Debugger execution halted."@,
            ReportLine::WitnessSolved => tagged(
                unit_name,
                "] Circuit witness successfully solved"@,
            ),
            ReportLine::CircuitOutput(value) => tagged(unit_name, "] Circuit output: "@) + value@,
            ReportLine::WitnessSaved(path) => tagged(unit_name, "] Witness saved to "@) + path@,
        }
    }

    /// The text of the line for the unit named `unit_name`.
    pub fn render(&self, unit_name: &str) -> (line: String)
        ensures
            line@ == self.text(unit_name@),
    {
        match self {
            ReportLine::NoBinaryUnit => String::from_str(
                "No matching binary packages found in workspace. Only binary packages can be debugged.",
            ),
            ReportLine::Starting => tag(unit_name, "] Starting debugger"),
            ReportLine::Halted => String::from_str("Debugger execution halted."),
            ReportLine::WitnessSolved => tag(unit_name, "] Circuit witness successfully solved"),
            ReportLine::CircuitOutput(value) => {
                let mut line = tag(unit_name, "] Circuit output: ");
                line.append(value.as_str());
                line
            },
            ReportLine::WitnessSaved(path) => {
                let mut line = tag(unit_name, "] Witness saved to ");
                line.append(path.as_str());
                line
            },
        }
    }
}

/// `rest` behind the unit's name in square brackets.
fn tag(unit_name: &str, rest: &str) -> (line: String)
    ensures
        line@ == tagged(unit_name@, rest@),
{
    let mut line = String::from_str("[");
    line.append(unit_name);
    line.append(rest);
    line
}

} // verus!
