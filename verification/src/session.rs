//! A debugging session as a state machine.
//!
//! The session decides what is done next; its driver does it and hands back
//! what came of it. The stages run in one order: instrument the owned files,
//! compile, settle the expression width, normalise, load the inputs, solve,
//! decode, persist. A failure, or the user's halt, ends the session at once.

use crate::error::{DebugError, SolveFault};
use crate::files::{FileId, FileRegistry, ParsedFiles};
use crate::ownership::{resolve, resolve_owned};
use crate::report::ReportLine;
use crate::request::{CompileSettings, DebugRequest};
use crate::workspace::{first_binary_at, Unit, Workspace};
use acvm::acir::circuit::ExpressionWidth;
use acvm::acir::native_types::WitnessMap;
use vstd::prelude::*;

verus! {

/// Where a session stands: the stage whose outcome it waits for, or how it ended.
#[derive(Clone, Copy, Debug, PartialEq, Eq, Structural)]
pub enum Phase {
    Instrument,
    Compile,
    QueryWidth,
    Normalize,
    LoadInputs,
    Solve,
    Decode,
    Persist,
    /// The workspace holds no unit that can be debugged; nothing was done.
    Idle,
    /// The user halted the debugger before the witness was solved.
    Halted,
    /// The witness was solved and decoded and, where that was asked for, written.
    Solved,
    /// A stage failed.
    Failed,
}

/// What a session remembers of the unit that it debugs.
#[derive(Clone, Debug, PartialEq, Eq)]
pub struct UnitFacts {
    pub name: String,
    pub root_dir: String,
}

/// What came of the stage that the session waited for.
#[derive(Debug, PartialEq, Eq)]
pub enum Event {
    Instrumented,
    Compiled,
    CompileFailed(Vec<String>),
    BackendWidth(ExpressionWidth),
    Normalized,
    InputsLoaded,
    InputsRejected(String),
    SolveFailed(SolveFault),
    SolverHalted,
    WitnessSolved(WitnessMap),
    /// The witness was decoded; the value that the circuit returned, as text,
    /// where it returned one.
    Decoded(Option<String>),
    DecodeFailed(String),
    /// The witness was written; the path of the file.
    WitnessSaved(String),
    SaveFailed(String),
}

/// All that a session knows, as contracts see it.
pub struct SessionState {
    pub phase: Phase,
    /// The unit that is debugged; none where the workspace has no binary unit.
    pub unit: Option<UnitFacts>,
    pub target_dir: String,
    pub prover_name: String,
    pub witness_name: Option<String>,
    /// The compile settings as the caller gave them.
    pub settings: CompileSettings,
    /// The files that get instrumentation.
    pub owned: Seq<FileId>,
    /// The width to normalise to, once it is settled.
    pub width: Option<ExpressionWidth>,
    pub witness: Option<WitnessMap>,
    pub return_value: Option<String>,
    pub witness_path: Option<String>,
    pub error: Option<DebugError>,
}

/// Whether a session in `phase` has ended.
pub open spec fn is_terminal(phase: Phase) -> bool {
    phase == Phase::Idle || phase == Phase::Halted || phase == Phase::Solved || phase
        == Phase::Failed
}

/// Whether a session in this state has a solved witness to show.
pub open spec fn holds_witness(s: SessionState) -> bool {
    s.phase == Phase::Decode || s.phase == Phase::Persist || s.phase == Phase::Solved || (s.phase
        == Phase::Failed && s.error is Some && s.error->0 is PersistenceError)
}

/// What holds of every session: it has a unit unless there is nothing to
/// debug, an error exactly if it failed, a witness exactly if solving produced
/// one that no later failure took away, and no file to instrument twice.
pub open spec fn well_formed(s: SessionState) -> bool {
    &&& s.phase == Phase::Idle <==> s.unit is None
    &&& s.phase == Phase::Failed <==> s.error is Some
    &&& s.witness is Some <==> holds_witness(s)
    &&& s.phase == Phase::Normalize ==> s.width is Some
    &&& s.phase == Phase::Persist ==> s.witness_name is Some
    &&& s.return_value is Some ==> s.witness is Some && s.phase != Phase::Decode
    &&& s.witness_path is Some ==> s.phase == Phase::Solved
    &&& s.phase == Phase::Solved ==> (s.witness_path is Some <==> s.witness_name is Some)
    &&& s.owned.no_duplicates()
}

/// The state in which a session starts.
///
/// Without a binary unit there is nothing to do. Else the first binary unit is
/// debugged, and the files that it owns are resolved before anything is done.
pub open spec fn initial_state(
    request: DebugRequest,
    units: Seq<Unit>,
    target_dir: String,
    files: Seq<FileId>,
    registry: Map<FileId, Seq<Seq<char>>>,
) -> SessionState {
    let idle = SessionState {
        phase: Phase::Idle,
        unit: None,
        target_dir: target_dir,
        prover_name: request.prover_name,
        witness_name: request.witness_name,
        settings: request.compile,
        owned: Seq::empty(),
        width: None,
        witness: None,
        return_value: None,
        witness_path: None,
        error: None,
    };
    let at = first_binary_at(units);
    if at >= units.len() {
        idle
    } else {
        let facts = Some(UnitFacts { name: units[at].name, root_dir: units[at].root_dir });
        match resolve(files, registry, units[at].entry_path@) {
            Err(fault) => SessionState {
                phase: Phase::Failed,
                unit: facts,
                error: Some(DebugError::ConsistencyFault(fault)),
                ..idle
            },
            Ok(owned) => SessionState { phase: Phase::Instrument, unit: facts, owned: owned, ..idle },
        }
    }
}

/// The session failed with `error`; what was solved before stays only where
/// the error says so.
pub open spec fn failed(s: SessionState, error: DebugError) -> SessionState {
    SessionState {
        phase: Phase::Failed,
        error: Some(error),
        witness: if error is PersistenceError {
            s.witness
        } else {
            None
        },
        ..s
    }
}

/// The state after `event`.
///
/// An event that does not tell what came of the stage that the session waits
/// for changes nothing; so a session that has ended stays as it is.
pub open spec fn after(s: SessionState, event: Event) -> SessionState {
    match (s.phase, event) {
        (Phase::Instrument, Event::Instrumented) => SessionState { phase: Phase::Compile, ..s },
        (Phase::Compile, Event::Compiled) => match s.settings.expression_width {
            Some(width) => SessionState { phase: Phase::Normalize, width: Some(width), ..s },
            None => SessionState { phase: Phase::QueryWidth, ..s },
        },
        (Phase::Compile, Event::CompileFailed(diagnostics)) => failed(
            s,
            DebugError::CompileErrors(diagnostics),
        ),
        (Phase::QueryWidth, Event::BackendWidth(width)) => SessionState {
            phase: Phase::Normalize,
            width: Some(width),
            ..s
        },
        (Phase::Normalize, Event::Normalized) => SessionState { phase: Phase::LoadInputs, ..s },
        (Phase::LoadInputs, Event::InputsLoaded) => SessionState { phase: Phase::Solve, ..s },
        (Phase::LoadInputs, Event::InputsRejected(reason)) => failed(
            s,
            DebugError::InputError(reason),
        ),
        (Phase::Solve, Event::SolveFailed(fault)) => failed(s, DebugError::SolveError(fault)),
        (Phase::Solve, Event::SolverHalted) => SessionState { phase: Phase::Halted, ..s },
        (Phase::Solve, Event::WitnessSolved(witness)) => SessionState {
            phase: Phase::Decode,
            witness: Some(witness),
            ..s
        },
        (Phase::Decode, Event::Decoded(value)) => SessionState {
            phase: if s.witness_name is Some {
                Phase::Persist
            } else {
                Phase::Solved
            },
            return_value: value,
            ..s
        },
        (Phase::Decode, Event::DecodeFailed(reason)) => failed(s, DebugError::DecodeError(reason)),
        (Phase::Persist, Event::WitnessSaved(path)) => SessionState {
            phase: Phase::Solved,
            witness_path: Some(path),
            ..s
        },
        (Phase::Persist, Event::SaveFailed(reason)) => failed(
            s,
            DebugError::PersistenceError(reason),
        ),
        _ => s,
    }
}

/// The line for the value that the circuit returned, where it returned one.
pub open spec fn output_lines(value: Option<String>) -> Seq<ReportLine> {
    match value {
        Some(text) => seq![ReportLine::CircuitOutput(text)],
        None => Seq::empty(),
    }
}

/// The line for the file that the witness was written to, where it was written.
pub open spec fn saved_lines(path: Option<String>) -> Seq<ReportLine> {
    match path {
        Some(text) => seq![ReportLine::WitnessSaved(text)],
        None => Seq::empty(),
    }
}

/// The lines of a session whose witness was solved and decoded.
pub open spec fn solved_lines(s: SessionState) -> Seq<ReportLine> {
    seq![ReportLine::Starting, ReportLine::WitnessSolved] + output_lines(s.return_value)
}

/// The lines that a session in this state has reported, first to last.
///
/// One for the start, once the program is compiled and normalised; one for
/// the solved witness, once it is decoded, or one for the halt; one for the
/// returned value, if there is one; one for the written witness. A failure
/// adds no line and takes none back.
pub open spec fn report(s: SessionState) -> Seq<ReportLine> {
    match s.phase {
        Phase::Idle => seq![ReportLine::NoBinaryUnit],
        Phase::Instrument | Phase::Compile | Phase::QueryWidth | Phase::Normalize => Seq::empty(),
        Phase::LoadInputs | Phase::Solve | Phase::Decode => seq![ReportLine::Starting],
        Phase::Halted => seq![ReportLine::Starting, ReportLine::Halted],
        Phase::Persist => solved_lines(s),
        Phase::Solved => solved_lines(s) + saved_lines(s.witness_path),
        Phase::Failed => match s.error {
            Some(DebugError::ConsistencyFault(_)) | Some(DebugError::CompileErrors(_)) | None =>
            Seq::empty(),
            Some(DebugError::PersistenceError(_)) => solved_lines(s),
            Some(_) => seq![ReportLine::Starting],
        },
    }
}

/// The name of the unit that is debugged; empty where there is none.
pub open spec fn unit_name(s: SessionState) -> Seq<char> {
    match s.unit {
        Some(unit) => unit.name@,
        None => Seq::empty(),
    }
}

/// What a session in this state hands back when it is over.
pub open spec fn outcome_of(s: SessionState) -> Result<
    (Option<String>, Option<WitnessMap>),
    DebugError,
> {
    match s.error {
        Some(error) => Err(error),
        None => Ok((s.return_value, s.witness)),
    }
}

impl Event {
    /// What came of compiling: the diagnostics where it failed.
    pub fn of_compilation(result: Result<(), Vec<String>>) -> (event: Event)
        ensures
            event == match result {
                Ok(_) => Event::Compiled,
                Err(diagnostics) => Event::CompileFailed(diagnostics),
            },
    {
        match result {
            Ok(_) => Event::Compiled,
            Err(diagnostics) => Event::CompileFailed(diagnostics),
        }
    }

    /// What came of loading the inputs: the reason where they were rejected.
    pub fn of_inputs(result: Result<(), String>) -> (event: Event)
        ensures
            event == match result {
                Ok(_) => Event::InputsLoaded,
                Err(reason) => Event::InputsRejected(reason),
            },
    {
        match result {
            Ok(_) => Event::InputsLoaded,
            Err(reason) => Event::InputsRejected(reason),
        }
    }

    /// What came of solving: a witness, the user's halt where there is none,
    /// or the fault.
    pub fn of_solving(result: Result<Option<WitnessMap>, SolveFault>) -> (event: Event)
        ensures
            event == match result {
                Ok(Some(witness)) => Event::WitnessSolved(witness),
                Ok(None) => Event::SolverHalted,
                Err(fault) => Event::SolveFailed(fault),
            },
    {
        match result {
            Ok(Some(witness)) => Event::WitnessSolved(witness),
            Ok(None) => Event::SolverHalted,
            Err(fault) => Event::SolveFailed(fault),
        }
    }

    /// What came of decoding: the returned value, if the circuit returns one,
    /// or the reason for the failure.
    pub fn of_decoding(result: Result<Option<String>, String>) -> (event: Event)
        ensures
            event == match result {
                Ok(value) => Event::Decoded(value),
                Err(reason) => Event::DecodeFailed(reason),
            },
    {
        match result {
            Ok(value) => Event::Decoded(value),
            Err(reason) => Event::DecodeFailed(reason),
        }
    }

    /// What came of writing the witness: the path of the file, or the reason
    /// for the failure.
    pub fn of_saving(result: Result<String, String>) -> (event: Event)
        ensures
            event == match result {
                Ok(path) => Event::WitnessSaved(path),
                Err(reason) => Event::SaveFailed(reason),
            },
    {
        match result {
            Ok(path) => Event::WitnessSaved(path),
            Err(reason) => Event::SaveFailed(reason),
        }
    }
}

/// What the session asks its driver to do.
#[derive(Clone, Copy, Debug, PartialEq, Eq)]
pub enum Action<'a> {
    /// Instrument each of these files, once, into one record for the session.
    Instrument { files: &'a Vec<FileId> },
    /// Compile the unit under these settings, with the instrumentation record.
    Compile { settings: CompileSettings },
    /// Ask the proving backend for its expression width.
    QueryBackendWidth,
    /// Normalise the compiled program to this width.
    Normalize { width: ExpressionWidth },
    /// Read the input values of this profile from the unit's directory.
    LoadInputs { root_dir: &'a String, profile: &'a String },
    /// Encode the inputs and let the user step through the circuit.
    Solve,
    /// Decode what the circuit returned from this witness.
    Decode { witness: &'a WitnessMap },
    /// Write this witness under this name into the target directory.
    Persist { witness: &'a WitnessMap, target_dir: &'a String, name: &'a String },
    /// Nothing more: the session has ended.
    Finish,
}

impl<'a> Action<'a> {
    /// Whether this is what a session in state `s` asks for, with what it hands over.
    pub open spec fn serves(self, s: SessionState) -> bool {
        match self {
            Action::Instrument { files } => s.phase == Phase::Instrument && files@ == s.owned,
            Action::Compile { settings } => s.phase == Phase::Compile && settings
                == s.settings.spec_for_debugging(),
            Action::QueryBackendWidth => s.phase == Phase::QueryWidth,
            Action::Normalize { width } => s.phase == Phase::Normalize && s.width == Some(width),
            Action::LoadInputs { root_dir, profile } => s.phase == Phase::LoadInputs && s.unit
                is Some && *root_dir == s.unit->0.root_dir && *profile == s.prover_name,
            Action::Solve => s.phase == Phase::Solve,
            Action::Decode { witness } => s.phase == Phase::Decode && s.witness == Some(*witness),
            Action::Persist { witness, target_dir, name } => s.phase == Phase::Persist && s.witness
                == Some(*witness) && *target_dir == s.target_dir && s.witness_name == Some(*name),
            Action::Finish => is_terminal(s.phase),
        }
    }
}

/// A debugging session.
#[derive(Debug)]
pub struct Session {
    phase: Phase,
    unit: Option<UnitFacts>,
    target_dir: String,
    prover_name: String,
    witness_name: Option<String>,
    settings: CompileSettings,
    owned: Vec<FileId>,
    width: Option<ExpressionWidth>,
    witness: Option<WitnessMap>,
    return_value: Option<String>,
    witness_path: Option<String>,
    error: Option<DebugError>,
}

impl View for Session {
    type V = SessionState;

    closed spec fn view(&self) -> SessionState {
        SessionState {
            phase: self.phase,
            unit: self.unit,
            target_dir: self.target_dir,
            prover_name: self.prover_name,
            witness_name: self.witness_name,
            settings: self.settings,
            owned: self.owned@,
            width: self.width,
            witness: self.witness,
            return_value: self.return_value,
            witness_path: self.witness_path,
            error: self.error,
        }
    }
}

impl Session {
    #[verifier::type_invariant]
    spec fn sound(self) -> bool {
        well_formed(self@)
    }

    /// Opens the session for one call of the debugger on a resolved workspace
    /// and its parsed files.
    pub fn open(
        request: DebugRequest,
        workspace: &Workspace,
        files: &ParsedFiles,
        registry: &FileRegistry,
    ) -> (session: Session)
        ensures
            session@ == initial_state(
                request,
                workspace.spec_units(),
                workspace.spec_target_dir(),
                files@,
                registry@,
            ),
            well_formed(session@),
    {
        let target_dir = workspace.target_dir().clone();
        let DebugRequest { witness_name, prover_name, package: _, compile } = request;
        match workspace.first_binary() {
            None => Session {
                phase: Phase::Idle,
                unit: None,
                target_dir,
                prover_name,
                witness_name,
                settings: compile,
                owned: Vec::new(),
                width: None,
                witness: None,
                return_value: None,
                witness_path: None,
                error: None,
            },
            Some(unit) => {
                let facts = UnitFacts { name: unit.name.clone(), root_dir: unit.root_dir.clone() };
                match resolve_owned(files, registry, unit) {
                    Err(fault) => Session {
                        phase: Phase::Failed,
                        unit: Some(facts),
                        target_dir,
                        prover_name,
                        witness_name,
                        settings: compile,
                        owned: Vec::new(),
                        width: None,
                        witness: None,
                        return_value: None,
                        witness_path: None,
                        error: Some(DebugError::ConsistencyFault(fault)),
                    },
                    Ok(owned) => Session {
                        phase: Phase::Instrument,
                        unit: Some(facts),
                        target_dir,
                        prover_name,
                        witness_name,
                        settings: compile,
                        owned,
                        width: None,
                        witness: None,
                        return_value: None,
                        witness_path: None,
                        error: None,
                    },
                }
            },
        }
    }

    /// The session after `event`.
    pub fn step(self, event: Event) -> (next: Session)
        ensures
            next@ == after(self@, event),
            well_formed(next@),
    {
        proof {
            use_type_invariant(&self);
        }
        match (self.phase, event) {
            (Phase::Instrument, Event::Instrumented) => Session { phase: Phase::Compile, ..self },
            (Phase::Compile, Event::Compiled) => match self.settings.expression_width {
                Some(width) => Session { phase: Phase::Normalize, width: Some(width), ..self },
                None => Session { phase: Phase::QueryWidth, ..self },
            },
            (Phase::Compile, Event::CompileFailed(diagnostics)) => Session {
                phase: Phase::Failed,
                error: Some(DebugError::CompileErrors(diagnostics)),
                ..self
            },
            (Phase::QueryWidth, Event::BackendWidth(width)) => Session {
                phase: Phase::Normalize,
                width: Some(width),
                ..self
            },
            (Phase::Normalize, Event::Normalized) => Session { phase: Phase::LoadInputs, ..self },
            (Phase::LoadInputs, Event::InputsLoaded) => Session { phase: Phase::Solve, ..self },
            (Phase::LoadInputs, Event::InputsRejected(reason)) => Session {
                phase: Phase::Failed,
                error: Some(DebugError::InputError(reason)),
                ..self
            },
            (Phase::Solve, Event::SolveFailed(fault)) => Session {
                phase: Phase::Failed,
                error: Some(DebugError::SolveError(fault)),
                ..self
            },
            (Phase::Solve, Event::SolverHalted) => Session { phase: Phase::Halted, ..self },
            (Phase::Solve, Event::WitnessSolved(witness)) => Session {
                phase: Phase::Decode,
                witness: Some(witness),
                ..self
            },
            (Phase::Decode, Event::Decoded(value)) => {
                let phase = if self.witness_name.is_some() {
                    Phase::Persist
                } else {
                    Phase::Solved
                };
                Session { phase, return_value: value, ..self }
            },
            (Phase::Decode, Event::DecodeFailed(reason)) => Session {
                phase: Phase::Failed,
                error: Some(DebugError::DecodeError(reason)),
                witness: None,
                ..self
            },
            (Phase::Persist, Event::WitnessSaved(path)) => Session {
                phase: Phase::Solved,
                witness_path: Some(path),
                ..self
            },
            (Phase::Persist, Event::SaveFailed(reason)) => Session {
                phase: Phase::Failed,
                error: Some(DebugError::PersistenceError(reason)),
                ..self
            },
            (_, _) => self,
        }
    }

    /// What the driver is to do next, with what it needs for it.
    pub fn pending(&self) -> (action: Action<'_>)
        ensures
            action.serves(self@),
    {
        proof {
            use_type_invariant(self);
        }
        match self.phase {
            Phase::Instrument => Action::Instrument { files: &self.owned },
            Phase::Compile => Action::Compile { settings: self.settings.for_debugging() },
            Phase::QueryWidth => Action::QueryBackendWidth,
            Phase::Normalize => Action::Normalize { width: self.width.unwrap() },
            Phase::LoadInputs => Action::LoadInputs {
                root_dir: &self.unit.as_ref().unwrap().root_dir,
                profile: &self.prover_name,
            },
            Phase::Solve => Action::Solve,
            Phase::Decode => Action::Decode { witness: self.witness.as_ref().unwrap() },
            Phase::Persist => Action::Persist {
                witness: self.witness.as_ref().unwrap(),
                target_dir: &self.target_dir,
                name: self.witness_name.as_ref().unwrap(),
            },
            Phase::Idle | Phase::Halted | Phase::Solved | Phase::Failed => Action::Finish,
        }
    }

    /// The lines that the session has reported so far, first to last.
    pub fn report(&self) -> (lines: Vec<ReportLine>)
        ensures
            lines@ == report(self@),
    {
        let mut lines: Vec<ReportLine> = Vec::new();
        match self.phase {
            Phase::Idle => {
                lines.push(ReportLine::NoBinaryUnit);
            },
            Phase::Instrument | Phase::Compile | Phase::QueryWidth | Phase::Normalize => {},
            Phase::LoadInputs | Phase::Solve | Phase::Decode => {
                lines.push(ReportLine::Starting);
            },
            Phase::Halted => {
                lines.push(ReportLine::Starting);
                lines.push(ReportLine::Halted);
            },
            Phase::Persist => {
                self.push_solved_lines(&mut lines);
            },
            Phase::Solved => {
                self.push_solved_lines(&mut lines);
                if let Some(path) = &self.witness_path {
                    lines.push(ReportLine::WitnessSaved(path.clone()));
                }
            },
            Phase::Failed => match &self.error {
                Some(DebugError::ConsistencyFault(_)) | Some(DebugError::CompileErrors(_)) | None => {},
                Some(DebugError::PersistenceError(_)) => {
                    self.push_solved_lines(&mut lines);
                },
                Some(_) => {
                    lines.push(ReportLine::Starting);
                },
            },
        }
        assert(lines@ =~= report(self@));
        lines
    }

    /// Adds the lines of a solved and decoded witness to no lines.
    fn push_solved_lines(&self, lines: &mut Vec<ReportLine>)
        requires
            old(lines)@.len() == 0,
        ensures
            final(lines)@ == solved_lines(self@),
    {
        lines.push(ReportLine::Starting);
        lines.push(ReportLine::WitnessSolved);
        if let Some(value) = &self.return_value {
            lines.push(ReportLine::CircuitOutput(value.clone()));
        }
        assert(lines@ =~= solved_lines(self@));
    }

    /// The text of each reported line, first to last.
    pub fn report_text(&self) -> (texts: Vec<String>)
        ensures
            texts@.len() == report(self@).len(),
            forall|i: int|
                0 <= i < texts@.len() ==> (#[trigger] texts@[i])@ == report(self@)[i].text(
                    unit_name(self@),
                ),
    {
        let lines = self.report();
        let mut texts: Vec<String> = Vec::new();
        let mut i: usize = 0;
        while i < lines.len()
            invariant
                i <= lines.len(),
                lines@ == report(self@),
                texts@.len() == i,
                forall|k: int|
                    0 <= k < i ==> (#[trigger] texts@[k])@ == lines@[k].text(unit_name(self@)),
            decreases lines.len() - i,
        {
            let text = match &self.unit {
                Some(unit) => lines[i].render(unit.name.as_str()),
                None => lines[i].render(""),
            };
            proof {
                reveal_strlit("");
                assert(""@ =~= Seq::<char>::empty());
            }
            texts.push(text);
            i += 1;
        }
        texts
    }

    /// The unit that is debugged; none where the workspace has no binary unit.
    pub fn unit(&self) -> (unit: Option<&UnitFacts>)
        ensures
            unit is Some <==> self@.unit is Some,
            unit matches Some(u) ==> self@.unit == Some(*u),
    {
        self.unit.as_ref()
    }

    /// The error that ended the session, if one did.
    pub fn error(&self) -> (error: Option<&DebugError>)
        ensures
            error is Some <==> self@.error is Some,
            error matches Some(e) ==> self@.error == Some(*e),
    {
        self.error.as_ref()
    }

    /// The solved witness, where the session has one to show.
    pub fn witness(&self) -> (witness: Option<&WitnessMap>)
        ensures
            witness is Some <==> self@.witness is Some,
            witness matches Some(w) ==> self@.witness == Some(*w),
            well_formed(self@),
    {
        proof {
            use_type_invariant(self);
        }
        self.witness.as_ref()
    }

    /// The value that the circuit returned, as text, once the witness is
    /// decoded and where the circuit returns one.
    pub fn return_value(&self) -> (value: Option<&String>)
        ensures
            value is Some <==> self@.return_value is Some,
            value matches Some(v) ==> self@.return_value == Some(*v),
    {
        self.return_value.as_ref()
    }

    /// The path to which the witness was written, once it is written.
    pub fn witness_path(&self) -> (path: Option<&String>)
        ensures
            path is Some <==> self@.witness_path is Some,
            path matches Some(p) ==> self@.witness_path == Some(*p),
    {
        self.witness_path.as_ref()
    }

    /// What the session hands back when it is over: the error, if a stage
    /// failed; else the returned value and the witness, both absent where
    /// nothing was solved.
    pub fn into_outcome(self) -> (outcome: Result<(Option<String>, Option<WitnessMap>), DebugError>)
        ensures
            outcome == outcome_of(self@),
            well_formed(self@),
    {
        proof {
            use_type_invariant(&self);
        }
        match self.error {
            Some(error) => Err(error),
            None => Ok((self.return_value, self.witness)),
        }
    }

    /// Where the session stands.
    pub fn phase(&self) -> (phase: Phase)
        ensures
            phase == self@.phase,
            well_formed(self@),
    {
        proof {
            use_type_invariant(self);
        }
        self.phase
    }
}

} // verus!
