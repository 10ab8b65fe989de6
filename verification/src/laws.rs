//! What holds of every session, whatever its driver hands back.

use crate::error::DebugError;
use crate::files::FileId;
use crate::ownership::{law_each_owned_file_once, resolve};
use crate::report::ReportLine;
use crate::request::DebugRequest;
use crate::scan::lemma_first_index;
use crate::session::{
    after, initial_state, is_terminal, outcome_of, report, solved_lines, well_formed, Event, Phase,
    SessionState,
};
use crate::workspace::{first_binary_at, Unit, UnitKind};
use acvm::acir::native_types::WitnessMap;
use vstd::prelude::*;

verus! {

/// The state after each of `events` in turn.
pub open spec fn run(s: SessionState, events: Seq<Event>) -> SessionState
    decreases events.len(),
{
    if events.len() == 0 {
        s
    } else {
        run(after(s, events[0]), events.drop_first())
    }
}

/// The place of a phase in the order of the stages; where a session has ended
/// comes last.
pub open spec fn rank(phase: Phase) -> int {
    match phase {
        Phase::Instrument => 0,
        Phase::Compile => 1,
        Phase::QueryWidth => 2,
        Phase::Normalize => 3,
        Phase::LoadInputs => 4,
        Phase::Solve => 5,
        Phase::Decode => 6,
        Phase::Persist => 7,
        Phase::Idle | Phase::Halted | Phase::Solved | Phase::Failed => 8,
    }
}

/// How often a session that starts in `s` comes into `phase` under `events`.
pub open spec fn times_entered(s: SessionState, events: Seq<Event>, phase: Phase) -> nat
    decreases events.len(),
{
    if events.len() == 0 {
        0
    } else {
        let next = after(s, events[0]);
        let here: nat = if next.phase == phase && s.phase != phase {
            1
        } else {
            0
        };
        here + times_entered(next, events.drop_first(), phase)
    }
}

/// Whether a session that starts in `s` waits for a decoding at any time
/// under `events`.
pub open spec fn decode_was_asked(s: SessionState, events: Seq<Event>) -> bool
    decreases events.len(),
{
    s.phase == Phase::Decode || (events.len() > 0 && decode_was_asked(
        after(s, events[0]),
        events.drop_first(),
    ))
}

/// Whether a session that starts in `s` takes a solved witness from the solve
/// stage at any time under `events`.
pub open spec fn witness_was_produced(s: SessionState, events: Seq<Event>) -> bool
    decreases events.len(),
{
    events.len() > 0 && ((s.phase == Phase::Solve && events[0] is WitnessSolved)
        || witness_was_produced(after(s, events[0]), events.drop_first()))
}

/// A session over parsed files of which none occurs twice starts in a state
/// of which `well_formed` holds.
pub proof fn law_session_starts_well_formed(
    request: DebugRequest,
    units: Seq<Unit>,
    target_dir: String,
    files: Seq<FileId>,
    registry: Map<FileId, Seq<Seq<char>>>,
)
    requires
        files.no_duplicates(),
    ensures
        well_formed(initial_state(request, units, target_dir, files, registry)),
{
    let at = first_binary_at(units);
    if at < units.len() && resolve(files, registry, units[at].entry_path@) is Ok {
        law_each_owned_file_once(files, registry, units[at].entry_path@);
    }
}

/// A compilation that failed is the session's error, with the diagnostics as
/// they came, and the program is never normalised.
pub proof fn law_failed_compile_is_not_normalised(
    s: SessionState,
    diagnostics: Vec<String>,
    events: Seq<Event>,
)
    requires
        s.phase == Phase::Compile,
    ensures
        after(s, Event::CompileFailed(diagnostics)).error == Some(
            DebugError::CompileErrors(diagnostics),
        ),
        run(after(s, Event::CompileFailed(diagnostics)), events) == after(
            s,
            Event::CompileFailed(diagnostics),
        ),
        times_entered(after(s, Event::CompileFailed(diagnostics)), events, Phase::Normalize) == 0,
{
    let failed = after(s, Event::CompileFailed(diagnostics));
    lemma_ended_stays(failed, events);
    law_each_stage_at_most_once(failed, events, Phase::Normalize);
}

/// No event leads out of the states of which `well_formed` holds.
pub proof fn law_step_keeps_well_formed(s: SessionState, event: Event)
    requires
        well_formed(s),
    ensures
        well_formed(after(s, event)),
{
}

/// An event changes nothing, or takes the session to a later stage: no stage
/// is gone back to, and a session that has ended stays as it ended.
pub proof fn law_stages_run_in_order(s: SessionState, event: Event)
    ensures
        after(s, event) == s || rank(after(s, event).phase) > rank(s.phase),
        is_terminal(s.phase) ==> after(s, event) == s,
{
}

/// Whatever the events, the session stays well formed and never stands
/// earlier than it did; one that has ended stays as it ended.
pub proof fn law_run_goes_forward(s: SessionState, events: Seq<Event>)
    requires
        well_formed(s),
    ensures
        well_formed(run(s, events)),
        rank(run(s, events).phase) >= rank(s.phase),
        is_terminal(s.phase) ==> run(s, events) == s,
    decreases events.len(),
{
    if events.len() > 0 {
        law_step_keeps_well_formed(s, events[0]);
        law_stages_run_in_order(s, events[0]);
        law_run_goes_forward(after(s, events[0]), events.drop_first());
    }
}

/// No stage is come into twice, and none that lies at or before the one in
/// which the session stands: each file is instrumented once, the program is
/// compiled once and normalised once.
pub proof fn law_each_stage_at_most_once(s: SessionState, events: Seq<Event>, phase: Phase)
    ensures
        times_entered(s, events, phase) <= 1,
        rank(phase) <= rank(s.phase) ==> times_entered(s, events, phase) == 0,
    decreases events.len(),
{
    if events.len() > 0 {
        law_stages_run_in_order(s, events[0]);
        law_each_stage_at_most_once(after(s, events[0]), events.drop_first(), phase);
    }
}

/// Whatever the events, the files to instrument stay the ones that the session
/// started with, none of them twice, and the session never comes back to
/// instrumenting them: each owned file is instrumented once.
pub proof fn law_files_are_instrumented_once(s: SessionState, events: Seq<Event>)
    requires
        well_formed(s),
    ensures
        run(s, events).owned == s.owned,
        s.owned.no_duplicates(),
        times_entered(s, events, Phase::Instrument) == 0,
    decreases events.len(),
{
    law_each_stage_at_most_once(s, events, Phase::Instrument);
    if events.len() > 0 {
        law_step_keeps_well_formed(s, events[0]);
        law_files_are_instrumented_once(after(s, events[0]), events.drop_first());
    }
}

/// A session that starts before the program is normalised and comes to
/// loading inputs, to solving or to anything behind it has normalised the
/// program exactly once on the way.
pub proof fn law_normalised_once_before_solving(s: SessionState, events: Seq<Event>)
    requires
        rank(s.phase) < rank(Phase::Normalize),
        ({
            let last = run(s, events).phase;
            rank(last) > rank(Phase::Normalize) && last != Phase::Failed && last != Phase::Idle
        }),
    ensures
        times_entered(s, events, Phase::Normalize) == 1,
    decreases events.len(),
{
    if events.len() > 0 {
        let next = after(s, events[0]);
        let rest = events.drop_first();
        law_stages_run_in_order(s, events[0]);
        if next.phase == Phase::Normalize {
            law_each_stage_at_most_once(next, rest, Phase::Normalize);
        } else if is_terminal(next.phase) {
            lemma_ended_stays(next, rest);
        } else {
            law_normalised_once_before_solving(next, rest);
        }
    }
}

/// A session that has ended is not moved by any events.
proof fn lemma_ended_stays(s: SessionState, events: Seq<Event>)
    requires
        is_terminal(s.phase),
    ensures
        run(s, events) == s,
    decreases events.len(),
{
    if events.len() > 0 {
        lemma_ended_stays(after(s, events[0]), events.drop_first());
    }
}

/// A halted session has no witness and hands none back; a solved session has
/// one and hands it back.
pub proof fn law_witness_exactly_when_solved(s: SessionState, events: Seq<Event>)
    requires
        well_formed(s),
    ensures
        run(s, events).phase == Phase::Halted ==> run(s, events).witness is None && outcome_of(
            run(s, events),
        ) == Ok::<(Option<String>, Option<WitnessMap>), DebugError>(
            (None, None),
        ),
        run(s, events).phase == Phase::Solved ==> run(s, events).witness is Some && outcome_of(
            run(s, events),
        ) is Ok && outcome_of(run(s, events))->Ok_0.1 is Some,
{
    law_run_goes_forward(s, events);
}

/// A session waits for a decoding exactly if the solve stage produced a
/// witness; after a halt it never does.
pub proof fn law_decode_only_after_solve(s: SessionState, events: Seq<Event>)
    ensures
        rank(s.phase) < rank(Phase::Decode) ==> decode_was_asked(s, events)
            == witness_was_produced(s, events),
        rank(s.phase) > rank(Phase::Decode) ==> !decode_was_asked(s, events)
            && !witness_was_produced(s, events),
        s.phase == Phase::Halted ==> !decode_was_asked(s, events),
    decreases events.len(),
{
    if events.len() > 0 {
        let next = after(s, events[0]);
        let rest = events.drop_first();
        law_stages_run_in_order(s, events[0]);
        law_decode_only_after_solve(next, rest);
        if next.phase == Phase::Decode {
            assert(decode_was_asked(next, rest));
        }
    }
}

/// No event takes back a line that was reported: the report after an event
/// starts with the report before it.
pub proof fn law_report_only_grows(s: SessionState, event: Event)
    requires
        well_formed(s),
    ensures
        report(s).is_prefix_of(report(after(s, event))),
{
    let t = after(s, event);
    if t != s {
        assert(report(s) =~= report(t).subrange(0, report(s).len() as int));
    }
}

/// Whatever the events, the report at the end starts with the report at the start.
pub proof fn law_report_is_kept(s: SessionState, events: Seq<Event>)
    requires
        well_formed(s),
    ensures
        report(s).is_prefix_of(report(run(s, events))),
    decreases events.len(),
{
    if events.len() > 0 {
        let next = after(s, events[0]);
        law_step_keeps_well_formed(s, events[0]);
        law_report_only_grows(s, events[0]);
        law_report_is_kept(next, events.drop_first());
        let last = report(run(s, events));
        assert(report(s) =~= last.subrange(0, report(s).len() as int)) by {
            assert(report(s) =~= report(next).subrange(0, report(s).len() as int));
            assert(report(next) =~= last.subrange(0, report(next).len() as int));
        }
    }
}

/// A failure to write the witness is the session's error, and nothing else
/// changes: the lines for the solved witness and the returned value stay as
/// they were reported, no line is added, and the witness and the value stay
/// with the session.
pub proof fn law_failed_save_is_isolated(s: SessionState, reason: String)
    requires
        well_formed(s),
        s.phase == Phase::Persist,
    ensures
        after(s, Event::SaveFailed(reason)).error == Some(DebugError::PersistenceError(reason)),
        after(s, Event::SaveFailed(reason)).phase == Phase::Failed,
        report(after(s, Event::SaveFailed(reason))) == report(s),
        report(s) == solved_lines(s),
        report(s)[0] == ReportLine::Starting,
        report(s)[1] == ReportLine::WitnessSolved,
        after(s, Event::SaveFailed(reason)).witness == s.witness,
        after(s, Event::SaveFailed(reason)).return_value == s.return_value,
        s.witness is Some,
{
}

/// Without a binary unit a session has ended before it began: it reports
/// that there is nothing to debug, asks for no work and has no error.
pub proof fn law_nothing_to_debug(
    request: DebugRequest,
    units: Seq<Unit>,
    target_dir: String,
    files: Seq<FileId>,
    registry: Map<FileId, Seq<Seq<char>>>,
    events: Seq<Event>,
)
    requires
        forall|i: int| 0 <= i < units.len() ==> units[i].kind != UnitKind::Binary,
    ensures
        ({
            let s = run(initial_state(request, units, target_dir, files, registry), events);
            &&& s.phase == Phase::Idle
            &&& s.error is None
            &&& report(s) == seq![ReportLine::NoBinaryUnit]
        }),
{
    let start = initial_state(request, units, target_dir, files, registry);
    lemma_first_index(units, |unit: Unit| unit.kind == UnitKind::Binary);
    assert(start.phase == Phase::Idle);
    lemma_ended_stays(start, events);
}

} // verus!
