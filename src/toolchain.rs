//! The toolchain orchestrator. It decides, step by step, what to do with the
//! assembler, the linker and the intermediate files, from the outcome of each
//! step it asked for; the caller performs the steps.
//!
//! Phases: `Assembling`, `Linking`, `Renaming` and `RemovingObject` (the two
//! halves of finalizing), `Done`.
use vstd::prelude::*;

verus! {

/// The stage of the toolchain run at which a failure happened.
#[derive(Clone, Copy, Debug, PartialEq, Eq, Structural)]
pub enum Stage {
    Assembling,
    Linking,
    Finalizing,
}

/// Why the toolchain run failed.
#[derive(Clone, Copy, Debug, PartialEq, Eq, Structural)]
pub enum ToolchainError {
    /// The assembler could not be started or exited with a nonzero status.
    AssemblerFailed,
    /// The linker could not be started or exited with a nonzero status.
    LinkerFailed,
    /// Moving the linked executable to its final path, or removing the
    /// object file, failed after a successful link.
    FinalizationFailed,
}

/// How a toolchain run ended.
#[derive(Clone, Copy, Debug, PartialEq, Eq, Structural)]
pub enum BuildOutcome {
    Built,
    Failed(Stage, ToolchainError),
}

/// Where a toolchain run stands.
#[derive(Clone, Copy, Debug, PartialEq, Eq, Structural)]
pub enum Phase {
    /// The assembler is running on the instruction file.
    Assembling,
    /// The linker is running on the object file.
    Linking,
    /// The linked executable is being moved to its final path.
    Renaming,
    /// The object file is being removed; `then` is the outcome so far.
    RemovingObject { then: BuildOutcome },
    /// The run is over.
    Done { outcome: BuildOutcome },
}

/// What the caller is to do next.
#[derive(Clone, Copy, Debug, PartialEq, Eq, Structural)]
pub enum Action {
    /// Run the assembler on the instruction file, writing the object file.
    RunAssembler,
    /// Run the linker on the object file.
    RunLinker,
    /// Move the linker's executable to the final path.
    RenameExecutable,
    /// Remove the object file.
    RemoveObject,
    /// Stop, with this outcome.
    Finish(BuildOutcome),
}

/// The transition taken from `phase` when the step it asked for reports
/// `ok` (a tool that started and exited with status 0, or a file operation
/// that succeeded).
pub open spec fn next(phase: Phase, ok: bool) -> (Phase, Action) {
    match phase {
        Phase::Assembling => if ok {
            (Phase::Linking, Action::RunLinker)
        } else {
            let o = BuildOutcome::Failed(Stage::Assembling, ToolchainError::AssemblerFailed);
            (Phase::Done { outcome: o }, Action::Finish(o))
        },
        Phase::Linking => if ok {
            (Phase::Renaming, Action::RenameExecutable)
        } else {
            (
                Phase::RemovingObject {
                    then: BuildOutcome::Failed(Stage::Linking, ToolchainError::LinkerFailed),
                },
                Action::RemoveObject,
            )
        },
        Phase::Renaming => if ok {
            (Phase::RemovingObject { then: BuildOutcome::Built }, Action::RemoveObject)
        } else {
            (
                Phase::RemovingObject {
                    then: BuildOutcome::Failed(Stage::Finalizing, ToolchainError::FinalizationFailed),
                },
                Action::RemoveObject,
            )
        },
        Phase::RemovingObject { then } => {
            let o = if !ok && then == BuildOutcome::Built {
                BuildOutcome::Failed(Stage::Finalizing, ToolchainError::FinalizationFailed)
            } else {
                then
            };
            (Phase::Done { outcome: o }, Action::Finish(o))
        },
        Phase::Done { outcome } => (phase, Action::Finish(outcome)),
    }
}

/// The actions asked for from `phase` on, when the steps report `reports` in
/// turn; nothing is asked once the run is done.
pub open spec fn actions(phase: Phase, reports: Seq<bool>) -> Seq<Action>
    decreases reports.len(),
{
    if reports.len() == 0 || phase is Done {
        Seq::empty()
    } else {
        let (p, a) = next(phase, reports[0]);
        seq![a] + actions(p, reports.drop_first())
    }
}

/// Every action of a whole run, from the start, when the steps report
/// `reports` in turn.
pub open spec fn run(reports: Seq<bool>) -> Seq<Action> {
    seq![Action::RunAssembler] + actions(Phase::Assembling, reports)
}

/// The start of a run: assemble first.
pub fn start() -> (r: (Phase, Action))
    ensures
        r == (Phase::Assembling, Action::RunAssembler),
{
    (Phase::Assembling, Action::RunAssembler)
}

/// The next phase and action, once the step that `phase` asked for reports
/// whether it succeeded.
pub fn step(phase: Phase, ok: bool) -> (r: (Phase, Action))
    ensures
        r == next(phase, ok),
{
    match phase {
        Phase::Assembling => if ok {
            (Phase::Linking, Action::RunLinker)
        } else {
            let o = BuildOutcome::Failed(Stage::Assembling, ToolchainError::AssemblerFailed);
            (Phase::Done { outcome: o }, Action::Finish(o))
        },
        Phase::Linking => if ok {
            (Phase::Renaming, Action::RenameExecutable)
        } else {
            (
                Phase::RemovingObject {
                    then: BuildOutcome::Failed(Stage::Linking, ToolchainError::LinkerFailed),
                },
                Action::RemoveObject,
            )
        },
        Phase::Renaming => if ok {
            (Phase::RemovingObject { then: BuildOutcome::Built }, Action::RemoveObject)
        } else {
            (
                Phase::RemovingObject {
                    then: BuildOutcome::Failed(Stage::Finalizing, ToolchainError::FinalizationFailed),
                },
                Action::RemoveObject,
            )
        },
        Phase::RemovingObject { then } => {
            let o = match then {
                BuildOutcome::Built => if ok {
                    then
                } else {
                    BuildOutcome::Failed(Stage::Finalizing, ToolchainError::FinalizationFailed)
                },
                BuildOutcome::Failed(_, _) => then,
            };
            (Phase::Done { outcome: o }, Action::Finish(o))
        },
        Phase::Done { outcome } => (phase, Action::Finish(outcome)),
    }
}

/// A failed assembly ends the run at once with `AssemblerFailed`: the linker
/// is never run.
pub proof fn assembler_failure_stops(reports: Seq<bool>)
    requires
        reports.len() >= 1,
        !reports[0],
    ensures
        run(reports) == seq![
            Action::RunAssembler,
            Action::Finish(BuildOutcome::Failed(Stage::Assembling, ToolchainError::AssemblerFailed)),
        ],
        !run(reports).contains(Action::RunLinker),
{
    let o = BuildOutcome::Failed(Stage::Assembling, ToolchainError::AssemblerFailed);
    assert(actions(Phase::Done { outcome: o }, reports.drop_first()) == Seq::<Action>::empty());
    assert(run(reports) =~= seq![Action::RunAssembler, Action::Finish(o)]);
    assert(run(reports)[0] != Action::RunLinker);
    assert(run(reports)[1] != Action::RunLinker);
}

/// A failed link still removes the object file, whatever that removal
/// reports, and the run ends with `LinkerFailed`.
pub proof fn linker_failure_removes_object(reports: Seq<bool>)
    requires
        reports.len() >= 3,
        reports[0],
        !reports[1],
    ensures
        run(reports) == seq![
            Action::RunAssembler,
            Action::RunLinker,
            Action::RemoveObject,
            Action::Finish(BuildOutcome::Failed(Stage::Linking, ToolchainError::LinkerFailed)),
        ],
{
    let o = BuildOutcome::Failed(Stage::Linking, ToolchainError::LinkerFailed);
    let r1 = reports.drop_first();
    let r2 = r1.drop_first();
    let r3 = r2.drop_first();
    assert(actions(Phase::Done { outcome: o }, r3) == Seq::<Action>::empty());
    assert(actions(Phase::RemovingObject { then: o }, r2) =~= seq![Action::Finish(o)]);
    assert(actions(Phase::Linking, r1) =~= seq![Action::RemoveObject, Action::Finish(o)]);
    assert(actions(Phase::Assembling, reports) =~= seq![
        Action::RunLinker,
        Action::RemoveObject,
        Action::Finish(o),
    ]);
    assert(run(reports) =~= seq![
        Action::RunAssembler,
        Action::RunLinker,
        Action::RemoveObject,
        Action::Finish(o),
    ]);
}

/// The assembler's arguments: the 64-bit Windows object format, the
/// instruction file, and the object file to write.
pub fn assembler_arguments(instructions: &str, object: &str) -> (r: Vec<String>)
    ensures
        r@.len() == 5,
        r@[0]@ == "-f"@,
        r@[1]@ == "win64"@,
        r@[2]@ == instructions@,
        r@[3]@ == "-o"@,
        r@[4]@ == object@,
{
    let mut r: Vec<String> = Vec::new();
    r.push(String::from_str("-f"));
    r.push(String::from_str("win64"));
    r.push(String::from_str(instructions));
    r.push(String::from_str("-o"));
    r.push(String::from_str(object));
    r
}

/// The linker's arguments: a console program whose entry symbol is `_start`,
/// linked from the object file into `linked`.
pub fn linker_arguments(object: &str, linked: &str) -> (r: Vec<String>)
    ensures
        r@.len() == 4,
        r@[0]@ == "/subsystem:console"@,
        r@[1]@ == "/entry:_start"@,
        r@[2]@ == object@,
        r@[3]@ == "/out:"@ + linked@,
{
    let mut r: Vec<String> = Vec::new();
    r.push(String::from_str("/subsystem:console"));
    r.push(String::from_str("/entry:_start"));
    r.push(String::from_str(object));
    let mut out = String::from_str("/out:");
    out.append(linked);
    r.push(out);
    r
}

/// When assembling, linking, renaming and removing all succeed, the run asks
/// for each in that order and ends with `Built`.
pub proof fn successful_run(reports: Seq<bool>)
    requires
        reports.len() >= 4,
        reports[0] && reports[1] && reports[2] && reports[3],
    ensures
        run(reports) == seq![
            Action::RunAssembler,
            Action::RunLinker,
            Action::RenameExecutable,
            Action::RemoveObject,
            Action::Finish(BuildOutcome::Built),
        ],
{
    reveal_with_fuel(actions, 5);
    let r1 = reports.drop_first();
    let r2 = r1.drop_first();
    let r3 = r2.drop_first();
    let r4 = r3.drop_first();
    assert(actions(Phase::Done { outcome: BuildOutcome::Built }, r4) == Seq::<Action>::empty());
    assert(run(reports) =~= seq![
        Action::RunAssembler,
        Action::RunLinker,
        Action::RenameExecutable,
        Action::RemoveObject,
        Action::Finish(BuildOutcome::Built),
    ]);
}

/// Every run ends, after at most four reported steps, with a `Finish`; it
/// ends with `Built` exactly when all four steps succeeded, so no failed step
/// is taken for success.
pub proof fn run_finishes(reports: Seq<bool>)
    requires
        reports.len() >= 4,
    ensures
        run(reports).len() <= 5,
        run(reports).last() is Finish,
        forall|i: int| 0 <= i < run(reports).len() - 1 ==> !(run(reports)[i] is Finish),
        run(reports).last() == Action::Finish(BuildOutcome::Built) <==> (reports[0] && reports[1]
            && reports[2] && reports[3]),
{
    reveal_with_fuel(actions, 5);
    let r1 = reports.drop_first();
    let r2 = r1.drop_first();
    let r3 = r2.drop_first();
    let r4 = r3.drop_first();
    if !reports[0] {
        assembler_failure_stops(reports);
    } else if !reports[1] {
        linker_failure_removes_object(reports);
    } else {
        let t = if reports[2] {
            BuildOutcome::Built
        } else {
            BuildOutcome::Failed(Stage::Finalizing, ToolchainError::FinalizationFailed)
        };
        let o = if !reports[3] && t == BuildOutcome::Built {
            BuildOutcome::Failed(Stage::Finalizing, ToolchainError::FinalizationFailed)
        } else {
            t
        };
        assert(actions(Phase::Done { outcome: o }, r4) == Seq::<Action>::empty());
        assert(run(reports) =~= seq![
            Action::RunAssembler,
            Action::RunLinker,
            Action::RenameExecutable,
            Action::RemoveObject,
            Action::Finish(o),
        ]);
    }
}

} // verus!
