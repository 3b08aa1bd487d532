use compiler::toolchain::{
    assembler_arguments, linker_arguments, start, step, Action, BuildOutcome, Phase, Stage,
    ToolchainError,
};

/// Drives a run with the given step reports; returns every action asked for.
fn drive(reports: &[bool]) -> Vec<Action> {
    let (mut phase, first) = start();
    let mut actions = vec![first];
    for &ok in reports {
        if let Phase::Done { .. } = phase {
            break;
        }
        let (p, a) = step(phase, ok);
        phase = p;
        actions.push(a);
    }
    actions
}

#[test]
fn run_starts_with_assembler() {
    assert_eq!(start(), (Phase::Assembling, Action::RunAssembler));
}

#[test]
fn all_steps_succeed() {
    assert_eq!(
        drive(&[true, true, true, true]),
        vec![
            Action::RunAssembler,
            Action::RunLinker,
            Action::RenameExecutable,
            Action::RemoveObject,
            Action::Finish(BuildOutcome::Built),
        ]
    );
}

#[test]
fn assembler_failure_never_links() {
    let actions = drive(&[false, true, true, true]);
    assert_eq!(
        actions,
        vec![
            Action::RunAssembler,
            Action::Finish(BuildOutcome::Failed(Stage::Assembling, ToolchainError::AssemblerFailed)),
        ]
    );
    assert!(!actions.contains(&Action::RunLinker));
}

#[test]
fn linker_failure_still_removes_object() {
    let failed = Action::Finish(BuildOutcome::Failed(Stage::Linking, ToolchainError::LinkerFailed));
    for removal in [true, false] {
        assert_eq!(
            drive(&[true, false, removal, true]),
            vec![Action::RunAssembler, Action::RunLinker, Action::RemoveObject, failed]
        );
    }
}

#[test]
fn rename_failure_still_removes_object() {
    let failed = Action::Finish(BuildOutcome::Failed(
        Stage::Finalizing,
        ToolchainError::FinalizationFailed,
    ));
    for removal in [true, false] {
        assert_eq!(
            drive(&[true, true, false, removal]),
            vec![
                Action::RunAssembler,
                Action::RunLinker,
                Action::RenameExecutable,
                Action::RemoveObject,
                failed
            ]
        );
    }
}

#[test]
fn removal_failure_after_build_is_finalization_failure() {
    assert_eq!(
        drive(&[true, true, true, false]).last(),
        Some(&Action::Finish(BuildOutcome::Failed(
            Stage::Finalizing,
            ToolchainError::FinalizationFailed
        )))
    );
}

#[test]
fn done_phase_stays_done() {
    let outcome = BuildOutcome::Built;
    let done = Phase::Done { outcome };
    assert_eq!(step(done, false), (done, Action::Finish(outcome)));
}

#[test]
fn assembler_command_line() {
    assert_eq!(
        assembler_arguments("output.asm", "temp.o"),
        vec!["-f", "win64", "output.asm", "-o", "temp.o"]
    );
}

#[test]
fn linker_command_line() {
    assert_eq!(
        linker_arguments("temp.o", "a.exe"),
        vec!["/subsystem:console", "/entry:_start", "temp.o", "/out:a.exe"]
    );
}
