//! The driver: from the command line and the source text to the listing to
//! write, and from the toolchain run to the outcome of the compilation.
use vstd::prelude::*;

use crate::codegen::{contains, exit_with_two, generate, instruction_text};
use crate::source::{accepts, validate, ParsedProgram, RejectionReason};
use crate::toolchain::{run, Action, BuildOutcome, Stage, ToolchainError};

verus! {

/// How one compilation ended.
#[derive(Clone, Copy, Debug, PartialEq, Eq, Structural)]
pub enum CompilationOutcome {
    /// The source file could not be read; no stage ran.
    InputReadError,
    /// The source text is not in the accepted grammar; nothing was written.
    RejectedInput(RejectionReason),
    /// The listing could not be written to the instruction file.
    InstructionWriteFailed,
    /// The toolchain run failed at this stage.
    ToolchainFailure(Stage, ToolchainError),
    /// The executable stands at the final path.
    Success,
}

/// The listing to write for a source text, if the text is accepted.
pub open spec fn listing_for(source: Seq<char>) -> Option<Seq<char>> {
    if accepts(source) {
        Some(instruction_text(ParsedProgram::ReturnsTwo))
    } else {
        None
    }
}

/// The outcome of a compilation whose toolchain run ended with `b`.
pub open spec fn compilation_outcome(b: BuildOutcome) -> CompilationOutcome {
    match b {
        BuildOutcome::Built => CompilationOutcome::Success,
        BuildOutcome::Failed(stage, error) => CompilationOutcome::ToolchainFailure(stage, error),
    }
}

/// The source file's path, when the command line holds exactly one argument
/// after the program's name; `None` asks for the usage message.
pub fn source_path(args: &Vec<String>) -> (r: Option<String>)
    ensures
        r is Some <==> args@.len() == 2,
        r is Some ==> r->0@ == args@[1]@,
{
    if args.len() == 2 {
        Some(args[1].clone())
    } else {
        None
    }
}

/// Validates the source text and, if it is accepted, lowers it to the
/// listing; a rejected text gives the outcome to report.
pub fn front_end(source: &str) -> (r: Result<String, CompilationOutcome>)
    ensures
        r is Ok <==> listing_for(source@) is Some,
        r is Ok ==> Some(r->Ok_0@) == listing_for(source@),
        r is Err ==> r->Err_0 == CompilationOutcome::RejectedInput(
            RejectionReason::DoesNotMatchGrammar,
        ),
{
    match validate(source) {
        Ok(program) => Ok(generate(&program)),
        Err(reason) => Err(CompilationOutcome::RejectedInput(reason)),
    }
}

/// The outcome of a compilation whose toolchain run ended with `build`.
pub fn outcome_of_build(build: BuildOutcome) -> (r: CompilationOutcome)
    ensures
        r == compilation_outcome(build),
{
    match build {
        BuildOutcome::Built => CompilationOutcome::Success,
        BuildOutcome::Failed(stage, error) => CompilationOutcome::ToolchainFailure(stage, error),
    }
}

/// An accepted source text, with a toolchain whose every step succeeds,
/// gives a listing that exits with status 2 and a successful compilation.
pub proof fn accepted_source_compiles(source: Seq<char>, reports: Seq<bool>)
    requires
        accepts(source),
        reports.len() >= 4,
        forall|i: int| 0 <= i < reports.len() ==> #[trigger] reports[i],
    ensures
        listing_for(source) is Some,
        contains(listing_for(source)->0, exit_with_two()),
        run(reports).last() is Finish,
        compilation_outcome(run(reports).last()->Finish_0) == CompilationOutcome::Success,
{
    crate::codegen::listing_exits_with_two(ParsedProgram::ReturnsTwo);
    crate::toolchain::successful_run(reports);
    assert(reports[0] && reports[1] && reports[2] && reports[3]);
}

} // verus!
