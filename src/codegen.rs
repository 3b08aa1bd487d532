//! The code generator: lowers an accepted program to an x86-64 assembly listing
//! whose entry symbol `_start` exits the process through a direct system call.
use vstd::prelude::*;

use crate::source::ParsedProgram;

verus! {

/// The part of the listing before the instructions: the text section and the
/// exported entry symbol.
pub open spec fn listing_header() -> Seq<char> {
    "\nsection .text\nglobal _start\n\n_start:\n"@
}

/// The instructions that end the process with exit status 2: `exit` (system
/// call 60) with 2 as its argument.
pub open spec fn exit_with_two() -> Seq<char> {
    "    mov rax, 60   ; syscall: exit\n    mov rdi, 2    ; exit code: 2\n    syscall\n"@
}

/// The listing for a program.
pub open spec fn instruction_text(program: ParsedProgram) -> Seq<char> {
    match program {
        ParsedProgram::ReturnsTwo => listing_header() + exit_with_two(),
    }
}

/// Whether `part` occurs in `text` as a contiguous run.
pub open spec fn contains(text: Seq<char>, part: Seq<char>) -> bool {
    exists|i: int| 0 <= i <= text.len() - part.len() && #[trigger] text.subrange(i, i + part.len()) == part
}

/// Lowers a program to its assembly listing. Nothing is read or written.
pub fn generate(program: &ParsedProgram) -> (r: String)
    ensures
        r@ == instruction_text(*program),
{
    match program {
        ParsedProgram::ReturnsTwo => {
            let mut text = String::from_str("\nsection .text\nglobal _start\n\n_start:\n");
            text.append(
                "    mov rax, 60   ; syscall: exit\n    mov rdi, 2    ; exit code: 2\n    syscall\n",
            );
            text
        },
    }
}

/// The listing is a function of the program alone: equal programs give
/// identical text, so two runs of `generate` on one program agree.
pub proof fn generate_is_deterministic(p: ParsedProgram, q: ParsedProgram)
    requires
        p == q,
    ensures
        instruction_text(p) == instruction_text(q),
{
}

/// The listing of the program that returns 2 holds the sequence that exits
/// with status 2.
pub proof fn listing_exits_with_two(p: ParsedProgram)
    ensures
        contains(instruction_text(p), exit_with_two()),
{
    let text = instruction_text(p);
    let i = listing_header().len() as int;
    assert(text.subrange(i, i + exit_with_two().len()) =~= exit_with_two());
}

} // verus!
