use compiler::codegen::generate;
use compiler::source::ParsedProgram;

const LISTING: &str = "
section .text
global _start

_start:
    mov rax, 60   ; syscall: exit
    mov rdi, 2    ; exit code: 2
    syscall
";

#[test]
fn listing_is_exit_stub() {
    assert_eq!(generate(&ParsedProgram::ReturnsTwo), LISTING);
}

#[test]
fn generation_is_deterministic() {
    let a = generate(&ParsedProgram::ReturnsTwo);
    let b = generate(&ParsedProgram::ReturnsTwo);
    assert_eq!(a.as_bytes(), b.as_bytes());
}

#[test]
fn listing_exits_with_status_two() {
    let text = generate(&ParsedProgram::ReturnsTwo);
    assert!(text.contains("global _start"));
    assert!(text.contains("    mov rax, 60   ; syscall: exit\n    mov rdi, 2    ; exit code: 2\n    syscall\n"));
}
