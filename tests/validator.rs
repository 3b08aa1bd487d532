use compiler::source::{is_space_char, validate, ParsedProgram, RejectionReason};

const PROGRAM: &str = "int main() { return 2; }";

#[test]
fn accepts_exact_program() {
    assert_eq!(validate(PROGRAM), Ok(ParsedProgram::ReturnsTwo));
}

#[test]
fn accepts_program_with_surrounding_whitespace() {
    assert_eq!(validate("  \n\tint main() { return 2; }\r\n  "), Ok(ParsedProgram::ReturnsTwo));
}

#[test]
fn accepts_program_with_unicode_whitespace() {
    assert_eq!(
        validate("\u{3000}\u{a0}int main() { return 2; }\u{2029}\u{85}"),
        Ok(ParsedProgram::ReturnsTwo)
    );
}

#[test]
fn rejects_other_return_value() {
    assert_eq!(validate("int main() { return 0; }"), Err(RejectionReason::DoesNotMatchGrammar));
}

#[test]
fn rejects_empty_and_blank_text() {
    assert_eq!(validate(""), Err(RejectionReason::DoesNotMatchGrammar));
    assert_eq!(validate(" \n\t "), Err(RejectionReason::DoesNotMatchGrammar));
}

#[test]
fn rejects_partial_and_extended_programs() {
    for s in [
        "int main() {",
        "int main() { return 2; }}",
        "xint main() { return 2; }",
        "int main() {  return 2; }",
        "int  main() { return 2; }",
        "int main() { return 2; } // done",
    ] {
        assert_eq!(validate(s), Err(RejectionReason::DoesNotMatchGrammar), "{:?}", s);
    }
}

#[test]
fn rejects_non_whitespace_format_characters() {
    // U+200B ZERO WIDTH SPACE and U+FEFF are not White_Space
    assert_eq!(validate("\u{200b}int main() { return 2; }"), Err(RejectionReason::DoesNotMatchGrammar));
    assert_eq!(validate("\u{feff}int main() { return 2; }"), Err(RejectionReason::DoesNotMatchGrammar));
}

#[test]
fn rejects_replacement_characters_from_invalid_bytes() {
    let bytes: &[u8] = b"int main() { return 2; }\xff";
    let text = String::from_utf8_lossy(bytes);
    assert_eq!(validate(&text), Err(RejectionReason::DoesNotMatchGrammar));
}

#[test]
fn validation_agrees_with_trim_and_compare() {
    let samples = [
        PROGRAM,
        " int main() { return 2; } ",
        "\u{2000}\u{200a}int main() { return 2; }\u{202f}\u{205f}",
        "\u{1680}int main() { return 2; }\u{2028}",
        "\u{b}\u{c}int main() { return 2; }\u{d}",
        "int main() { return 3; }",
        "\u{180e}int main() { return 2; }",
        "int main() { return 2; }\u{0}",
        "",
    ];
    for s in samples {
        assert_eq!(validate(s).is_ok(), s.trim() == PROGRAM, "{:?}", s);
    }
}

#[test]
fn whitespace_class_matches_unicode() {
    for u in 0u32..=0x10ffff {
        if let Some(c) = char::from_u32(u) {
            assert_eq!(is_space_char(c), c.is_whitespace(), "U+{:04X}", u);
        }
    }
}

#[test]
fn rejection_message() {
    assert_eq!(RejectionReason::DoesNotMatchGrammar.message(), "does not match accepted grammar");
}
