//! Pattern compilation: literal mode, regex mode and the failure report.

use sd::engine::process_line;
use sd::pattern::compile;

#[test]
fn compile_valid_regex_ok() {
    assert!(compile("foo(\\d+)", false).is_ok());
}

#[test]
fn compile_invalid_regex_reports_pattern() {
    let err = match compile("(unterminated", false) {
        Err(e) => e,
        Ok(_) => panic!("an unterminated group must not compile"),
    };
    assert_eq!(err.pattern, "(unterminated");
    let message = err.message();
    assert!(message.contains("(unterminated"));
    assert!(message.contains("-s"));
    assert!(!err.detail.is_empty());
}

#[test]
fn compile_literal_mode_accepts_metacharacters() {
    assert!(compile("a.b(", true).is_ok());
    assert!(compile("(unterminated", true).is_ok());
    assert!(compile("[a-z]+*?", true).is_ok());
}

#[test]
fn literal_mode_matches_only_the_literal_text() {
    let p = compile("a.b", true).ok().unwrap();
    // A regex interpretation of `a.b` would also match `axb`.
    assert_eq!(process_line(&p, "X", "axb a.b ayb"), "axb X ayb");
}

#[test]
fn literal_mode_treats_braces_and_classes_literally() {
    let p = compile("a{2}", true).ok().unwrap();
    assert_eq!(process_line(&p, "X", "aa a{2}"), "aa X");
    let p2 = compile("[a-z]", true).ok().unwrap();
    assert_eq!(process_line(&p2, "X", "q [a-z]"), "q X");
}

#[test]
fn regex_mode_interprets_metacharacters() {
    let p = compile("a.b", false).ok().unwrap();
    assert_eq!(process_line(&p, "X", "axb a.b ayb"), "X X X");
}
