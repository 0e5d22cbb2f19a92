//! Replacement-template normalization behaviour.

use sd::template::normalize;

#[test]
fn normalize_without_references_is_unchanged() {
    assert_eq!(normalize("bar"), "bar");
    assert_eq!(normalize(""), "");
    assert_eq!(normalize("a$ b"), "a$ b");
    assert_eq!(normalize("${1}"), "${1}");
}

#[test]
fn normalize_simple_reference() {
    assert_eq!(normalize("bar$1"), "bar${1}");
}

#[test]
fn normalize_reference_at_start() {
    assert_eq!(normalize("$2x"), "${2}x");
}

#[test]
fn normalize_takes_longest_digit_run() {
    assert_eq!(normalize("bar$12"), "bar${12}");
    assert_eq!(normalize("$1234x"), "${1234}x");
}

#[test]
fn normalize_braced_reference_untouched() {
    assert_eq!(normalize("bar${1}2"), "bar${1}2");
}

#[test]
fn normalize_escaped_dollar_untouched() {
    assert_eq!(normalize("\\$1"), "\\$1");
    assert_eq!(normalize("a\\$12b"), "a\\$12b");
}

#[test]
fn normalize_adjacent_references_single_pass() {
    // The scan never reuses a consumed character as the prefix of the next
    // reference, so the second `$` keeps its bare form here.
    assert_eq!(normalize("$1$2"), "${1}$2");
    // With a fresh prefix character in between, both are rewritten.
    assert_eq!(normalize("$1 $2"), "${1} ${2}");
}
