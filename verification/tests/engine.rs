//! The replacement engine: change detection, write planning, diff preview,
//! the stdin line filter, and group-reference resolution end to end.

use sd::engine::{FileOutcome, change_notice, color_template, plan_file, process_line};
use sd::pattern::compile;
use sd::template::normalize;

fn written(outcome: FileOutcome) -> String {
    match outcome {
        FileOutcome::Written(w) => w,
        _ => panic!("expected a write"),
    }
}

fn previewed(outcome: FileOutcome) -> String {
    match outcome {
        FileOutcome::Previewed(d) => d,
        _ => panic!("expected a preview"),
    }
}

#[test]
fn forced_change_plans_a_write() {
    let p = compile("foo(\\d+)", false).ok().unwrap();
    let rep = normalize("bar$1");
    let content = Some(String::from("foo123\n"));
    let outcome = plan_file(&p, &rep, "f.txt", &content, true, false);
    assert_eq!(written(outcome), "bar123\n");
    assert_eq!(change_notice("f.txt"), "f.txt: File was changed.");
}

#[test]
fn unforced_change_plans_a_preview() {
    let p = compile("foo(\\d+)", false).ok().unwrap();
    let rep = normalize("bar$1");
    let content = Some(String::from("foo123\n"));
    let outcome = plan_file(&p, &rep, "f.txt", &content, false, false);
    assert_eq!(
        previewed(outcome),
        "--- a/f.txt\n+++ b/f.txt\n-foo123\n+bar123\n"
    );
}

#[test]
fn preview_suppresses_equal_lines() {
    let p = compile("foo", false).ok().unwrap();
    let content = Some(String::from("keep\nfoo\nalso keep\n"));
    let outcome = plan_file(&p, "bar", "t", &content, false, false);
    assert_eq!(previewed(outcome), "--- a/t\n+++ b/t\n-foo\n+bar\n");
}

#[test]
fn preview_with_color_styles_the_signs() {
    let p = compile("foo", false).ok().unwrap();
    let content = Some(String::from("foo\n"));
    let diff = previewed(plan_file(&p, "bar", "t", &content, false, true));
    assert!(diff.starts_with("--- a/t\n+++ b/t\n"));
    assert!(diff.contains("\u{1b}[31m-\u{1b}[0m"));
    assert!(diff.contains("\u{1b}[32m+\u{1b}[0m"));
}

#[test]
fn identical_content_is_unchanged() {
    let p = compile("xyz", false).ok().unwrap();
    let content = Some(String::from("abc\n"));
    assert!(matches!(
        plan_file(&p, "q", "f", &content, true, false),
        FileOutcome::Unchanged
    ));
    // A replacement that reproduces the original byte for byte is also a
    // no-op: no write, no diff.
    let p2 = compile("a", false).ok().unwrap();
    assert!(matches!(
        plan_file(&p2, "a", "f", &content, false, false),
        FileOutcome::Unchanged
    ));
}

#[test]
fn second_application_is_a_noop() {
    let p = compile("foo(\\d+)", false).ok().unwrap();
    let rep = normalize("bar$1");
    let first = Some(String::from("foo123\n"));
    let once = written(plan_file(&p, &rep, "f", &first, true, false));
    assert_eq!(once, "bar123\n");
    let again = Some(once);
    assert!(matches!(
        plan_file(&p, &rep, "f", &again, true, false),
        FileOutcome::Unchanged
    ));
}

#[test]
fn unreadable_content_is_skipped() {
    let p = compile("foo", false).ok().unwrap();
    assert!(matches!(
        plan_file(&p, "bar", "f", &None, true, false),
        FileOutcome::Skipped
    ));
    assert!(matches!(
        plan_file(&p, "bar", "f", &None, false, true),
        FileOutcome::Skipped
    ));
}

#[test]
fn one_unreadable_item_does_not_derail_the_batch() {
    let p = compile("foo", false).ok().unwrap();
    let batch: Vec<Option<String>> = vec![
        Some(String::from("foo one\n")),
        None,
        Some(String::from("foo two\n")),
    ];
    let mut results: Vec<FileOutcome> = Vec::new();
    for content in &batch {
        results.push(plan_file(&p, "bar", "f", content, true, false));
    }
    assert!(matches!(&results[0], FileOutcome::Written(w) if w == "bar one\n"));
    assert!(matches!(&results[1], FileOutcome::Skipped));
    assert!(matches!(&results[2], FileOutcome::Written(w) if w == "bar two\n"));
}

#[test]
fn stdin_line_is_transformed() {
    let p = compile("world", true).ok().unwrap();
    assert_eq!(process_line(&p, "there", "hello world"), "hello there");
}

#[test]
fn group_twelve_resolves_as_one_reference() {
    let p = compile("(a)(b)(c)(d)(e)(f)(g)(h)(i)(j)(k)(l)", false).ok().unwrap();
    let rep = normalize("bar$12");
    assert_eq!(process_line(&p, &rep, "abcdefghijkl"), "barl");
}

#[test]
fn braced_group_keeps_literal_digit() {
    let p = compile("(a)(b)(c)(d)(e)(f)(g)(h)(i)(j)(k)(l)", false).ok().unwrap();
    let rep = normalize("bar${1}2");
    assert_eq!(process_line(&p, &rep, "abcdefghijkl"), "bara2");
}

#[test]
fn color_template_wraps_in_green() {
    assert_eq!(color_template("x", true), "\u{1b}[32mx\u{1b}[0m");
    assert_eq!(color_template("x", false), "x");
}
