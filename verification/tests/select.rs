//! Work-item source classification.

use sd::select::{Mode, select_mode};

#[test]
fn explicit_files_win() {
    assert_eq!(select_mode(true, true), Mode::ExplicitFiles);
    assert_eq!(select_mode(true, false), Mode::ExplicitFiles);
}

#[test]
fn piped_stdin_selects_the_line_filter() {
    assert_eq!(select_mode(false, true), Mode::StdinFilter);
}

#[test]
fn interactive_stdin_selects_the_directory_walk() {
    assert_eq!(select_mode(false, false), Mode::DirectoryWalk);
}
