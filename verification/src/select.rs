//! Work-item source selection.
//!
//! One run draws its work items from exactly one source, decided once from
//! the command line and the shape of standard input: explicitly named files
//! win; otherwise piped standard input makes the run a line filter; and an
//! interactive terminal on standard input means the current directory is
//! walked recursively.

use vstd::prelude::*;

verus! {

/// Where the work items of a run come from.
#[derive(Clone, Copy, PartialEq, Eq, Structural, Debug)]
pub enum Mode {
    /// The paths named on the command line, in the order given.
    ExplicitFiles,
    /// Each line of standard input, transformed and printed immediately.
    StdinFilter,
    /// Every file found by a recursive, ignore-aware walk of the current
    /// directory.
    DirectoryWalk,
}

/// Classifies a run: explicit file arguments take priority regardless of
/// standard input; otherwise piped standard input selects the line filter,
/// and an interactive terminal selects the directory walk.
pub fn select_mode(has_file_args: bool, stdin_is_pipe: bool) -> (m: Mode)
    ensures
        has_file_args ==> m is ExplicitFiles,
        !has_file_args && stdin_is_pipe ==> m is StdinFilter,
        !has_file_args && !stdin_is_pipe ==> m is DirectoryWalk,
{
    if has_file_args {
        Mode::ExplicitFiles
    } else if stdin_is_pipe {
        Mode::StdinFilter
    } else {
        Mode::DirectoryWalk
    }
}

} // verus!
