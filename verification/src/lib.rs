//! A find-and-replace engine.
//!
//! The crate compiles a find pattern (literal or regular-expression mode),
//! normalizes a replacement template so that positional group references are
//! unambiguously delimited, applies the replacement to text, decides whether
//! anything changed, and renders either the new content or a unified-diff
//! preview.  Mode selection between explicit files, a stdin line filter and a
//! directory walk is a pure classification function.

pub mod chars;
pub mod diff;
pub mod engine;
pub mod pattern;
pub mod select;
pub mod style;
pub mod template;
