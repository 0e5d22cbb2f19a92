//! Terminal styling for diff output.
//!
//! Whether output may be colored is decided once at startup and passed in as
//! a plain boolean; these functions then produce the exact ANSI select-
//! graphic-rendition sequences (red for deletions, green for insertions,
//! nothing for equal text), or the bare text when color is off.

use vstd::prelude::*;
use vstd::string::StringExecFns;

verus! {

/// The kind of a diff change.
#[derive(Clone, Copy, PartialEq, Eq, Structural, Debug)]
pub enum Tag {
    Equal,
    Delete,
    Insert,
}

/// The ANSI sequence that starts the style for a tag: red foreground for a
/// deletion, green for an insertion, nothing for equal text.
pub open spec fn style_open_seq(t: Tag) -> Seq<char> {
    match t {
        Tag::Delete => "\u{1b}[31m"@,
        Tag::Insert => "\u{1b}[32m"@,
        Tag::Equal => Seq::<char>::empty(),
    }
}

/// The ANSI sequence that resets all styling.
pub open spec fn style_reset_seq() -> Seq<char> {
    "\u{1b}[0m"@
}

/// `text` styled for tag `t`: wrapped in the tag's ANSI sequences when color
/// is on and the tag has a color, the bare text otherwise.
pub open spec fn styled_spec(t: Tag, text: Seq<char>, color: bool) -> Seq<char> {
    if color && !(t is Equal) {
        style_open_seq(t) + text + style_reset_seq()
    } else {
        text
    }
}

/// The sign that prefixes a diff line: `-` for a deletion, `+` for an
/// insertion, a space for equal text.
pub open spec fn sign_seq(t: Tag) -> Seq<char> {
    match t {
        Tag::Delete => "-"@,
        Tag::Insert => "+"@,
        Tag::Equal => " "@,
    }
}

/// The sign character of a tag, as a string slice.
pub fn sign_str(t: Tag) -> (r: &'static str)
    ensures
        r@ == sign_seq(t),
{
    match t {
        Tag::Delete => "-",
        Tag::Insert => "+",
        Tag::Equal => " ",
    }
}

/// Appends `text`, styled for tag `t`, to `out`.
pub fn append_styled(out: &mut String, t: Tag, text: &str, color: bool)
    ensures
        final(out)@ == old(out)@ + styled_spec(t, text@, color),
{
    if color {
        match t {
            Tag::Delete => {
                out.append("\u{1b}[31m");
                out.append(text);
                out.append("\u{1b}[0m");
            },
            Tag::Insert => {
                out.append("\u{1b}[32m");
                out.append(text);
                out.append("\u{1b}[0m");
            },
            Tag::Equal => {
                out.append(text);
            },
        }
    } else {
        out.append(text);
    }
}

} // verus!
