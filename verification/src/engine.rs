//! The replacement engine: applies a compiled pattern and a normalized
//! template to one work item's content, detects whether anything changed,
//! and produces the action to take — nothing, a write-back, or a rendered
//! diff preview.  Reading and writing files is the caller's business; an
//! unreadable item is planned as a skip, never as a failure.

use vstd::prelude::*;
use vstd::string::StringExecFns;
use crate::diff::{
    DiffLineV, diff_line_ops_of, diff_lines, lemma_render_plain, line_summary, lines_view,
    plain_render_spec, render_diff_body, render_lines_spec,
};
use crate::pattern::{Pattern, pattern_replace_all, replace_all_of};
use crate::style::{Tag, append_styled, styled_spec};

verus! {

/// What is to be done with one work item.
pub enum FileOutcome {
    /// The content could not be read; the item is passed over and the run
    /// continues.
    Skipped,
    /// The replacement left the content byte-identical: nothing is written
    /// and nothing is printed.
    Unchanged,
    /// The content changed and writing was forced: the carried text is the
    /// full new content to write back.
    Written(String),
    /// The content changed and writing was not forced: the carried text is
    /// the diff preview to print.
    Previewed(String),
}

/// The unified-diff-style header naming the changed target.
pub open spec fn diff_header_spec(label: Seq<char>) -> Seq<char> {
    "--- a/"@ + label + "\n+++ b/"@ + label + "\n"@
}

/// Renders a diff preview: the header naming `label`, then each changed
/// line with its sign and inline emphasis.  Without color the output is
/// exactly the changed lines of the diff summary.
pub fn render_preview(label: &str, old_text: &str, new_text: &str, color: bool) -> (r: String)
    ensures
        exists|ls: Seq<DiffLineV>|
            #[trigger] line_summary(ls) == diff_line_ops_of(old_text@, new_text@)
                && r@ == diff_header_spec(label@) + render_lines_spec(ls, color),
        !color ==> r@ == diff_header_spec(label@) + plain_render_spec(
            diff_line_ops_of(old_text@, new_text@),
        ),
{
    let dl = diff_lines(old_text, new_text);
    let body = render_diff_body(&dl, color);
    let mut out = String::new();
    out.append("--- a/");
    out.append(label);
    out.append("\n+++ b/");
    out.append(label);
    out.append("\n");
    out.append(body.as_str());
    proof {
        let ls = lines_view(dl@);
        assert(line_summary(ls) == diff_line_ops_of(old_text@, new_text@));
        assert(out@ =~= diff_header_spec(label@) + render_lines_spec(ls, color));
        if !color {
            lemma_render_plain(ls);
        }
    }
    out
}

/// Plans the handling of one work item from its content.
///
/// Unreadable content is skipped; byte-identical replacement output means
/// nothing is written and no diff is produced; otherwise the outcome
/// carries either the new content to write (when forced) or the rendered
/// diff preview.
pub fn plan_file(
    p: &Pattern,
    rep: &str,
    label: &str,
    content: &Option<String>,
    force: bool,
    color: bool,
) -> (r: FileOutcome)
    ensures
        content is None <==> r is Skipped,
        content matches Some(c) ==> {
            let newc = replace_all_of(p@, c@, rep@);
            &&& (r is Unchanged <==> newc == c@)
            &&& (newc != c@ && force ==> (r matches FileOutcome::Written(w) && w@ == newc))
            &&& (newc != c@ && !force ==> (r matches FileOutcome::Previewed(d)
                && (exists|ls: Seq<DiffLineV>|
                    #[trigger] line_summary(ls) == diff_line_ops_of(c@, newc)
                        && d@ == diff_header_spec(label@) + render_lines_spec(ls, color))
                && (!color ==> d@ == diff_header_spec(label@) + plain_render_spec(
                    diff_line_ops_of(c@, newc),
                ))))
        },
{
    match content {
        None => FileOutcome::Skipped,
        Some(c) => {
            let newc = pattern_replace_all(p, c.as_str(), rep);
            if newc == *c {
                FileOutcome::Unchanged
            } else if force {
                FileOutcome::Written(newc)
            } else {
                FileOutcome::Previewed(render_preview(label, c.as_str(), newc.as_str(), color))
            }
        },
    }
}

/// Transforms one line from standard input: every match is replaced with
/// the (already styled) template expansion.
pub fn process_line(p: &Pattern, rep: &str, line: &str) -> (r: String)
    ensures
        r@ == replace_all_of(p@, line@, rep@),
{
    pattern_replace_all(p, line, rep)
}

/// Styles the replacement template for the stdin line filter: wrapped in
/// the insertion color when color is on, unchanged otherwise.
pub fn color_template(rep: &str, color: bool) -> (r: String)
    ensures
        r@ == styled_spec(Tag::Insert, rep@, color),
{
    let mut out = String::new();
    append_styled(&mut out, Tag::Insert, rep, color);
    proof {
        assert(out@ =~= styled_spec(Tag::Insert, rep@, color));
    }
    out
}

/// The one-line status notice for a target that was changed in place.
pub fn change_notice(label: &str) -> (r: String)
    ensures
        r@ == label@ + ": File was changed."@,
{
    let mut out = String::new();
    out.append(label);
    out.append(": File was changed.");
    proof {
        assert(out@ =~= label@ + ": File was changed."@);
    }
    out
}

} // verus!
