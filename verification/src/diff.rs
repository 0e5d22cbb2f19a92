//! Line diffs and their rendering.
//!
//! A diff between the original and the replaced text is a sequence of line
//! changes, each tagged equal, delete or insert and split into pieces that
//! may carry inline emphasis.  The sequence of tags and full line texts is a
//! pure function of the two texts; the piece boundaries and emphasis flags
//! are refined under a wall-clock deadline and may therefore vary, so the
//! renderer is verified for every possible refinement.  Equal changes are
//! context and are not printed: only changed lines appear, prefixed with
//! their sign.

use vstd::prelude::*;
use vstd::string::StringExecFns;
use crate::style::{Tag, append_styled, sign_seq, sign_str, styled_spec};

verus! {

/// A span of one changed line; `emphasized` marks the part of the line that
/// actually differs.
pub struct Piece {
    pub emphasized: bool,
    pub text: String,
}

/// The mathematical value of a [`Piece`].
pub struct PieceV {
    pub emphasized: bool,
    pub text: Seq<char>,
}

impl View for Piece {
    type V = PieceV;

    open spec fn view(&self) -> PieceV {
        PieceV { emphasized: self.emphasized, text: self.text@ }
    }
}

/// One line of a diff: its tag and its pieces, whose texts concatenate to
/// the full line (including its newline, when the line has one).
pub struct DiffLine {
    pub tag: Tag,
    pub pieces: Vec<Piece>,
}

/// The mathematical value of a [`DiffLine`].
pub struct DiffLineV {
    pub tag: Tag,
    pub pieces: Seq<PieceV>,
}

impl View for DiffLine {
    type V = DiffLineV;

    open spec fn view(&self) -> DiffLineV {
        DiffLineV { tag: self.tag, pieces: self.pieces@.map_values(|p: Piece| p@) }
    }
}

/// The views of a sequence of diff lines.
pub open spec fn lines_view(ls: Seq<DiffLine>) -> Seq<DiffLineV> {
    ls.map_values(|l: DiffLine| l@)
}

/// The concatenation of the piece texts from position `i` on.
pub open spec fn pieces_text_from(ps: Seq<PieceV>, i: int) -> Seq<char>
    decreases ps.len() - i when 0 <= i <= ps.len()
{
    if i >= ps.len() {
        Seq::<char>::empty()
    } else {
        ps[i].text + pieces_text_from(ps, i + 1)
    }
}

/// The full text of a line: its pieces concatenated.
pub open spec fn pieces_text(ps: Seq<PieceV>) -> Seq<char> {
    pieces_text_from(ps, 0)
}

/// The deadline-independent summary of a diff: for each line change its tag
/// and its full text.
pub open spec fn line_summary(ls: Seq<DiffLineV>) -> Seq<(Tag, Seq<char>)> {
    ls.map_values(|l: DiffLineV| (l.tag, pieces_text(l.pieces)))
}

/// The line changes of the diff between two texts, grouped with up to three
/// lines of context: for each change, its tag and its full line text.  The
/// line-level diff is computed without a deadline, so this is a pure
/// function of the two texts.
pub uninterp spec fn diff_line_ops_of(old_text: Seq<char>, new_text: Seq<char>) -> Seq<(Tag, Seq<char>)>;

/// Relies on `similar::TextDiff::from_lines` (a deterministic line diff,
/// computed without a deadline), `TextDiff::grouped_ops` with three lines of
/// context, `TextDiff::iter_inline_changes`, `InlineChange::tag` and
/// `InlineChange::iter_strings_lossy`.  The changes' tags and full line
/// texts are a pure function of the two texts; inline refinement runs under
/// a wall-clock deadline, so the piece boundaries and emphasis flags are
/// left unspecified.
#[verifier::external_body]
pub(crate) fn diff_lines(old_text: &str, new_text: &str) -> (r: Vec<DiffLine>)
    ensures
        line_summary(lines_view(r@)) == diff_line_ops_of(old_text@, new_text@),
{
    let d = similar::TextDiff::from_lines(old_text, new_text);
    let mut out: Vec<DiffLine> = Vec::new();
    for group in d.grouped_ops(3) {
        for op in &group {
            for c in d.iter_inline_changes(op) {
                let tag = match c.tag() {
                    similar::ChangeTag::Equal => Tag::Equal,
                    similar::ChangeTag::Delete => Tag::Delete,
                    similar::ChangeTag::Insert => Tag::Insert };
                let pieces = c.iter_strings_lossy().map(|(e, v)| Piece { emphasized: e, text: v.into_owned() }).collect();
                out.push(DiffLine { tag, pieces });
            }
        }
    }
    out
}

/// One rendered piece: styled when it is emphasized, bare otherwise.
pub open spec fn piece_render_spec(p: PieceV, t: Tag, color: bool) -> Seq<char> {
    if p.emphasized {
        styled_spec(t, p.text, color)
    } else {
        p.text
    }
}

/// The rendered pieces from position `i` on.
pub open spec fn pieces_render_from(ps: Seq<PieceV>, i: int, t: Tag, color: bool) -> Seq<char>
    decreases ps.len() - i when 0 <= i <= ps.len()
{
    if i >= ps.len() {
        Seq::<char>::empty()
    } else {
        piece_render_spec(ps[i], t, color) + pieces_render_from(ps, i + 1, t, color)
    }
}

/// One rendered line: nothing for an equal line, else the styled sign
/// followed by the rendered pieces.
pub open spec fn line_render_spec(l: DiffLineV, color: bool) -> Seq<char> {
    if l.tag is Equal {
        Seq::<char>::empty()
    } else {
        styled_spec(l.tag, sign_seq(l.tag), color) + pieces_render_from(l.pieces, 0, l.tag, color)
    }
}

/// The rendered lines from position `i` on.
pub open spec fn lines_render_from(ls: Seq<DiffLineV>, i: int, color: bool) -> Seq<char>
    decreases ls.len() - i when 0 <= i <= ls.len()
{
    if i >= ls.len() {
        Seq::<char>::empty()
    } else {
        line_render_spec(ls[i], color) + lines_render_from(ls, i + 1, color)
    }
}

/// The rendered body of a diff.
pub open spec fn render_lines_spec(ls: Seq<DiffLineV>, color: bool) -> Seq<char> {
    lines_render_from(ls, 0, color)
}

/// The colorless rendering of a diff summary from position `i` on: changed
/// lines with their sign, equal lines suppressed.
pub open spec fn plain_render_from(ss: Seq<(Tag, Seq<char>)>, i: int) -> Seq<char>
    decreases ss.len() - i when 0 <= i <= ss.len()
{
    if i >= ss.len() {
        Seq::<char>::empty()
    } else if ss[i].0 is Equal {
        plain_render_from(ss, i + 1)
    } else {
        sign_seq(ss[i].0) + ss[i].1 + plain_render_from(ss, i + 1)
    }
}

/// The colorless rendering of a diff summary.
pub open spec fn plain_render_spec(ss: Seq<(Tag, Seq<char>)>) -> Seq<char> {
    plain_render_from(ss, 0)
}

proof fn lemma_pieces_render_plain(ps: Seq<PieceV>, i: int, t: Tag)
    requires
        0 <= i <= ps.len(),
    ensures
        pieces_render_from(ps, i, t, false) == pieces_text_from(ps, i),
    decreases ps.len() - i,
{
    if i < ps.len() {
        lemma_pieces_render_plain(ps, i + 1, t);
    }
}

proof fn lemma_render_plain_from(ls: Seq<DiffLineV>, i: int)
    requires
        0 <= i <= ls.len(),
    ensures
        lines_render_from(ls, i, false) == plain_render_from(line_summary(ls), i),
    decreases ls.len() - i,
{
    assert(line_summary(ls).len() == ls.len());
    if i < ls.len() {
        lemma_render_plain_from(ls, i + 1);
        lemma_pieces_render_plain(ls[i].pieces, 0, ls[i].tag);
        assert(line_summary(ls)[i] == (ls[i].tag, pieces_text(ls[i].pieces)));
        if ls[i].tag is Equal {
            assert(lines_render_from(ls, i, false) =~= plain_render_from(line_summary(ls), i));
        } else {
            assert(styled_spec(ls[i].tag, sign_seq(ls[i].tag), false) == sign_seq(ls[i].tag));
            assert(lines_render_from(ls, i, false) =~= plain_render_from(line_summary(ls), i));
        }
    }
}

/// Without color, rendering a diff shows exactly the changed lines of its
/// summary, each prefixed with its sign, and suppresses equal lines; the
/// inline refinement of the pieces cannot change the output.
pub proof fn lemma_render_plain(ls: Seq<DiffLineV>)
    ensures
        render_lines_spec(ls, false) == plain_render_spec(line_summary(ls)),
{
    lemma_render_plain_from(ls, 0);
}

/// Renders the body of a diff: each changed line as its styled sign and its
/// rendered pieces, equal lines suppressed.
pub fn render_diff_body(lines: &Vec<DiffLine>, color: bool) -> (r: String)
    ensures
        r@ == render_lines_spec(lines_view(lines@), color),
{
    let ghost lv = lines_view(lines@);
    let mut out = String::new();
    let mut i: usize = 0;
    while i < lines.len()
        invariant
            i <= lines.len(),
            lv == lines_view(lines@),
            lv.len() == lines@.len(),
            lines_render_from(lv, 0, color) == out@ + lines_render_from(lv, i as int, color),
        decreases lines.len() - i,
    {
        proof {
            assert(lv[i as int] == lines@[i as int]@);
        }
        let ghost out_before = out@;
        let line = &lines[i];
        match line.tag {
            Tag::Equal => {
                proof {
                    assert(line_render_spec(lv[i as int], color) =~= Seq::<char>::empty());
                    assert(out@ + lines_render_from(lv, i + 1, color)
                        =~= out_before + lines_render_from(lv, i as int, color));
                }
            },
            _ => {
                append_styled(&mut out, line.tag, sign_str(line.tag), color);
                let ghost pv = lv[i as int].pieces;
                let ghost base = out@;
                let mut j: usize = 0;
                while j < line.pieces.len()
                    invariant
                        j <= line.pieces.len(),
                        pv == lv[i as int].pieces,
                        lv == lines_view(lines@),
                        lv.len() == lines@.len(),
                        i < lines@.len(),
                        lv[i as int] == lines@[i as int]@,
                        line == &lines[i as int],
                        pv.len() == line.pieces@.len(),
                        base + pieces_render_from(pv, 0, line.tag, color)
                            == out@ + pieces_render_from(pv, j as int, line.tag, color),
                    decreases line.pieces.len() - j,
                {
                    proof {
                        assert(pv[j as int] == line.pieces@[j as int]@);
                    }
                    let ghost out_in = out@;
                    let piece = &line.pieces[j];
                    if piece.emphasized {
                        append_styled(&mut out, line.tag, piece.text.as_str(), color);
                    } else {
                        out.append(piece.text.as_str());
                    }
                    proof {
                        assert(out@ =~= out_in + piece_render_spec(pv[j as int], line.tag, color));
                        assert(out_in + (piece_render_spec(pv[j as int], line.tag, color)
                            + pieces_render_from(pv, j + 1, line.tag, color))
                            =~= (out_in + piece_render_spec(pv[j as int], line.tag, color))
                                + pieces_render_from(pv, j + 1, line.tag, color));
                    }
                    j = j + 1;
                }
                proof {
                    assert(pieces_render_from(pv, line.pieces@.len() as int, line.tag, color)
                        =~= Seq::<char>::empty());
                    assert(out@ =~= base + pieces_render_from(pv, 0, line.tag, color));
                    assert(out@ =~= out_before + line_render_spec(lv[i as int], color));
                    assert(out@ + lines_render_from(lv, i + 1, color)
                        =~= out_before + lines_render_from(lv, i as int, color));
                }
            },
        }
        i = i + 1;
    }
    proof {
        assert(lines_render_from(lv, lv.len() as int, color) =~= Seq::<char>::empty());
        assert(out@ =~= lines_render_from(lv, 0, color));
    }
    out
}

} // verus!
