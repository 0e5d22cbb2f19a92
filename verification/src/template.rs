//! Replacement-template normalization.
//!
//! A replacement template may contain positional group references such as
//! `$1`.  Followed by further digits these are ambiguous, so every reference
//! of the form *(start of string, or a character other than a backslash)*
//! `$` *digits* is rewritten into the same prefix followed by a
//! brace-delimited reference `${digits}`.  The longest contiguous digit run
//! is always taken as the group index, and a `$` preceded by a backslash is
//! left untouched.  The scan is a single left-to-right pass: characters
//! consumed by one rewrite never serve as the prefix of the next.

use vstd::prelude::*;
use crate::chars::{chars_of, digit_char, is_ascii_digit_char, string_from_chars};

verus! {

/// A `$` at position `j` that is directly followed by a digit, so that a
/// group reference starts at `j`.
pub open spec fn dollar_at(s: Seq<char>, j: int) -> bool {
    &&& 0 <= j
    &&& j + 1 < s.len()
    &&& s[j] == '$'
    &&& is_ascii_digit_char(s[j + 1])
}

/// The number of consecutive ASCII digits starting at position `i`.
pub open spec fn run_len(s: Seq<char>, i: int) -> nat
    decreases s.len() - i when 0 <= i <= s.len()
{
    if i < s.len() && is_ascii_digit_char(s[i]) {
        1 + run_len(s, i + 1)
    } else {
        0
    }
}

/// A brace-delimited group reference for the digit run `d`.
pub open spec fn braced(d: Seq<char>) -> Seq<char> {
    seq!['$', '{'] + d + seq!['}']
}

/// The normalized form of the template suffix that starts at position `i`.
///
/// At the very start of the template a reference may begin with `$` itself;
/// anywhere else it needs a preceding character other than a backslash,
/// which is kept and emitted in front of the rewritten reference.
pub open spec fn norm_at(s: Seq<char>, i: int) -> Seq<char>
    decreases s.len() - i when 0 <= i <= s.len() via norm_at_decreases
{
    if i >= s.len() {
        Seq::<char>::empty()
    } else if i == 0 && dollar_at(s, 0) {
        braced(s.subrange(1, 1 + run_len(s, 1) as int)) + norm_at(s, 1 + run_len(s, 1) as int)
    } else if s[i] != '\\' && dollar_at(s, i + 1) {
        seq![s[i]] + braced(s.subrange(i + 2, i + 2 + run_len(s, i + 2) as int))
            + norm_at(s, i + 2 + run_len(s, i + 2) as int)
    } else {
        seq![s[i]] + norm_at(s, i + 1)
    }
}

/// The normalized form of a whole replacement template.
pub open spec fn normalize_spec(s: Seq<char>) -> Seq<char> {
    norm_at(s, 0)
}

#[via_fn]
proof fn norm_at_decreases(s: Seq<char>, i: int) {
    if i < s.len() {
        if i == 0 && dollar_at(s, 0) {
            lemma_run_len_le(s, 1);
        } else if s[i] != '\\' && dollar_at(s, i + 1) {
            lemma_run_len_le(s, i + 2);
        }
    }
}

proof fn lemma_run_len_le(s: Seq<char>, i: int)
    requires
        0 <= i <= s.len(),
    ensures
        i + run_len(s, i) <= s.len(),
    decreases s.len() - i,
{
    if i < s.len() && is_ascii_digit_char(s[i]) {
        lemma_run_len_le(s, i + 1);
    }
}

proof fn lemma_run_len_exact(s: Seq<char>, i: int, k: int)
    requires
        0 <= i <= k <= s.len(),
        forall|j: int| i <= j < k ==> is_ascii_digit_char(s[j]),
        k == s.len() || !is_ascii_digit_char(s[k]),
    ensures
        run_len(s, i) == k - i,
    decreases k - i,
{
    if i < k {
        lemma_run_len_exact(s, i + 1, k);
    }
}

/// The longest contiguous digit run always becomes the group index.  When a
/// template begins with `$` followed by the digits at positions `1..k` (and
/// position `k`, if any, is not a digit), the whole run is rewritten into
/// one brace-delimited reference: `$12` resolves to group 12, never to
/// group 1 followed by a literal `2`.
pub proof fn lemma_leading_reference_takes_longest_run(s: Seq<char>, k: int)
    requires
        2 <= k <= s.len(),
        s[0] == '$',
        forall|j: int| 1 <= j < k ==> is_ascii_digit_char(s[j]),
        k == s.len() || !is_ascii_digit_char(s[k]),
    ensures
        normalize_spec(s) == braced(s.subrange(1, k)) + norm_at(s, k),
{
    lemma_run_len_exact(s, 1, k);
    assert(dollar_at(s, 0));
}

/// The longest-run policy anywhere in a template: a character other than a
/// backslash, then `$`, then the digits at positions `i + 2 .. k` (with
/// position `k`, if any, not a digit) normalizes to that character followed
/// by one brace-delimited reference for the whole run.
pub proof fn lemma_inner_reference_takes_longest_run(s: Seq<char>, i: int, k: int)
    requires
        0 <= i,
        i + 3 <= k <= s.len(),
        s[i] != '\\',
        s[i + 1] == '$',
        forall|j: int| i + 2 <= j < k ==> is_ascii_digit_char(s[j]),
        k == s.len() || !is_ascii_digit_char(s[k]),
    ensures
        norm_at(s, i) == seq![s[i]] + braced(s.subrange(i + 2, k)) + norm_at(s, k),
{
    lemma_run_len_exact(s, i + 2, k);
    assert(dollar_at(s, i + 1));
}

proof fn lemma_no_reference_unchanged_from(s: Seq<char>, i: int)
    requires
        0 <= i <= s.len(),
        forall|j: int| !dollar_at(s, j),
    ensures
        norm_at(s, i) == s.subrange(i, s.len() as int),
    decreases s.len() - i,
{
    if i < s.len() {
        lemma_no_reference_unchanged_from(s, i + 1);
        assert(seq![s[i]] + s.subrange(i + 1, s.len() as int)
            =~= s.subrange(i, s.len() as int));
    }
}

/// A template in which no `$` is directly followed by a digit contains no
/// group reference to rewrite, and normalization returns it unchanged.
pub proof fn lemma_template_without_references_unchanged(s: Seq<char>)
    requires
        forall|j: int| !dollar_at(s, j),
    ensures
        normalize_spec(s) == s,
{
    lemma_no_reference_unchanged_from(s, 0);
    assert(s.subrange(0, s.len() as int) =~= s);
}

/// Appends `${d}` to `out`, where `d` is the digit run of `t` that starts at
/// `start`; returns the position just past the run.
fn push_braced_run(t: &Vec<char>, start: usize, out: &mut Vec<char>) -> (end: usize)
    requires
        start <= t@.len(),
    ensures
        end == start + run_len(t@, start as int),
        end <= t@.len(),
        final(out)@ == old(out)@ + braced(t@.subrange(start as int, end as int)),
{
    proof {
        lemma_run_len_le(t@, start as int);
    }
    out.push('$');
    out.push('{');
    let mut j: usize = start;
    while j < t.len() && digit_char(t[j])
        invariant
            start <= j <= t@.len(),
            run_len(t@, start as int) == (j - start) + run_len(t@, j as int),
            out@ == old(out)@ + seq!['$', '{'] + t@.subrange(start as int, j as int),
        decreases t@.len() - j,
    {
        out.push(t[j]);
        j = j + 1;
        proof {
            assert(out@ =~= old(out)@ + seq!['$', '{'] + t@.subrange(start as int, j as int));
        }
    }
    proof {
        assert(run_len(t@, j as int) == 0);
    }
    out.push('}');
    proof {
        assert(out@ =~= old(out)@ + braced(t@.subrange(start as int, j as int)));
    }
    j
}

/// Normalizes a replacement template given as a character vector.
pub fn normalize_chars(t: &Vec<char>) -> (r: Vec<char>)
    ensures
        r@ == normalize_spec(t@),
{
    let ghost s = t@;
    let mut out: Vec<char> = Vec::new();
    let mut i: usize = 0;
    while i < t.len()
        invariant
            0 <= i <= t@.len(),
            s == t@,
            normalize_spec(s) == out@ + norm_at(s, i as int),
        decreases t@.len() - i,
    {
        let c = t[i];
        let ghost out0 = out@;
        if i == 0 && c == '$' && t.len() > 1 && digit_char(t[1]) {
            proof {
                assert(dollar_at(s, 0));
            }
            let end = push_braced_run(t, 1, &mut out);
            proof {
                assert(norm_at(s, 0) == braced(s.subrange(1, end as int)) + norm_at(s, end as int));
                assert(out0 + norm_at(s, 0) =~= out@ + norm_at(s, end as int));
            }
            i = end;
        } else if c != '\\' && t.len() - i > 2 && t[i + 1] == '$' && digit_char(t[i + 2]) {
            proof {
                assert(dollar_at(s, i + 1));
            }
            out.push(c);
            let end = push_braced_run(t, i + 2, &mut out);
            proof {
                assert(norm_at(s, i as int) == seq![s[i as int]]
                    + braced(s.subrange(i + 2, end as int)) + norm_at(s, end as int));
                assert(out0 + norm_at(s, i as int) =~= out@ + norm_at(s, end as int));
            }
            i = end;
        } else {
            out.push(c);
            proof {
                assert(!(i == 0 && dollar_at(s, 0)));
                assert(!(s[i as int] != '\\' && dollar_at(s, i as int + 1)));
                assert(norm_at(s, i as int) == seq![s[i as int]] + norm_at(s, i as int + 1));
                assert(out0 + norm_at(s, i as int) =~= out@ + norm_at(s, i as int + 1));
            }
            i = i + 1;
        }
    }
    out
}

/// Normalizes a replacement template: every group back-reference becomes
/// brace-delimited, with the longest digit run taken as the group index;
/// escaped dollar signs and everything else are kept as they are.
pub fn normalize(template: &str) -> (r: String)
    ensures
        r@ == normalize_spec(template@),
{
    let cs = chars_of(template);
    let normalized = normalize_chars(&cs);
    string_from_chars(&normalized)
}

} // verus!
