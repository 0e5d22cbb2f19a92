//! Pattern compilation: a find string becomes a compiled matcher, either as
//! a raw regular expression or, in literal mode, with every metacharacter
//! escaped first so that it matches the find string exactly as written.

use vstd::prelude::*;
use vstd::string::StringExecFns;

verus! {

#[verifier::external_type_specification]
#[verifier::external_body]
pub struct ExRegex(regex::Regex);

#[verifier::external_type_specification]
#[verifier::external_body]
pub struct ExRegexError(regex::Error);

/// Whether `pattern` is accepted by the regular-expression compiler (with
/// its default limits, among them a bound on the size of the compiled
/// program): the result of `regex::Regex::new` depends on the pattern text
/// alone.
pub uninterp spec fn regex_syntax_ok(pattern: Seq<char>) -> bool;

/// A regular-expression metacharacter: exactly the characters that
/// `regex::escape` prefixes with a backslash.
pub open spec fn is_meta_char(c: char) -> bool {
    ||| c == '\\'
    ||| c == '.'
    ||| c == '+'
    ||| c == '*'
    ||| c == '?'
    ||| c == '('
    ||| c == ')'
    ||| c == '|'
    ||| c == '['
    ||| c == ']'
    ||| c == '{'
    ||| c == '}'
    ||| c == '^'
    ||| c == '$'
    ||| c == '#'
    ||| c == '&'
    ||| c == '-'
    ||| c == '~'
}

/// The escaped form of `s`: each character kept as it is, with a backslash
/// prepended to every metacharacter.
pub open spec fn escaped_spec(s: Seq<char>) -> Seq<char>
    decreases s.len()
{
    if s.len() == 0 {
        Seq::<char>::empty()
    } else if is_meta_char(s[0]) {
        seq!['\\', s[0]] + escaped_spec(s.drop_first())
    } else {
        seq![s[0]] + escaped_spec(s.drop_first())
    }
}

/// The text the matcher is compiled from: the find string itself, or its
/// escaped form in literal mode.
pub open spec fn matcher_source(find: Seq<char>, literal_mode: bool) -> Seq<char> {
    if literal_mode {
        escaped_spec(find)
    } else {
        find
    }
}

/// The replacement of every non-overlapping match of the pattern compiled
/// from `pattern` in `text` with the expansion of the template `rep`: the
/// result of `regex::Regex::replace_all` depends on these three texts alone.
pub uninterp spec fn replace_all_of(pattern: Seq<char>, text: Seq<char>, rep: Seq<char>) -> Seq<char>;

/// Relies on `regex::Regex::new`: it compiles the pattern and returns `Ok`
/// exactly when the pattern text is a valid regular expression within the
/// default size limits, which is a property of the pattern text alone.
#[verifier::external_body]
fn regex_new(pattern: &str) -> (r: Result<regex::Regex, regex::Error>)
    ensures
        r is Ok <==> regex_syntax_ok(pattern@),
{
    regex::Regex::new(pattern)
}

/// Relies on `regex::escape`: it walks the characters of the input and
/// prepends a backslash to each one for which `regex_syntax::is_meta_character`
/// holds — exactly the characters of [`is_meta_char`].
#[verifier::external_body]
fn regex_escape(s: &str) -> (r: String)
    ensures
        r@ == escaped_spec(s@),
{
    regex::escape(s)
}

/// Relies on the `Display` impl of `regex::Error` for the human-readable
/// parse diagnostic.
#[verifier::external_body]
fn regex_error_message(e: &regex::Error) -> String {
    format!("{}", e)
}

/// A compiled find pattern.  Its view is the source text that the matcher
/// was compiled from (the escaped text, in literal mode).
pub struct Pattern {
    re: regex::Regex,
    src: Ghost<Seq<char>>,
}

impl View for Pattern {
    type V = Seq<char>;

    closed spec fn view(&self) -> Seq<char> {
        self.src@
    }
}

/// Relies on `regex::Regex::replace_all` (with a `&str` replacer): the
/// result is a pure function of the regex source text, the haystack and the
/// replacement template.  `compile` below is the only constructor of
/// `Pattern`, and it records as `src` exactly the text the matcher was
/// compiled from.
#[verifier::external_body]
pub(crate) fn pattern_replace_all(p: &Pattern, text: &str, rep: &str) -> (r: String)
    ensures
        r@ == replace_all_of(p@, text@, rep@),
{
    p.re.replace_all(text, rep).into_owned()
}

/// The failure report for a find string that is not a valid regular
/// expression.
pub struct PatternError {
    /// The find string as the user wrote it.
    pub pattern: String,
    /// The parse diagnostic of the regular-expression compiler.
    pub detail: String,
}

/// The rendered text of a pattern error: it embeds the original find string,
/// a suggestion to use literal mode, and the parse diagnostic.
pub open spec fn pattern_error_text(pattern: Seq<char>, detail: Seq<char>) -> Seq<char> {
    "Tried to parse \""@ + pattern
        + "\" as a regex, but failed.\nTry using -s to interpret <FIND> as a string, or fix your regex.\n\n"@
        + detail
}

impl PatternError {
    /// The human-readable message for this error.
    pub fn message(&self) -> (r: String)
        ensures
            r@ == pattern_error_text(self.pattern@, self.detail@),
    {
        let mut out = String::new();
        out.append("Tried to parse \"");
        out.append(self.pattern.as_str());
        out.append(
            "\" as a regex, but failed.\nTry using -s to interpret <FIND> as a string, or fix your regex.\n\n",
        );
        out.append(self.detail.as_str());
        out
    }
}

/// Compiles the find string.  In literal mode every metacharacter is escaped
/// first, so the matcher's source is the escaped text and the find string is
/// matched only as written; otherwise the find string itself is the source.
/// Compilation succeeds exactly when the regular-expression compiler accepts
/// that source — escaping removes every syntax error, but a huge find string
/// can still exceed the compiler's size limit — and any failure is reported
/// as a `PatternError` carrying the original find string, before any file is
/// touched.
pub fn compile(find: &str, literal_mode: bool) -> (r: Result<Pattern, PatternError>)
    ensures
        r is Ok <==> regex_syntax_ok(matcher_source(find@, literal_mode)),
        r matches Ok(p) ==> p@ == matcher_source(find@, literal_mode),
        r matches Err(e) ==> e.pattern@ == find@,
{
    if literal_mode {
        let escaped = regex_escape(find);
        let ghost src = escaped@;
        match regex_new(escaped.as_str()) {
            Ok(re) => Ok(Pattern { re, src: Ghost(src) }),
            Err(e) => Err(
                PatternError { pattern: String::from_str(find), detail: regex_error_message(&e) },
            ),
        }
    } else {
        let ghost src = find@;
        match regex_new(find) {
            Ok(re) => Ok(Pattern { re, src: Ghost(src) }),
            Err(e) => Err(
                PatternError { pattern: String::from_str(find), detail: regex_error_message(&e) },
            ),
        }
    }
}

} // verus!
