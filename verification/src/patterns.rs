//! Regular expressions, compiled and matched by the `regex` crate, and the
//! escaping of literal text for use inside one.

use vstd::prelude::*;

verus! {

#[verifier::external_type_specification]
#[verifier::external_body]
pub struct ExRegex(regex::Regex);

/// Whether `regex::Regex::new` accepts the pattern.
pub uninterp spec fn regex_accepts(pattern: Seq<char>) -> bool;

/// Whether the compiled pattern matches somewhere in `text`
/// (`regex::Regex::is_match`).
pub uninterp spec fn regex_finds(pattern: Seq<char>, text: Seq<char>) -> bool;

/// The text of the error that `regex::Regex::new` reports for a pattern it
/// refuses.
pub uninterp spec fn regex_error(pattern: Seq<char>) -> Seq<char>;

/// A pattern together with the regular expression compiled from it.
/// Values are only made by `compile_pattern`, so `regex` is always the
/// compilation of `source`.
#[derive(Debug)]
pub struct CompiledPattern {
    source: String,
    regex: regex::Regex,
}

impl CompiledPattern {
    /// The pattern text.
    pub closed spec fn source_text(&self) -> Seq<char> {
        self.source@
    }

    /// The pattern text.
    pub fn source(&self) -> (r: &str)
        ensures
            r@ == self.source_text(),
    {
        self.source.as_str()
    }
}

/// Calls `regex::Regex::new` on `pattern`. It succeeds exactly when the
/// pattern is accepted (named by `regex_accepts`), keeping the pattern text
/// beside the compiled expression; otherwise the error's display text is
/// returned (named by `regex_error`).
#[verifier::external_body]
pub(crate) fn compile_pattern(pattern: &str) -> (r: Result<CompiledPattern, String>)
    ensures
        match r {
            Ok(c) => regex_accepts(pattern@) && c.source_text() == pattern@,
            Err(m) => !regex_accepts(pattern@) && m@ == regex_error(pattern@),
        },
{
    match regex::Regex::new(pattern) {
        Ok(regex) => Ok(CompiledPattern { source: pattern.to_string(), regex }),
        Err(e) => Err(format!("{}", e)),
    }
}

/// Calls `regex::Regex::is_match` on the expression compiled from the
/// pattern's text; the answer is named by `regex_finds` on that text.
#[verifier::external_body]
pub(crate) fn pattern_finds(p: &CompiledPattern, text: &str) -> (r: bool)
    ensures
        r == regex_finds(p.source_text(), text@),
{
    p.regex.is_match(text)
}

/// The characters that have a meaning in a regular expression
/// (`regex_syntax::is_meta_character`).
pub open spec fn is_meta_character(c: char) -> bool {
    c == '\\' || c == '.' || c == '+' || c == '*' || c == '?' || c == '(' || c == ')' || c == '|'
        || c == '[' || c == ']' || c == '{' || c == '}' || c == '^' || c == '$' || c == '#'
        || c == '&' || c == '-' || c == '~'
}

/// `s` with a backslash put before every meta character.
pub open spec fn escaped(s: Seq<char>) -> Seq<char>
    decreases s.len(),
{
    if s.len() == 0 {
        Seq::<char>::empty()
    } else if is_meta_character(s.last()) {
        escaped(s.drop_last()) + seq!['\\', s.last()]
    } else {
        escaped(s.drop_last()).push(s.last())
    }
}

/// Calls `regex::escape`, which puts a backslash before each meta character
/// of `s` and copies every other character.
#[verifier::external_body]
pub(crate) fn regex_escape(s: &str) -> (r: String)
    ensures
        r@ == escaped(s@),
{
    regex::escape(s)
}

} // verus!
