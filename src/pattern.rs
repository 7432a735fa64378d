//! Compiled regular expressions, kept together with the text they were
//! compiled from so that contracts can speak of that text.
use vstd::prelude::*;

verus! {

#[verifier::external_type_specification]
#[verifier::external_body]
pub struct ExRegex(regex::Regex);

#[verifier::external_type_specification]
#[verifier::external_body]
pub struct ExRegexError(regex::Error);

/// Whether the regex engine accepts `source` as a pattern.
pub uninterp spec fn compiles(source: Seq<char>) -> bool;

/// The capture groups of the leftmost-first match of `source` in `text`,
/// group 0 first; `None` where the pattern does not match.
pub uninterp spec fn captures_of(source: Seq<char>, text: Seq<char>) -> Option<
    Seq<Option<Seq<char>>>,
>;

/// A regular expression compiled from `source`.
pub struct Pattern {
    source: String,
    compiled: regex::Regex,
}

impl Pattern {
    /// The pattern text this value was compiled from.
    pub closed spec fn source(&self) -> Seq<char> {
        self.source@
    }
}

/// The view of an optional owned string.
pub open spec fn opt_view(g: Option<String>) -> Option<Seq<char>> {
    match g {
        Some(s) => Some(s@),
        None => None,
    }
}

/// The view of a list of capture groups.
pub open spec fn groups_view(v: Seq<Option<String>>) -> Seq<Option<Seq<char>>> {
    v.map_values(|g: Option<String>| opt_view(g))
}

/// Relies on regex::Regex::new: it compiles `source`, or fails with the
/// engine's error, depending on the pattern text alone.
#[verifier::external_body]
pub(crate) fn compile(source: String) -> (r: Result<Pattern, regex::Error>)
    ensures
        r is Ok <==> compiles(source@),
        r is Ok ==> r->Ok_0.source() == source@,
{
    match regex::Regex::new(&source) {
        Ok(compiled) => Ok(Pattern { source, compiled }),
        Err(e) => Err(e),
    }
}

/// Relies on regex::Regex::captures: the groups of the leftmost-first match,
/// each present only where it took part in the match.
#[verifier::external_body]
pub(crate) fn captures(p: &Pattern, text: &str) -> (r: Option<Vec<Option<String>>>)
    ensures
        match r {
            Some(v) => captures_of(p.source(), text@) == Some(groups_view(v@)),
            None => captures_of(p.source(), text@) is None,
        },
{
    p.compiled.captures(text).map(
        |c| c.iter().map(|g| g.map(|m| m.as_str().to_string())).collect(),
    )
}

} // verus!
