use regex::Captures;
use regex::Regex;
use vstd::prelude::*;
use vstd::string::*;
use vstd::utf8::*;

verus! {

/// A compiled regular expression of the `regex` crate.
#[verifier::external_type_specification]
#[verifier::external_body]
pub struct ExRegex(regex::Regex);

/// The error with which the `regex` crate refuses a pattern.
#[verifier::external_type_specification]
#[verifier::external_body]
pub struct ExRegexError(regex::Error);

/// One match of a regular expression together with its capture groups.
#[verifier::external_type_specification]
#[verifier::external_body]
pub struct ExCaptures<'h>(regex::Captures<'h>);

/// What `Regex::new` returns for a pattern.
pub uninterp spec fn regex_compile(pattern: Seq<char>) -> Result<Regex, regex::Error>;

/// What `Regex::find` returns: the byte offsets of the leftmost match.
pub uninterp spec fn regex_find(re: Regex, haystack: Seq<char>) -> Option<(usize, usize)>;

/// What `Regex::captures` returns: the leftmost match with its groups.
pub uninterp spec fn regex_captures(re: Regex, haystack: Seq<char>) -> Option<Captures<'static>>;

/// The byte offsets of the whole match held by a `Captures`.
pub uninterp spec fn captures_span(caps: Captures<'static>) -> (usize, usize);

/// The text that the group called `name` matched, if it took part.
pub uninterp spec fn captures_group(caps: Captures<'static>, name: Seq<char>) -> Option<Seq<char>>;

/// What `Regex::captures_iter` yields: the successive matches that do not
/// overlap, first to last.
pub uninterp spec fn regex_captures_all(re: Regex, haystack: Seq<char>) -> Seq<Captures<'static>>;

/// What `Regex::replace_all` returns: the haystack with each match replaced.
pub uninterp spec fn regex_replace_all(
    re: Regex,
    haystack: Seq<char>,
    replacement: Seq<char>,
) -> Seq<char>;

/// What `Regex::capture_names` yields: for each group of the pattern, in
/// order, its name if it has one.
pub uninterp spec fn regex_group_names(re: Regex) -> Seq<Option<Seq<char>>>;

/// The text of an optional string.
pub open spec fn optional_text(s: Option<String>) -> Option<Seq<char>> {
    match s {
        Some(t) => Some(t@),
        None => None,
    }
}

/// Whether the byte offsets `span` delimit a piece of `text` that begins and
/// ends between characters.
pub open spec fn span_within(span: (usize, usize), text: Seq<char>) -> bool {
    &&& span.0 <= span.1 <= encode_utf8(text).len()
    &&& is_char_boundary(encode_utf8(text), span.0 as int)
    &&& is_char_boundary(encode_utf8(text), span.1 as int)
}

/// Compiles `pattern` with `Regex::new`. The result is a function of the
/// pattern alone.
#[verifier::external_body]
pub(crate) fn compile(pattern: &str) -> (r: Result<Regex, regex::Error>)
    ensures
        r == regex_compile(pattern@),
{
    Regex::new(pattern)
}

/// Searches `haystack` with `Regex::find` and hands out the offsets of the
/// match. The `regex` crate documents that the offsets are ordered, lie inside
/// the haystack and fall on character boundaries.
#[verifier::external_body]
pub(crate) fn find(re: &Regex, haystack: &str) -> (r: Option<(usize, usize)>)
    ensures
        r == regex_find(*re, haystack@),
        r matches Some(span) ==> span_within(span, haystack@),
{
    re.find(haystack).map(|m| (m.start(), m.end()))
}

/// Searches `haystack` with `Regex::captures`. The span of the match found
/// lies inside the haystack, on character boundaries.
#[verifier::external_body]
pub(crate) fn captures<'h>(re: &Regex, haystack: &'h str) -> (r: Option<Captures<'h>>)
    ensures
        r == regex_captures(*re, haystack@),
        r matches Some(caps) ==> span_within(captures_span(caps), haystack@),
{
    re.captures(haystack)
}

/// The offsets of the whole match (`Captures::get_match`).
#[verifier::external_body]
pub(crate) fn match_span(caps: &Captures<'_>) -> (r: (usize, usize))
    ensures
        r == captures_span(*caps),
{
    let whole = caps.get_match();
    (whole.start(), whole.end())
}

/// The text of a named group (`Captures::name`), or `None` where the pattern
/// has no such group or the group took no part in the match.
#[verifier::external_body]
pub(crate) fn group_text(caps: &Captures<'_>, name: &str) -> (r: Option<String>)
    ensures
        r matches Some(s) ==> captures_group(*caps, name@) == Some(s@),
        r is None ==> captures_group(*caps, name@) is None,
{
    caps.name(name).map(|m| m.as_str().to_string())
}

/// All matches in `haystack` that do not overlap, in the order in which
/// `Regex::captures_iter` finds them.
#[verifier::external_body]
pub(crate) fn captures_all<'h>(re: &Regex, haystack: &'h str) -> (r: Vec<Captures<'h>>)
    ensures
        r@ == regex_captures_all(*re, haystack@),
{
    re.captures_iter(haystack).collect()
}

/// The haystack with every match replaced (`Regex::replace_all`). In the
/// replacement a `$` followed by a group's name or number stands for that
/// group's text.
#[verifier::external_body]
pub(crate) fn replace_all(re: &Regex, haystack: &str, replacement: &str) -> (r: String)
    ensures
        r@ == regex_replace_all(*re, haystack@, replacement@),
{
    re.replace_all(haystack, replacement).into_owned()
}

/// The names of the pattern's groups (`Regex::capture_names`), `None` for a
/// group without a name.
#[verifier::external_body]
pub(crate) fn group_names(re: &Regex) -> (r: Vec<Option<String>>)
    ensures
        r@.map_values(|n: Option<String>| optional_text(n)) == regex_group_names(*re),
{
    re.capture_names().map(|n| n.map(|s| s.to_string())).collect()
}

} // verus!
