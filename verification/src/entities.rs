use crate::entity_table::entity_code;
use crate::entity_table::lookup_entity_code;
use crate::matcher::captures_all;
use crate::matcher::captures_group;
use crate::matcher::captures_span;
use crate::matcher::group_text;
use crate::matcher::match_span;
use crate::matcher::optional_text;
use crate::matcher::regex_captures_all;
use crate::numbers::number_value;
use crate::numbers::parse_number;
use crate::patterns::TextPatterns;
use crate::percent::percent_decode;
use crate::percent::percent_decoded;
use crate::splice::splice_replacements;
use crate::splice::spliced;
use crate::splice::splices;
use crate::splice::Replacement;
use crate::splice::Splice;
use crate::text::byte_len;
use crate::text::byte_suffix;
use crate::text::push_char;
use crate::text::slice_at;
use crate::text::valid_span;
use regex::Captures;
use regex::Regex;
use vstd::prelude::*;
use vstd::string::*;
use vstd::utf8::*;

verus! {

/// The character with a given code point (`char::from_u32`): `None` for a
/// surrogate and for a number beyond U+10FFFF.
#[verifier::external_body]
pub(crate) fn char_from_u32(num: u32) -> (r: Option<char>)
    ensures
        r == (if is_scalar(num) {
            Some(num as char)
        } else {
            None
        }),
{
    char::from_u32(num)
}

/// The text of a `Result` whose two sides are strings.
pub open spec fn result_text(r: Result<String, String>) -> Result<Seq<char>, Seq<char>> {
    match r {
        Ok(s) => Ok(s@),
        Err(e) => Err(e@),
    }
}

/// The one-character text for a numeric character reference, or the reason
/// why there is none.
pub open spec fn symbol_text(num: u32) -> Result<Seq<char>, Seq<char>> {
    if is_scalar(num) {
        Ok(seq![num as char])
    } else {
        Err("Symbol not found"@)
    }
}

/// The character with the code point `num`, as a text.
pub fn lookup_html_unicode_num(num: u32) -> (r: Result<String, String>)
    ensures
        result_text(r) == symbol_text(num),
{
    match char_from_u32(num) {
        Some(value) => {
            let mut s = String::new();
            push_char(&mut s, value);
            assert(s@ =~= seq![num as char]);
            Ok(s)
        },
        None => Err(String::from_str("Symbol not found")),
    }
}

/// The text that a named character reference stands for, or the reason why
/// there is none.
pub open spec fn entity_text(name: Seq<char>) -> Result<Seq<char>, Seq<char>> {
    match entity_code(name) {
        Some(code) => symbol_text(code),
        None => Err("Unknown name"@),
    }
}

/// The character that the reference called `name` stands for, as a text.
pub fn lookup_html_unicode_name(name: &str) -> (r: Result<String, String>)
    ensures
        result_text(r) == entity_text(name@),
        r is Ok <==> entity_code(name@) is Some,
{
    match lookup_entity_code(name) {
        Some(code) => lookup_html_unicode_num(code),
        None => Err(String::from_str("Unknown name")),
    }
}

/// The text of a reference that could be resolved.
pub open spec fn resolved(r: Result<Seq<char>, Seq<char>>) -> Option<Seq<char>> {
    match r {
        Ok(t) => Some(t),
        Err(_) => None,
    }
}

/// The character that a numeric reference written in `digits` stands for.
pub open spec fn numeric_reference(digits: Seq<char>, radix: int) -> Option<Seq<char>> {
    match number_value(digits, radix, u32::MAX as int) {
        Some(v) => resolved(symbol_text(v as u32)),
        None => None,
    }
}

/// What stands in place of one character reference, given the groups of its
/// match: the name, the decimal digits, or `x` and the hexadecimal digits.
/// `None` where the reference cannot be resolved: an unknown name, a number
/// that is no character.
pub open spec fn entity_replacement(
    name: Option<Seq<char>>,
    code_num: Option<Seq<char>>,
    code_hex: Option<Seq<char>>,
) -> Option<Seq<char>> {
    if name is Some && name->Some_0.len() > 0 {
        resolved(entity_text(name->Some_0))
    } else if code_num is Some && code_num->Some_0.len() > 0 {
        numeric_reference(code_num->Some_0, 10)
    } else if code_hex is Some && valid_span(code_hex->Some_0, 1, byte_len(code_hex->Some_0)) {
        numeric_reference(byte_suffix(code_hex->Some_0, 1), 16)
    } else {
        None
    }
}

fn resolve_number(digits: &str, radix: u64) -> (r: Option<String>)
    ensures
        optional_text(r) == numeric_reference(digits@, radix as int),
{
    match parse_number(digits, radix, 0xFFFF_FFFF) {
        Some(v) => match lookup_html_unicode_num(v as u32) {
            Ok(t) => Some(t),
            Err(_) => None,
        },
        None => None,
    }
}

/// Resolves one character reference from the groups of its match.
pub fn replacement_for(
    name: &Option<String>,
    code_num: &Option<String>,
    code_hex: &Option<String>,
) -> (r: Option<String>)
    ensures
        optional_text(r) == entity_replacement(
            optional_text(*name),
            optional_text(*code_num),
            optional_text(*code_hex),
        ),
{
    if let Some(n) = name {
        if !n.as_str().is_empty() {
            return match lookup_html_unicode_name(n.as_str()) {
                Ok(t) => Some(t),
                Err(_) => None,
            };
        }
    }
    if let Some(d) = code_num {
        if !d.as_str().is_empty() {
            return resolve_number(d.as_str(), 10);
        }
    }
    if let Some(h) = code_hex {
        let len = h.as_str().as_bytes().len();
        if let Some(digits) = slice_at(h.as_str(), 1, len) {
            return resolve_number(digits, 16);
        }
    }
    None
}

/// The replacement that one match of the pattern for character references
/// asks for.
pub open spec fn entity_splice(caps: Captures<'static>) -> Splice {
    Splice {
        start: captures_span(caps).0 as int,
        end: captures_span(caps).1 as int,
        text: entity_replacement(
            captures_group(caps, "name"@),
            captures_group(caps, "code_num"@),
            captures_group(caps, "code_hex"@),
        ),
    }
}

/// `text` with each character reference that `re` finds resolved; one that
/// cannot be resolved stays as it is.
pub open spec fn html_unicode_replaced(re: Regex, text: Seq<char>) -> Seq<char> {
    spliced(text, regex_captures_all(re, text).map_values(|c: Captures<'static>| entity_splice(c)))
}

/// Resolves the character references in `text`. A reference that cannot be
/// resolved stays as it is.
pub fn replace_html_unicode(patterns: &TextPatterns, text: &str) -> (r: String)
    ensures
        r@ == html_unicode_replaced(patterns.entity, text@),
{
    let found = captures_all(&patterns.entity, text);
    let ghost wanted = regex_captures_all(patterns.entity, text@).map_values(
        |c: Captures<'static>| entity_splice(c),
    );
    let mut reps: Vec<Replacement> = Vec::new();
    let mut i: usize = 0;
    while i < found.len()
        invariant
            i <= found.len(),
            found@ == regex_captures_all(patterns.entity, text@),
            wanted == regex_captures_all(patterns.entity, text@).map_values(
                |c: Captures<'static>| entity_splice(c),
            ),
            splices(reps@) == wanted.take(i as int),
        decreases found.len() - i,
    {
        let caps = &found[i];
        let span = match_span(caps);
        let name = group_text(caps, "name");
        let code_num = group_text(caps, "code_num");
        let code_hex = group_text(caps, "code_hex");
        let text = replacement_for(&name, &code_num, &code_hex);
        let ghost before = reps@;
        reps.push(Replacement { start: span.0, end: span.1, text });
        proof {
            assert(splices(reps@) =~= splices(before).push(reps@.last()@));
            assert(wanted.take(i + 1) =~= wanted.take(i as int).push(wanted[i as int]));
        }
        i += 1;
    }
    proof {
        assert(wanted.take(found.len() as int) == wanted);
    }
    splice_replacements(text, &reps)
}

/// Why a text could not be decoded.
#[derive(Clone, Copy, Debug, PartialEq, Eq, Structural)]
pub enum DecodeError {
    /// The bytes behind the percent-encoding are no UTF-8.
    InvalidUtf8,
}

/// `text` with its percent-encoding decoded and then its character
/// references resolved: `None` where the decoded bytes are no UTF-8.
pub open spec fn html_text_decoded(re: Regex, text: Seq<char>) -> Option<Seq<char>> {
    match percent_decoded(text) {
        Some(plain) => Some(html_unicode_replaced(re, plain)),
        None => None,
    }
}

/// Decodes the percent-encoding of `text` and then resolves its character
/// references.
pub fn decode_html_text(patterns: &TextPatterns, text: &str) -> (r: Result<String, DecodeError>)
    ensures
        r matches Ok(s) ==> html_text_decoded(patterns.entity, text@) == Some(s@),
        r is Err ==> html_text_decoded(patterns.entity, text@) is None,
{
    match percent_decode(text) {
        Ok(plain) => Ok(replace_html_unicode(patterns, plain.as_str())),
        Err(_) => Err(DecodeError::InvalidUtf8),
    }
}

} // verus!
