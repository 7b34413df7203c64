use crate::matcher::captures;
use crate::matcher::captures_group;
use crate::matcher::group_text;
use crate::matcher::regex_captures;
use crate::numbers::number_value;
use crate::numbers::parse_number;
use crate::patterns::TextPatterns;
use crate::text::char_is_whitespace;
use crate::text::is_whitespace;
use crate::text::push_char;
use crate::text::text_eq;
use chrono::DateTime;
use chrono::ParseError;
use chrono::Utc;
use regex::Regex;
use vstd::prelude::*;
use vstd::string::*;

verus! {

/// A point in time: whole seconds since the start of 1970 in UTC, and the
/// nanoseconds into that second.
#[derive(Clone, Copy, Debug, PartialEq, Eq, Structural, PartialOrd, Ord, Hash)]
pub struct Timestamp {
    pub seconds: i64,
    pub nanos: u32,
}

/// When a result was published. `is_relative` says that the page gave only a
/// distance from the moment of reading, such as `2 hours ago`, so that the
/// date holds that moment less the distance.
#[derive(Clone, Copy, Debug, PartialEq, Eq, Structural, PartialOrd, Ord, Hash)]
pub struct SearchResultDate {
    pub date: Timestamp,
    pub is_relative: bool,
}

/// The error with which `chrono` refuses a date.
#[verifier::external_type_specification]
#[verifier::external_body]
pub struct ExParseError(chrono::ParseError);

/// What `DateTime::parse_from_str` reads from a text under a format, as a
/// point in time.
pub uninterp spec fn chrono_parsed(text: Seq<char>, format: Seq<char>) -> Option<Timestamp>;

/// Reads a date and time with offset under a `strftime` format
/// (`DateTime::parse_from_str`) and hands out its point in time. The result is
/// a function of the two texts alone.
#[verifier::external_body]
pub(crate) fn parse_absolute(text: &str, format: &str) -> (r: Result<Timestamp, ParseError>)
    ensures
        r matches Ok(t) ==> chrono_parsed(text@, format@) == Some(t),
        r is Err ==> chrono_parsed(text@, format@) is None,
{
    DateTime::parse_from_str(text, format).map(
        |d| Timestamp { seconds: d.timestamp(), nanos: d.timestamp_subsec_nanos() },
    )
}

/// The time that the system clock shows (`Utc::now`). Nothing is known of it.
#[verifier::external_body]
pub(crate) fn current_time() -> Timestamp {
    let now = Utc::now();
    Timestamp { seconds: now.timestamp(), nanos: now.timestamp_subsec_nanos() }
}

/// The words of a text, joined by single spaces: white space at the ends is
/// dropped and each run of it between two words becomes one space.
pub open spec fn squeezed(text: Seq<char>) -> Seq<char>
    decreases text.len(),
{
    if text.len() == 0 {
        text
    } else {
        let head = squeezed(text.drop_last());
        let c = text.last();
        if is_whitespace(c) {
            head
        } else if head.len() > 0 && is_whitespace(text[text.len() - 2]) {
            head.push(' ').push(c)
        } else {
            head.push(c)
        }
    }
}

/// The words of `text`, joined by single spaces.
pub fn squeeze_whitespace(text: &str) -> (r: String)
    ensures
        r@ == squeezed(text@),
{
    let mut out = String::new();
    let mut after_space = false;
    let mut any = false;
    proof {
        broadcast use vstd::string::group_string_axioms;

    }
    for c in it: text.chars()
        invariant
            it.seq() == text@,
            out@ == squeezed(text@.take(it.index())),
            any == (out@.len() > 0),
            after_space == (it.index() > 0 && is_whitespace(text@[it.index() - 1])),
    {
        proof {
            let i = it.index();
            assert(text@.take(i + 1).drop_last() == text@.take(i));
        }
        if char_is_whitespace(c) {
            after_space = true;
        } else {
            if any && after_space {
                push_char(&mut out, ' ');
            }
            push_char(&mut out, c);
            any = true;
            after_space = false;
        }
    }
    proof {
        assert(text@.take(text@.len() as int) == text@);
    }
    out
}

/// The seconds in one unit of time. A month counts as thirty days and a year
/// as three hundred and sixty-five.
pub open spec fn unit_seconds(unit: Seq<char>) -> Option<int> {
    if unit == "second"@ {
        Some(1)
    } else if unit == "minute"@ {
        Some(60)
    } else if unit == "hour"@ {
        Some(3_600)
    } else if unit == "day"@ {
        Some(86_400)
    } else if unit == "week"@ {
        Some(604_800)
    } else if unit == "month"@ {
        Some(2_592_000)
    } else if unit == "year"@ {
        Some(31_536_000)
    } else {
        None
    }
}

/// The seconds in one unit of time, by the unit's name in the singular.
pub fn unit_multiplier(unit: &str) -> (r: Option<i64>)
    ensures
        r matches Some(m) ==> unit_seconds(unit@) == Some(m as int),
        r is None ==> unit_seconds(unit@) is None,
{
    if text_eq(unit, "second") {
        Some(1)
    } else if text_eq(unit, "minute") {
        Some(60)
    } else if text_eq(unit, "hour") {
        Some(3_600)
    } else if text_eq(unit, "day") {
        Some(86_400)
    } else if text_eq(unit, "week") {
        Some(604_800)
    } else if text_eq(unit, "month") {
        Some(2_592_000)
    } else if text_eq(unit, "year") {
        Some(31_536_000)
    } else {
        None
    }
}

/// The point in time that lies `amount` units before `now`: `None` where the
/// amount is no decimal number, the unit is unknown, or the result cannot be
/// held in 64 bits.
pub open spec fn relative_timestamp(amount: Seq<char>, unit: Seq<char>, now: Timestamp) -> Option<
    Timestamp,
> {
    match (number_value(amount, 10, i64::MAX as int), unit_seconds(unit)) {
        (Some(n), Some(m)) => if n * m <= i64::MAX && now.seconds - n * m >= i64::MIN {
            Some(Timestamp { seconds: (now.seconds - n * m) as i64, nanos: now.nanos })
        } else {
            None
        },
        _ => None,
    }
}

/// The point in time that lies `amount` units before `now`.
pub fn timestamp_before(amount: &str, unit: &str, now: Timestamp) -> (r: Option<Timestamp>)
    ensures
        r == relative_timestamp(amount@, unit@, now),
{
    let n = match parse_number(amount, 10, 0x7FFF_FFFF_FFFF_FFFF) {
        Some(n) => n as i64,
        None => { return None; },
    };
    let m = match unit_multiplier(unit) {
        Some(m) => m,
        None => { return None; },
    };
    let offset = match n.checked_mul(m) {
        Some(offset) => offset,
        None => { return None; },
    };
    match now.seconds.checked_sub(offset) {
        Some(seconds) => Some(Timestamp { seconds, nanos: now.nanos }),
        None => None,
    }
}

/// What a relative date in `date` gives at the moment `now`: the first match
/// of `re` in the squeezed text names an amount and a unit.
pub open spec fn relative_date_parsed(re: Regex, date: Seq<char>, now: Timestamp) -> Option<
    Timestamp,
> {
    match regex_captures(re, squeezed(date)) {
        Some(caps) => match (captures_group(caps, "amount"@), captures_group(caps, "unit"@)) {
            (Some(amount), Some(unit)) => relative_timestamp(amount, unit, now),
            _ => None,
        },
        None => None,
    }
}

/// Reads a relative date such as `3 days ago` and places it before `now`.
pub fn parse_relative_date(patterns: &TextPatterns, date: &str, now: Timestamp) -> (r: Option<
    Timestamp,
>)
    ensures
        r == relative_date_parsed(patterns.relative_date, date@, now),
{
    let text = squeeze_whitespace(date);
    match captures(&patterns.relative_date, text.as_str()) {
        Some(caps) => {
            let amount = group_text(&caps, "amount");
            let unit = group_text(&caps, "unit");
            match (amount, unit) {
                (Some(a), Some(u)) => timestamp_before(a.as_str(), u.as_str(), now),
                _ => None,
            }
        },
        None => None,
    }
}

/// The date of a result: the absolute date that `text` holds under `format`
/// if there is one, else the relative date that it holds, else none.
pub open spec fn result_date(re: Regex, text: Seq<char>, format: Seq<char>, now: Timestamp) -> Option<
    SearchResultDate,
> {
    match chrono_parsed(text, format) {
        Some(t) => Some(SearchResultDate { date: t, is_relative: false }),
        None => match relative_date_parsed(re, text, now) {
            Some(t) => Some(SearchResultDate { date: t, is_relative: true }),
            None => None,
        },
    }
}

/// Reads the date of a result, absolute under `format` or else relative to
/// `now`.
pub fn normalize_date(patterns: &TextPatterns, text: &str, format: &str, now: Timestamp) -> (r:
    Option<SearchResultDate>)
    ensures
        r == result_date(patterns.relative_date, text@, format@, now),
{
    match parse_absolute(text, format) {
        Ok(t) => Some(SearchResultDate { date: t, is_relative: false }),
        Err(_) => match parse_relative_date(patterns, text, now) {
            Some(t) => Some(SearchResultDate { date: t, is_relative: true }),
            None => None,
        },
    }
}

} // verus!
