use crate::date::Timestamp;
use crate::matcher::optional_text;
use crate::replace::decimal;
use crate::replace::decimal_string;
use crate::replace::replace_text;
use crate::replace::replaced;
use crate::search_result::html_id;
use crate::search_result::SearchEngine;
use crate::search_result::SearchResult;
use crate::search_result::SearchResultView;
use chrono::DateTime;
use std::fmt::Write;
use vstd::prelude::*;
use vstd::string::*;

verus! {

/// What stands for the query in the template of a page's beginning.
pub const SEARCH_VALUE_MARK: &'static str = "{% search_value %}";

/// The format in which the date of a result is shown.
pub const SHOWN_DATE_FORMAT: &'static str = "%d. %B %Y";

/// What stands for one character inside a quoted attribute: the characters
/// that markup reserves are written as references.
pub open spec fn escaped_char(c: char) -> Seq<char> {
    if c == '&' {
        "&amp;"@
    } else if c == '<' {
        "&lt;"@
    } else if c == '>' {
        "&gt;"@
    } else if c == '"' {
        "&quot;"@
    } else if c == '\'' {
        "&#x27;"@
    } else {
        seq![c]
    }
}

/// A text made safe for a quoted attribute.
pub open spec fn quoted_attribute(text: Seq<char>) -> Seq<char>
    decreases text.len(),
{
    if text.len() == 0 {
        text
    } else {
        quoted_attribute(text.drop_last()) + escaped_char(text.last())
    }
}

/// Makes a text safe for a quoted attribute with
/// `html_escape::encode_quoted_attribute`, which writes `&`, `<`, `>`, `"` and
/// `'` as references and leaves every other character.
#[verifier::external_body]
pub(crate) fn encode_quoted_attribute(text: &str) -> (r: String)
    ensures
        r@ == quoted_attribute(text@),
{
    html_escape::encode_quoted_attribute(text).into_owned()
}

/// The host of an address, as `Url::parse` and `Url::host_str` give it:
/// `None` where the text is no address or the address has no host.
pub uninterp spec fn url_host(url: Seq<char>) -> Option<Seq<char>>;

/// Reads an address with `Url::parse` and hands out its host
/// (`Url::host_str`). The result is a function of the text alone.
#[verifier::external_body]
pub(crate) fn host_of(url: &str) -> (r: Option<String>)
    ensures
        optional_text(r) == url_host(url@),
{
    reqwest::Url::parse(url).ok().and_then(|parsed| parsed.host_str().map(|host| host.to_string()))
}

/// A point in time written under a `strftime` format by `chrono`: `None`
/// where `chrono` cannot hold the point in time or refuses the format.
pub uninterp spec fn timestamp_formatted(at: Timestamp, format: Seq<char>) -> Option<Seq<char>>;

/// Writes a point in time under a format (`DateTime::from_timestamp`, then
/// `DateTime::format`). The result is a function of the two arguments alone.
#[verifier::external_body]
pub(crate) fn format_timestamp(at: Timestamp, format: &str) -> (r: Option<String>)
    ensures
        optional_text(r) == timestamp_formatted(at, format@),
{
    let date = DateTime::from_timestamp(at.seconds, at.nanos)?;
    let mut out = String::new();
    write!(out, "{}", date.format(format)).ok().map(|_| out)
}

/// The beginning of a page: the template with the query, made safe for a
/// quoted attribute, in the place that is marked for it.
pub fn render_beginning_html(template: &str, query: &str) -> (r: String)
    ensures
        r@ == replaced(template@, SEARCH_VALUE_MARK@, quoted_attribute(query@)),
{
    let safe = encode_quoted_attribute(query);
    replace_text(template, SEARCH_VALUE_MARK, safe.as_str())
}

/// The style that marks an engine as finished.
pub open spec fn finished_css(template: Seq<char>, engine: Seq<char>, time: int) -> Seq<char> {
    "<style>"@ + replaced(
        replaced(template, "__engine__"@, engine),
        "{% time %}"@,
        decimal(time),
    ) + "</style>"@
}

/// The style that marks an engine as finished after `time` milliseconds: the
/// template with the engine's name and the time filled in.
pub fn render_finished_css(template: &str, engine: &str, time: i128) -> (r: String)
    ensures
        r@ == finished_css(template@, engine@, time as int),
{
    let named = replace_text(template, "__engine__", engine);
    let timed = replace_text(named.as_str(), "{% time %}", decimal_string(time).as_str());
    let mut out = String::from_str("<style>");
    out.append(timed.as_str());
    out.append("</style>");
    out
}

/// The text of an optional text, empty where there is none.
pub open spec fn text_or_empty(text: Option<Seq<char>>) -> Seq<char> {
    match text {
        Some(t) => t,
        None => Seq::empty(),
    }
}

/// The date of a result as it is shown, empty where the result has none.
pub open spec fn shown_date(result: SearchResultView) -> Seq<char> {
    match result.date {
        Some(date) => text_or_empty(timestamp_formatted(date.date, SHOWN_DATE_FORMAT@)),
        None => Seq::empty(),
    }
}

/// One result as markup: the template with each field in the place marked
/// for it. The places are filled in a fixed order, title first.
pub open spec fn result_html(template: Seq<char>, result: SearchResultView) -> Seq<char> {
    let a = replaced(template, "{% title %}"@, result.title);
    let b = replaced(a, "{% url %}"@, result.url);
    let c = replaced(b, "{% url_host %}"@, text_or_empty(url_host(result.url)));
    let d = replaced(c, "{% description %}"@, result.description);
    let e = replaced(d, "__ID__"@, html_id(result.url));
    let f = replaced(e, "{% image_url %}"@, text_or_empty(result.image_url));
    replaced(f, "{% date %}"@, shown_date(result))
}

fn or_empty(text: Option<String>) -> (r: String)
    ensures
        r@ == text_or_empty(optional_text(text)),
{
    match text {
        Some(t) => t,
        None => String::new(),
    }
}

/// One result as markup. An address without a host, an absent image and an
/// absent date leave their places empty.
pub fn render_result(template: &str, result: &SearchResult) -> (r: String)
    ensures
        r@ == result_html(template@, result@),
{
    let host = or_empty(host_of(result.url.as_str()));
    let image = match &result.image_url {
        Some(address) => address.clone(),
        None => String::new(),
    };
    let date = match result.date {
        Some(date) => or_empty(format_timestamp(date.date, SHOWN_DATE_FORMAT)),
        None => String::new(),
    };
    let a = replace_text(template, "{% title %}", result.title.as_str());
    let b = replace_text(a.as_str(), "{% url %}", result.url.as_str());
    let c = replace_text(b.as_str(), "{% url_host %}", host.as_str());
    let d = replace_text(c.as_str(), "{% description %}", result.description.as_str());
    let e = replace_text(d.as_str(), "__ID__", result.get_html_id().as_str());
    let f = replace_text(e.as_str(), "{% image_url %}", image.as_str());
    replace_text(f.as_str(), "{% date %}", date.as_str())
}

/// The style that shows an engine at a result.
pub open spec fn engine_visibility(id: Seq<char>, engine: SearchEngine) -> Seq<char> {
    "<style>#"@ + id + " .search-engines ."@ + engine.class_name()
        + " { opacity: 1 !important; }</style>"@
}

/// The style that shows, at the result with the identifier `id`, that
/// `engine` found it.
pub fn render_result_engine_visibility(id: &str, engine: &SearchEngine) -> (r: String)
    ensures
        r@ == engine_visibility(id@, *engine),
{
    let mut out = String::from_str("<style>#");
    out.append(id);
    out.append(" .search-engines .");
    out.append(engine.to_lowercase().as_str());
    out.append(" { opacity: 1 !important; }</style>");
    out
}

} // verus!
