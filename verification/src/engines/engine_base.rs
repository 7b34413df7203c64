use crate::date::current_time;
use crate::date::normalize_date;
use crate::date::parse_relative_date;
use crate::date::relative_date_parsed;
use crate::date::result_date;
use crate::date::SearchResultDate;
use crate::date::Timestamp;
use crate::engines::config::EngineConfig;
use crate::entities::decode_html_text;
use crate::entities::html_text_decoded;
use crate::matcher::captures;
use crate::matcher::captures_group;
use crate::matcher::captures_span;
use crate::matcher::find;
use crate::matcher::group_text;
use crate::matcher::match_span;
use crate::matcher::optional_text;
use crate::matcher::regex_captures;
use crate::matcher::regex_find;
use crate::matcher::regex_replace_all;
use crate::matcher::replace_all;
use crate::patterns::TextPatterns;
use crate::search_result::SearchEngine;
use crate::search_result::SearchResult;
use crate::search_result::SearchResultView;
use crate::text::byte_len;
use crate::text::byte_suffix;
use crate::text::normalize_chunk;
use crate::text::normalized;
use crate::text::on_boundary;
use crate::text::slice_at;
use regex::Captures;
use regex::Regex;
use vstd::prelude::*;
use vstd::string::*;
use vstd::utf8::*;

verus! {

/// The fields of one result as the page holds them, before any cleaning. A
/// field is `None` where the pattern has no group for it or the group took no
/// part in the match.
pub struct RawResult {
    pub url: Option<String>,
    pub title: Option<String>,
    pub description: Option<String>,
    pub image: Option<String>,
    pub date: Option<String>,
}

/// A `RawResult` as a plain value.
pub struct RawFields {
    pub url: Option<Seq<char>>,
    pub title: Option<Seq<char>>,
    pub description: Option<Seq<char>>,
    pub image: Option<Seq<char>>,
    pub date: Option<Seq<char>>,
}

impl View for RawResult {
    type V = RawFields;

    open spec fn view(&self) -> RawFields {
        RawFields {
            url: optional_text(self.url),
            title: optional_text(self.title),
            description: optional_text(self.description),
            image: optional_text(self.image),
            date: optional_text(self.date),
        }
    }
}

/// The fields that a match of an engine's pattern holds, by the names of its
/// groups.
pub open spec fn captured_fields(caps: Captures<'static>) -> RawFields {
    RawFields {
        url: captures_group(caps, "url"@),
        title: captures_group(caps, "title"@),
        description: captures_group(caps, "description"@),
        image: captures_group(caps, "image"@),
        date: captures_group(caps, "date"@),
    }
}

/// The text of an optional string slice.
pub open spec fn optional_str(s: Option<&str>) -> Option<Seq<char>> {
    match s {
        Some(t) => Some(t@),
        None => None,
    }
}

/// A field with its percent-encoding decoded and its character references
/// resolved. A field that is absent or cannot be decoded is empty.
pub open spec fn decoded_field(patterns: TextPatterns, raw: Option<Seq<char>>) -> Seq<char> {
    match raw {
        Some(text) => match html_text_decoded(patterns.entity, text) {
            Some(decoded) => decoded,
            None => Seq::empty(),
        },
        None => Seq::empty(),
    }
}

/// The date of a result: none unless the engine has a date format and the
/// match holds a date.
pub open spec fn dated(
    patterns: TextPatterns,
    date_format: Option<Seq<char>>,
    raw: Option<Seq<char>>,
    now: Timestamp,
) -> Option<SearchResultDate> {
    match (date_format, raw) {
        (Some(format), Some(text)) => result_date(patterns.relative_date, text, format, now),
        _ => None,
    }
}

/// The result that the raw fields of a match give: title and address
/// decoded, the description decoded and stripped of markup tags, the image
/// address as it stands, the date read at the moment `now`.
pub open spec fn normalized_result(
    patterns: TextPatterns,
    engine: SearchEngine,
    date_format: Option<Seq<char>>,
    raw: RawFields,
    now: Timestamp,
) -> SearchResultView {
    SearchResultView {
        title: decoded_field(patterns, raw.title),
        url: decoded_field(patterns, raw.url),
        description: regex_replace_all(
            patterns.tag,
            decoded_field(patterns, raw.description),
            Seq::empty(),
        ),
        engine,
        image_url: raw.image,
        date: dated(patterns, date_format, raw.date, now),
    }
}

/// Decodes one field; an absent field and one that cannot be decoded give the
/// empty text.
pub fn decode_field(patterns: &TextPatterns, raw: &Option<String>) -> (r: String)
    ensures
        r@ == decoded_field(*patterns, optional_text(*raw)),
{
    match raw {
        Some(text) => match decode_html_text(patterns, text.as_str()) {
            Ok(decoded) => decoded,
            Err(_) => String::new(),
        },
        None => String::new(),
    }
}

/// Cleans the raw fields of one match into a result.
pub fn normalize_result(
    patterns: &TextPatterns,
    engine: SearchEngine,
    date_format: Option<&str>,
    raw: RawResult,
    now: Timestamp,
) -> (r: SearchResult)
    ensures
        r@ == normalized_result(*patterns, engine, optional_str(date_format), raw@, now),
{
    let title = decode_field(patterns, &raw.title);
    let url = decode_field(patterns, &raw.url);
    let description_raw = decode_field(patterns, &raw.description);
    proof {
        reveal_strlit("");
        assert(""@ =~= Seq::<char>::empty());
    }
    let description = replace_all(&patterns.tag, description_raw.as_str(), "");
    let date = match (date_format, &raw.date) {
        (Some(format), Some(text)) => normalize_date(patterns, text.as_str(), format, now),
        _ => None,
    };
    SearchResult { title, url, description, engine, image_url: raw.image, date }
}

/// What an extractor holds: the text that was fed and not yet consumed by a
/// match, and whether the start of the results was seen.
pub struct ExtractorState {
    pub buffer: Seq<char>,
    pub started: bool,
}

/// The state machine that pulls results out of a page delivered in chunks.
/// It begins seeking the start of the results; once the start marker is seen
/// it is in the results and stays there.
#[derive(Clone, Debug, Hash, PartialEq, Eq, PartialOrd, Ord)]
pub struct EnginePositions {
    pub previous_block: String,
    pub started: bool,
}

impl View for EnginePositions {
    type V = ExtractorState;

    open spec fn view(&self) -> ExtractorState {
        ExtractorState { buffer: self.previous_block@, started: self.started }
    }
}

/// The state after a chunk was fed. In the results the chunk's text joins
/// the buffer. Before them the start marker is sought in the chunk's text
/// alone: where it is found the text from the marker on joins the buffer and
/// the results begin, and where it is not the chunk is dropped.
pub open spec fn fed(state: ExtractorState, results_start: Regex, chunk: Seq<u8>) -> ExtractorState {
    let text = normalized(chunk);
    if state.started {
        ExtractorState { buffer: state.buffer + text, started: true }
    } else {
        match regex_find(results_start, text) {
            Some(span) => ExtractorState {
                buffer: state.buffer + byte_suffix(text, span.0 as int),
                started: true,
            },
            None => state,
        }
    }
}

/// What one attempt to extract gives: in the results, where the pattern
/// matches the buffer, the result of the leftmost match and the buffer from
/// the end of the match on; else no result and the state as it was.
pub open spec fn extracted(
    state: ExtractorState,
    single_result: Regex,
    engine: SearchEngine,
    date_format: Option<Seq<char>>,
    patterns: TextPatterns,
    now: Timestamp,
) -> (Option<SearchResultView>, ExtractorState) {
    match regex_captures(single_result, state.buffer) {
        Some(caps) if state.started => (
            Some(normalized_result(patterns, engine, date_format, captured_fields(caps), now)),
            ExtractorState {
                buffer: byte_suffix(state.buffer, captures_span(caps).1 as int),
                started: true,
            },
        ),
        _ => (None, state),
    }
}

/// The view of an optional result.
pub open spec fn optional_result(r: Option<SearchResult>) -> Option<SearchResultView> {
    match r {
        Some(x) => Some(x@),
        None => None,
    }
}

impl EnginePositions {
    /// An extractor to which nothing was fed: it seeks the start.
    pub fn new() -> (r: Self)
        ensures
            r@ == (ExtractorState { buffer: Seq::empty(), started: false }),
    {
        EnginePositions { previous_block: String::new(), started: false }
    }

    /// Reads a relative date such as `3 days ago` and places it before the
    /// moment that the system clock shows.
    pub fn parse_date(patterns: &TextPatterns, date: &str) -> (r: Option<Timestamp>)
        ensures
            exists|now: Timestamp| r == relative_date_parsed(patterns.relative_date, date@, now),
    {
        let now = current_time();
        parse_relative_date(patterns, date, now)
    }

    /// Drops the buffer's first `start_position` bytes.
    pub fn slice_remaining_block(&mut self, start_position: &usize)
        requires
            *start_position <= byte_len(old(self)@.buffer),
            on_boundary(old(self)@.buffer, *start_position as int),
        ensures
            final(self)@.buffer == byte_suffix(old(self)@.buffer, *start_position as int),
            encode_utf8(final(self)@.buffer) == encode_utf8(old(self)@.buffer).skip(
                *start_position as int,
            ),
            final(self).started == old(self).started,
    {
        let len = self.previous_block.as_str().as_bytes().len();
        proof {
            broadcast use encode_utf8_valid_utf8, encode_utf8_decode_utf8, decode_utf8_encode_utf8;

            is_char_boundary_start_end_of_seq(encode_utf8(self.previous_block@));
            valid_utf8_split(encode_utf8(self.previous_block@), *start_position as int);
        }
        let rest = match slice_at(self.previous_block.as_str(), *start_position, len) {
            Some(tail) => String::from_str(tail),
            None => String::new(),
        };
        self.previous_block = rest;
    }

    /// Feeds one chunk of the page.
    pub fn handle_start_check_using_default_method(
        &mut self,
        results_start_regex: &Regex,
        packet: &[u8],
    )
        ensures
            final(self)@ == fed(old(self)@, *results_start_regex, packet@),
            old(self).started ==> final(self).started,
    {
        let text = normalize_chunk(packet);
        if self.started {
            self.previous_block.append(text.as_str());
        } else {
            match find(results_start_regex, text.as_str()) {
                Some(span) => {
                    let len = text.as_str().as_bytes().len();
                    proof {
                        broadcast use encode_utf8_valid_utf8;

                        is_char_boundary_start_end_of_seq(encode_utf8(text@));
                    }
                    match slice_at(text.as_str(), span.0, len) {
                        Some(rest) => self.previous_block.append(rest),
                        None => {},
                    }
                    self.started = true;
                },
                None => {},
            }
        }
    }

    /// Attempts to extract one result from the buffer.
    pub fn handle_block_using_default_method(
        &mut self,
        single_result_regex: &Regex,
        engine: SearchEngine,
        date_format: Option<&str>,
        patterns: &TextPatterns,
        now: Timestamp,
    ) -> (r: Option<SearchResult>)
        ensures
            (optional_result(r), final(self)@) == extracted(
                old(self)@,
                *single_result_regex,
                engine,
                optional_str(date_format),
                *patterns,
                now,
            ),
            r is None ==> *final(self) == *old(self),
            r is Some ==> encode_utf8(final(self)@.buffer) == encode_utf8(old(self)@.buffer).skip(
                captures_span(
                    regex_captures(*single_result_regex, old(self)@.buffer)->Some_0,
                ).1 as int,
            ),
            old(self).started ==> final(self).started,
    {
        if !self.started {
            return None;
        }
        let (raw, end) = match captures(single_result_regex, self.previous_block.as_str()) {
            Some(caps) => {
                let span = match_span(&caps);
                let raw = RawResult {
                    url: group_text(&caps, "url"),
                    title: group_text(&caps, "title"),
                    description: group_text(&caps, "description"),
                    image: group_text(&caps, "image"),
                    date: group_text(&caps, "date"),
                };
                (raw, span.1)
            },
            None => { return None; },
        };
        let result = normalize_result(patterns, engine, date_format, raw, now);
        self.slice_remaining_block(&end);
        Some(result)
    }
}

/// What every engine offers: it takes the page chunk by chunk and hands out
/// the results one by one, each with the configuration of its engine.
pub trait EngineBase: Sized {
    /// What the engine's extractor holds.
    spec fn state(&self) -> ExtractorState;

    /// Attempts to extract the next result from what was fed so far.
    fn parse_next(&mut self, config: &EngineConfig, patterns: &TextPatterns, now: Timestamp) -> (r:
        Option<SearchResult>)
        ensures
            (optional_result(r), final(self).state()) == extracted(
                old(self).state(),
                config.single_result,
                config.engine,
                optional_text(config.date_format),
                *patterns,
                now,
            ),
    ;

    /// Feeds one chunk of the page.
    fn push_packet(&mut self, config: &EngineConfig, packet: &[u8])
        ensures
            final(self).state() == fed(old(self).state(), config.results_start, packet@),
    ;

    /// How many bytes are fed and not yet consumed.
    fn pending_bytes(&self) -> (r: usize)
        ensures
            r == byte_len(self.state().buffer),
    ;

    /// Feeds one chunk and attempts to extract the next result.
    fn parse_packet(
        &mut self,
        config: &EngineConfig,
        patterns: &TextPatterns,
        packet: &[u8],
        now: Timestamp,
    ) -> (r: Option<SearchResult>)
        ensures
            (optional_result(r), final(self).state()) == extracted(
                fed(old(self).state(), config.results_start, packet@),
                config.single_result,
                config.engine,
                optional_text(config.date_format),
                *patterns,
                now,
            ),
    {
        self.push_packet(config, packet);
        self.parse_next(config, patterns, now)
    }
}

impl EngineBase for EnginePositions {
    open spec fn state(&self) -> ExtractorState {
        self@
    }

    fn parse_next(&mut self, config: &EngineConfig, patterns: &TextPatterns, now: Timestamp) -> (r:
        Option<SearchResult>) {
        self.handle_block_using_default_method(
            &config.single_result,
            config.engine,
            config.date_format(),
            patterns,
            now,
        )
    }

    fn push_packet(&mut self, config: &EngineConfig, packet: &[u8]) {
        self.handle_start_check_using_default_method(&config.results_start, packet);
        assert(self.state() == self@);
    }

    fn pending_bytes(&self) -> (r: usize) {
        self.previous_block.as_str().as_bytes().len()
    }
}

} // verus!
