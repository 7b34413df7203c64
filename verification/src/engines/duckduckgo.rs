use crate::date::Timestamp;
use crate::engines::config::config_error;
use crate::engines::config::EngineConfig;
use crate::engines::engine_base::EngineBase;
use crate::engines::engine_base::EnginePositions;
use crate::engines::engine_base::ExtractorState;
use crate::engines::request::form_request;
use crate::engines::request::HttpMethod;
use crate::engines::request::SearchRequest;
use crate::matcher::regex_compile;
use crate::patterns::ConfigError;
use crate::patterns::TextPatterns;
use crate::search_result::SearchEngine;
use crate::search_result::SearchResult;
use vstd::prelude::*;
use vstd::string::*;

verus! {

/// The marker with which the results of a page begin.
pub const RESULTS_START: &'static str = r#"id=\"links\""#;

/// The pattern of one result.
pub const SINGLE_RESULT: &'static str =
    r#"<div class="result results_links.*?<a.*?href="(?P<url>.*?)".*?>(?P<title>.*?)</a>.*?class="result__snippet".*?>(?P<description>.*?)</a>.*?class="clear".*?</div>(?P<end> </div>){2}"#;

/// The address to which the search form is sent.
pub const SEARCH_URL: &'static str = "https://html.duckduckgo.com/html";

/// The extractor for pages of DuckDuckGo.
#[derive(Clone, Debug)]
pub struct DuckDuckGo {
    positions: EnginePositions,
}

impl EngineBase for DuckDuckGo {
    closed spec fn state(&self) -> ExtractorState {
        self.positions@
    }

    fn parse_next(&mut self, config: &EngineConfig, patterns: &TextPatterns, now: Timestamp) -> (r:
        Option<SearchResult>) {
        self.positions.parse_next(config, patterns, now)
    }

    fn push_packet(&mut self, config: &EngineConfig, packet: &[u8]) {
        self.positions.push_packet(config, packet)
    }

    fn pending_bytes(&self) -> (r: usize) {
        self.positions.pending_bytes()
    }
}

impl DuckDuckGo {
    /// An extractor to which nothing was fed.
    pub fn new() -> (r: Self)
        ensures
            r.state() == (ExtractorState { buffer: Seq::empty(), started: false }),
    {
        Self { positions: EnginePositions::new() }
    }

    /// The configuration of the engine: its two patterns, compiled.
    pub fn config() -> (r: Result<EngineConfig, ConfigError>)
        ensures
            r matches Ok(c) ==> config_error(
                regex_compile(RESULTS_START@),
                regex_compile(SINGLE_RESULT@),
            ) is None && c.is_built_from(
                SearchEngine::DuckDuckGo,
                RESULTS_START@,
                SINGLE_RESULT@,
                None,
            ),
            r matches Err(e) ==> config_error(
                regex_compile(RESULTS_START@),
                regex_compile(SINGLE_RESULT@),
            ) == Some(e),
    {
        EngineConfig::new(SearchEngine::DuckDuckGo, RESULTS_START, SINGLE_RESULT, None)
    }

    /// The request that asks the engine for `query`: the query is the field `q` of a form.
    pub fn request(query: &str) -> (r: SearchRequest)
        ensures
            r.method == HttpMethod::Post,
            r.url@ == SEARCH_URL@,
            r.form_query matches Some(q) && q@ == query@,
    {
        form_request(SEARCH_URL, query)
    }
}

} // verus!
