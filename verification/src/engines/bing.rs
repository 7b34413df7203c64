use crate::date::Timestamp;
use crate::engines::config::config_error;
use crate::engines::config::EngineConfig;
use crate::engines::engine_base::EngineBase;
use crate::engines::engine_base::EnginePositions;
use crate::engines::engine_base::ExtractorState;
use crate::engines::request::get_request;
use crate::engines::request::HttpMethod;
use crate::engines::request::SearchRequest;
use crate::matcher::regex_compile;
use crate::patterns::ConfigError;
use crate::patterns::TextPatterns;
use crate::search_result::SearchEngine;
use crate::search_result::SearchResult;
use vstd::prelude::*;
use vstd::string::*;

verus! {

/// The marker with which the results of a page begin.
pub const RESULTS_START: &'static str = r#"id="b_results""#;

/// The pattern of one result.
pub const SINGLE_RESULT: &'static str =
    r#"<li class="b_algo".*?<h2.*?><a href="(?P<url>.+?)".*?>(?P<title>.+?)</a></h2>.*?((<div class="b_caption.*?<p.*?)|(<p class="b_lineclamp.*?))><span.*?</span>(?P<description>.*?)</p>.*?</li>"#;

/// The address of a search, to which the query is appended.
pub const SEARCH_URL: &'static str = "https://www.bing.com/search?q=";

/// The extractor for pages of Bing.
#[derive(Clone, Debug)]
pub struct Bing {
    positions: EnginePositions,
}

impl EngineBase for Bing {
    closed spec fn state(&self) -> ExtractorState {
        self.positions@
    }

    fn parse_next(&mut self, config: &EngineConfig, patterns: &TextPatterns, now: Timestamp) -> (r:
        Option<SearchResult>) {
        self.positions.parse_next(config, patterns, now)
    }

    fn push_packet(&mut self, config: &EngineConfig, packet: &[u8]) {
        self.positions.push_packet(config, packet)
    }

    fn pending_bytes(&self) -> (r: usize) {
        self.positions.pending_bytes()
    }
}

impl Bing {
    /// An extractor to which nothing was fed.
    pub fn new() -> (r: Self)
        ensures
            r.state() == (ExtractorState { buffer: Seq::empty(), started: false }),
    {
        Self { positions: EnginePositions::new() }
    }

    /// The configuration of the engine: its two patterns, compiled.
    pub fn config() -> (r: Result<EngineConfig, ConfigError>)
        ensures
            r matches Ok(c) ==> config_error(
                regex_compile(RESULTS_START@),
                regex_compile(SINGLE_RESULT@),
            ) is None && c.is_built_from(
                SearchEngine::Bing,
                RESULTS_START@,
                SINGLE_RESULT@,
                None,
            ),
            r matches Err(e) ==> config_error(
                regex_compile(RESULTS_START@),
                regex_compile(SINGLE_RESULT@),
            ) == Some(e),
    {
        EngineConfig::new(SearchEngine::Bing, RESULTS_START, SINGLE_RESULT, None)
    }

    /// The request that asks the engine for `query`: the query ends the address.
    pub fn request(query: &str) -> (r: SearchRequest)
        ensures
            r.method == HttpMethod::Get,
            r.url@ == SEARCH_URL@ + query@,
            r.form_query is None,
    {
        get_request(SEARCH_URL, query)
    }
}

} // verus!
