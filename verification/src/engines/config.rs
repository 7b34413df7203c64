use crate::matcher::compile;
use crate::matcher::group_names;
use crate::matcher::optional_text;
use crate::matcher::regex_compile;
use crate::matcher::regex_group_names;
use crate::patterns::ConfigError;
use crate::search_result::SearchEngine;
use crate::text::text_eq;
use regex::Regex;
use vstd::prelude::*;
use vstd::string::*;

verus! {

/// What tells one engine's pages from another's: the marker with which the
/// results begin, the pattern of one result, and the format of its dates if
/// it gives any. It is made once for a search and then only read.
pub struct EngineConfig {
    pub engine: SearchEngine,
    pub results_start: Regex,
    pub single_result: Regex,
    pub date_format: Option<String>,
}

/// Whether one of the groups is called `name`.
pub open spec fn has_group(names: Seq<Option<Seq<char>>>, name: Seq<char>) -> bool {
    names.contains(Some(name))
}

/// Why the two patterns of an engine are refused, if they are: one of them
/// does not compile, or the pattern of one result lacks a group that every
/// result needs.
pub open spec fn config_error(
    results_start: Result<Regex, regex::Error>,
    single_result: Result<Regex, regex::Error>,
) -> Option<ConfigError> {
    match (results_start, single_result) {
        (Err(_), _) => Some(ConfigError::StartPattern),
        (Ok(_), Err(_)) => Some(ConfigError::ResultPattern),
        (Ok(_), Ok(re)) => {
            let names = regex_group_names(re);
            if !has_group(names, "url"@) {
                Some(ConfigError::MissingUrl)
            } else if !has_group(names, "title"@) {
                Some(ConfigError::MissingTitle)
            } else if !has_group(names, "description"@) {
                Some(ConfigError::MissingDescription)
            } else {
                None
            }
        },
    }
}

/// Whether a list of group names holds `name`.
pub fn names_contain(names: &Vec<Option<String>>, name: &str) -> (r: bool)
    ensures
        r == has_group(names@.map_values(|n: Option<String>| optional_text(n)), name@),
{
    let ghost texts = names@.map_values(|n: Option<String>| optional_text(n));
    let mut i: usize = 0;
    while i < names.len()
        invariant
            i <= names.len(),
            texts == names@.map_values(|n: Option<String>| optional_text(n)),
            forall|j: int| 0 <= j < i ==> texts[j] != Some(name@),
        decreases names.len() - i,
    {
        if let Some(n) = &names[i] {
            if text_eq(n.as_str(), name) {
                assert(texts[i as int] == Some(name@));
                return true;
            }
        }
        i += 1;
    }
    false
}

impl EngineConfig {
    /// Whether this is the configuration that the two patterns and the date
    /// format give for the engine.
    pub open spec fn is_built_from(
        &self,
        engine: SearchEngine,
        results_start: Seq<char>,
        single_result: Seq<char>,
        date_format: Option<Seq<char>>,
    ) -> bool {
        &&& self.engine == engine
        &&& regex_compile(results_start) == Ok::<Regex, regex::Error>(self.results_start)
        &&& regex_compile(single_result) == Ok::<Regex, regex::Error>(self.single_result)
        &&& optional_text(self.date_format) == date_format
    }

    /// Makes the configuration of an engine. It is refused where a pattern
    /// does not compile and where the pattern of one result has no group
    /// `url`, `title` or `description`; the groups `image` and `date` may be
    /// missing.
    pub fn new(
        engine: SearchEngine,
        results_start: &str,
        single_result: &str,
        date_format: Option<&str>,
    ) -> (r: Result<EngineConfig, ConfigError>)
        ensures
            r matches Ok(c) ==> config_error(
                regex_compile(results_start@),
                regex_compile(single_result@),
            ) is None && c.is_built_from(
                engine,
                results_start@,
                single_result@,
                match date_format {
                    Some(f) => Some(f@),
                    None => None,
                },
            ),
            r matches Err(e) ==> config_error(
                regex_compile(results_start@),
                regex_compile(single_result@),
            ) == Some(e),
    {
        let start = match compile(results_start) {
            Ok(re) => re,
            Err(_) => { return Err(ConfigError::StartPattern); },
        };
        let single = match compile(single_result) {
            Ok(re) => re,
            Err(_) => { return Err(ConfigError::ResultPattern); },
        };
        let names = group_names(&single);
        if !names_contain(&names, "url") {
            return Err(ConfigError::MissingUrl);
        }
        if !names_contain(&names, "title") {
            return Err(ConfigError::MissingTitle);
        }
        if !names_contain(&names, "description") {
            return Err(ConfigError::MissingDescription);
        }
        let format = match date_format {
            Some(f) => Some(String::from_str(f)),
            None => None,
        };
        Ok(EngineConfig { engine, results_start: start, single_result: single, date_format: format })
    }

    /// The date format as a string slice.
    pub fn date_format(&self) -> (r: Option<&str>)
        ensures
            match r {
                Some(f) => Some(f@),
                None => None,
            } == optional_text(self.date_format),
    {
        match &self.date_format {
            Some(f) => Some(f.as_str()),
            None => None,
        }
    }
}

} // verus!
