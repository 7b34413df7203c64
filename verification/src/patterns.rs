use crate::matcher::compile;
use crate::matcher::regex_compile;
use regex::Regex;
use vstd::prelude::*;
use vstd::string::*;

verus! {

/// A character reference of markup: `&name;`, `&#123;` or `&#x7B;`.
pub const ENTITY_PATTERN: &'static str =
    r#"&(?:(?P<name>[a-zA-Z]+)|(?P<code>#(?:(?P<code_num>\d+)|(?P<code_hex>x[0-9a-fA-F]+))));"#;

/// A markup tag, quoted attribute values included.
pub const TAG_PATTERN: &'static str = r#"<(?:"[^"]*"['"]*|'[^']*'['"]*|[^'">])+>"#;

/// A date given as a distance from now, such as `3 days ago`.
pub const RELATIVE_DATE_PATTERN: &'static str =
    r#"(?P<amount>\d+) (?P<unit>second|minute|hour|day|week|month|year)s? ago"#;

/// Why a configuration was refused.
#[derive(Clone, Copy, Debug, PartialEq, Eq, Structural)]
pub enum ConfigError {
    /// The pattern for character references does not compile.
    EntityPattern,
    /// The pattern for markup tags does not compile.
    TagPattern,
    /// The pattern for relative dates does not compile.
    RelativeDatePattern,
    /// An engine's start marker does not compile.
    StartPattern,
    /// An engine's pattern for one result does not compile.
    ResultPattern,
    /// An engine's pattern for one result has no group `url`.
    MissingUrl,
    /// An engine's pattern for one result has no group `title`.
    MissingTitle,
    /// An engine's pattern for one result has no group `description`.
    MissingDescription,
}

/// The compiled patterns with which extracted fields are cleaned. They are
/// compiled once and then only read.
pub struct TextPatterns {
    pub entity: Regex,
    pub tag: Regex,
    pub relative_date: Regex,
}

impl TextPatterns {
    /// Whether the three patterns are the ones of this module, compiled.
    pub open spec fn wf(&self) -> bool {
        &&& regex_compile(ENTITY_PATTERN@) == Ok::<Regex, regex::Error>(self.entity)
        &&& regex_compile(TAG_PATTERN@) == Ok::<Regex, regex::Error>(self.tag)
        &&& regex_compile(RELATIVE_DATE_PATTERN@) == Ok::<Regex, regex::Error>(
            self.relative_date,
        )
    }

    /// What compiling gives, given what compiling each pattern gives.
    pub open spec fn built(
        entity: Result<Regex, regex::Error>,
        tag: Result<Regex, regex::Error>,
        relative_date: Result<Regex, regex::Error>,
    ) -> Result<TextPatterns, ConfigError> {
        match (entity, tag, relative_date) {
            (Err(_), _, _) => Err(ConfigError::EntityPattern),
            (Ok(_), Err(_), _) => Err(ConfigError::TagPattern),
            (Ok(_), Ok(_), Err(_)) => Err(ConfigError::RelativeDatePattern),
            (Ok(e), Ok(t), Ok(d)) => Ok(TextPatterns { entity: e, tag: t, relative_date: d }),
        }
    }

    /// Compiles three patterns into the patterns for cleaning fields. The
    /// first that is refused, in the order of the fields, decides the error.
    pub fn compile(entity: &str, tag: &str, relative_date: &str) -> (r: Result<
        TextPatterns,
        ConfigError,
    >)
        ensures
            r == Self::built(
                regex_compile(entity@),
                regex_compile(tag@),
                regex_compile(relative_date@),
            ),
    {
        let entity = match compile(entity) {
            Ok(re) => re,
            Err(_) => { return Err(ConfigError::EntityPattern); },
        };
        let tag = match compile(tag) {
            Ok(re) => re,
            Err(_) => { return Err(ConfigError::TagPattern); },
        };
        let relative_date = match compile(relative_date) {
            Ok(re) => re,
            Err(_) => { return Err(ConfigError::RelativeDatePattern); },
        };
        Ok(TextPatterns { entity, tag, relative_date })
    }

    /// Compiles the three patterns of this module.
    pub fn new() -> (r: Result<TextPatterns, ConfigError>)
        ensures
            r == Self::built(
                regex_compile(ENTITY_PATTERN@),
                regex_compile(TAG_PATTERN@),
                regex_compile(RELATIVE_DATE_PATTERN@),
            ),
            r matches Ok(p) ==> p.wf(),
    {
        Self::compile(ENTITY_PATTERN, TAG_PATTERN, RELATIVE_DATE_PATTERN)
    }
}

} // verus!
