use crate::date::SearchResultDate;
use crate::text::push_char;
use vstd::prelude::*;
use vstd::string::*;
use vstd::utf8::*;

verus! {

/// The engines that can be asked, in the order in which they are shown.
#[derive(Clone, Copy, Debug, Hash, PartialEq, Eq, Structural, PartialOrd, Ord)]
pub enum SearchEngine {
    Brave,
    Bing,
    DuckDuckGo,
}

impl SearchEngine {
    /// The engine's name as it is shown.
    pub open spec fn name(self) -> Seq<char> {
        match self {
            SearchEngine::Brave => "Brave"@,
            SearchEngine::Bing => "Bing"@,
            SearchEngine::DuckDuckGo => "DuckDuckGo"@,
        }
    }

    /// The engine's name in small letters, as style sheets know it.
    pub open spec fn class_name(self) -> Seq<char> {
        match self {
            SearchEngine::Brave => "brave"@,
            SearchEngine::Bing => "bing"@,
            SearchEngine::DuckDuckGo => "duckduckgo"@,
        }
    }

    /// The engine's place in the order of the engines.
    pub open spec fn index(self) -> int {
        match self {
            SearchEngine::Brave => 0,
            SearchEngine::Bing => 1,
            SearchEngine::DuckDuckGo => 2,
        }
    }

    /// The engine's name as it is shown.
    pub fn to_string(&self) -> (r: String)
        ensures
            r@ == self.name(),
    {
        match self {
            SearchEngine::Brave => String::from_str("Brave"),
            SearchEngine::Bing => String::from_str("Bing"),
            SearchEngine::DuckDuckGo => String::from_str("DuckDuckGo"),
        }
    }

    /// The engine's name in small letters.
    pub fn to_lowercase(&self) -> (r: String)
        ensures
            r@ == self.class_name(),
    {
        match self {
            SearchEngine::Brave => String::from_str("brave"),
            SearchEngine::Bing => String::from_str("bing"),
            SearchEngine::DuckDuckGo => String::from_str("duckduckgo"),
        }
    }
}

/// One result as an engine reported it, cleaned.
#[derive(Clone, Debug, PartialEq, Eq, PartialOrd, Ord)]
pub struct SearchResult {
    pub title: String,
    pub url: String,
    pub description: String,
    pub engine: SearchEngine,
    pub image_url: Option<String>,
    pub date: Option<SearchResultDate>,
}

/// A `SearchResult` as a plain value.
pub struct SearchResultView {
    pub title: Seq<char>,
    pub url: Seq<char>,
    pub description: Seq<char>,
    pub engine: SearchEngine,
    pub image_url: Option<Seq<char>>,
    pub date: Option<SearchResultDate>,
}

impl View for SearchResult {
    type V = SearchResultView;

    open spec fn view(&self) -> SearchResultView {
        SearchResultView {
            title: self.title@,
            url: self.url@,
            description: self.description@,
            engine: self.engine,
            image_url: match self.image_url {
                Some(s) => Some(s@),
                None => None,
            },
            date: self.date,
        }
    }
}

/// The 64-bit FNV-1a hash of a sequence of bytes.
pub open spec fn fnv1a(bytes: Seq<u8>) -> u64
    decreases bytes.len(),
{
    if bytes.len() == 0 {
        0xcbf2_9ce4_8422_2325
    } else {
        (fnv1a(bytes.drop_last()) ^ (bytes.last() as u64)).wrapping_mul(0x0000_0100_0000_01b3)
    }
}

/// The hash of a text: the FNV-1a hash of its UTF-8 bytes.
pub open spec fn text_hash(text: Seq<char>) -> u64 {
    fnv1a(encode_utf8(text))
}

/// Hashes a text. Equal texts have equal hashes, in every run.
pub fn hash_string(text: &str) -> (r: u64)
    ensures
        r == text_hash(text@),
{
    let bytes = text.as_bytes();
    let mut h: u64 = 0xcbf2_9ce4_8422_2325;
    let mut i: usize = 0;
    while i < bytes.len()
        invariant
            i <= bytes.len(),
            h == fnv1a(bytes@.take(i as int)),
        decreases bytes.len() - i,
    {
        proof {
            assert(bytes@.take(i + 1).drop_last() == bytes@.take(i as int));
        }
        h = (h ^ (bytes[i] as u64)).wrapping_mul(0x0000_0100_0000_01b3);
        i += 1;
    }
    proof {
        assert(bytes@.take(bytes.len() as int) == bytes@);
    }
    h
}

/// The hexadecimal digit for a value below sixteen, letters in capitals.
pub open spec fn hex_digit(d: int) -> char {
    if d == 0 {
        '0'
    } else if d == 1 {
        '1'
    } else if d == 2 {
        '2'
    } else if d == 3 {
        '3'
    } else if d == 4 {
        '4'
    } else if d == 5 {
        '5'
    } else if d == 6 {
        '6'
    } else if d == 7 {
        '7'
    } else if d == 8 {
        '8'
    } else if d == 9 {
        '9'
    } else if d == 10 {
        'A'
    } else if d == 11 {
        'B'
    } else if d == 12 {
        'C'
    } else if d == 13 {
        'D'
    } else if d == 14 {
        'E'
    } else {
        'F'
    }
}

/// A number in hexadecimal digits, without leading zeros.
pub open spec fn upper_hex(n: nat) -> Seq<char>
    decreases n,
{
    if n < 16 {
        seq![hex_digit(n as int)]
    } else {
        upper_hex(n / 16).push(hex_digit((n % 16) as int))
    }
}

fn hex_digit_of(d: u64) -> (r: char)
    requires
        d < 16,
    ensures
        r == hex_digit(d as int),
{
    if d == 0 {
        '0'
    } else if d == 1 {
        '1'
    } else if d == 2 {
        '2'
    } else if d == 3 {
        '3'
    } else if d == 4 {
        '4'
    } else if d == 5 {
        '5'
    } else if d == 6 {
        '6'
    } else if d == 7 {
        '7'
    } else if d == 8 {
        '8'
    } else if d == 9 {
        '9'
    } else if d == 10 {
        'A'
    } else if d == 11 {
        'B'
    } else if d == 12 {
        'C'
    } else if d == 13 {
        'D'
    } else if d == 14 {
        'E'
    } else {
        'F'
    }
}

/// Appends a number in hexadecimal digits to a string.
pub fn push_upper_hex(out: &mut String, n: u64)
    ensures
        final(out)@ == old(out)@ + upper_hex(n as nat),
    decreases n,
{
    if n >= 16 {
        push_upper_hex(out, n / 16);
    }
    push_char(out, hex_digit_of(n % 16));
}

/// The identifier under which markup knows a result with the address `url`:
/// the letter `h` and the hash of the address in hexadecimal digits.
pub open spec fn html_id(url: Seq<char>) -> Seq<char> {
    seq!['h'] + upper_hex(text_hash(url) as nat)
}

/// The identifier under which markup knows a result with the address `url`.
pub fn html_id_of(url: &str) -> (r: String)
    ensures
        r@ == html_id(url@),
{
    let mut out = String::new();
    push_char(&mut out, 'h');
    push_upper_hex(&mut out, hash_string(url));
    out
}

impl SearchResult {
    /// The identifier of this result in markup. It begins with a letter, as
    /// identifiers must, and depends on the address alone, so that the same
    /// address reported twice gets the same identifier.
    pub fn get_html_id(&self) -> (r: String)
        ensures
            r@ == html_id(self.url@),
    {
        html_id_of(self.url.as_str())
    }
}

} // verus!
