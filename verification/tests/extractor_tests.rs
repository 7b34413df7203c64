use metasearch::adapter::drain;
use metasearch::adapter::Adapter;
use metasearch::adapter::AdapterPhase;
use metasearch::adapter::Signal;
use metasearch::adapter::StreamEvent;
use metasearch::chunking::fetch as fetch_page;
use metasearch::date::SearchResultDate;
use metasearch::date::Timestamp;
use metasearch::engines::config::names_contain;
use metasearch::engines::config::EngineConfig;
use metasearch::engines::engine_base::decode_field;
use metasearch::engines::engine_base::normalize_result;
use metasearch::engines::engine_base::EngineBase;
use metasearch::engines::engine_base::EnginePositions;
use metasearch::engines::engine_base::RawResult;
use metasearch::patterns::ConfigError;
use metasearch::patterns::TextPatterns;
use metasearch::search_result::SearchEngine;
use metasearch::search_result::SearchResult;

const NOW: Timestamp = Timestamp { seconds: 1_700_000_000, nanos: 0 };

const START: &str = "<ul>";

const ITEM: &str = r#"<li><a href="(?P<url>[^"]*)">(?P<title>[^<]*)</a><p>(?P<description>[^<]*)</p></li>"#;

fn page() -> String {
    let mut page = String::new();
    page.push_str("<html><head><li>not yet</li></head><ul>");
    page.push_str(r#"<li><a href="https://one.example/a%20b">First &amp; foremost</a><p>The first one</p></li>"#);
    page.push_str("<li><a href=\"https://two.example/\">Zw\u{f6}ei</a><p>The second one</p></li>");
    page.push_str(r#"<li><a href="https://three.example/">Third</a><p>caf&eacute; au lait</p></li>"#);
    page.push_str("</ul></html>");
    page
}

fn patterns() -> TextPatterns {
    TextPatterns::new().unwrap()
}

fn config() -> EngineConfig {
    EngineConfig::new(SearchEngine::Bing, START, ITEM, None).unwrap()
}

fn summary(results: &[SearchResult]) -> Vec<(String, String, String)> {
    results.iter().map(|r| (r.url.clone(), r.title.clone(), r.description.clone())).collect()
}

fn expected() -> Vec<(String, String, String)> {
    vec![
        ("https://one.example/a b".to_string(), "First & foremost".to_string(), "The first one".to_string()),
        ("https://two.example/".to_string(), "Zw\u{f6}ei".to_string(), "The second one".to_string()),
        ("https://three.example/".to_string(), "Third".to_string(), "caf\u{e9} au lait".to_string()),
    ]
}

fn fetch(chunks: &[&[u8]]) -> (Vec<SearchResult>, EnginePositions) {
    fetch_with(&config(), &patterns(), chunks)
}

fn fetch_with(config: &EngineConfig, patterns: &TextPatterns, chunks: &[&[u8]]) -> (Vec<SearchResult>, EnginePositions) {
    let mut adapter = Adapter::new(EnginePositions::new());
    let mut all = Vec::new();
    for chunk in chunks {
        let out = adapter.step(config, patterns, StreamEvent::Chunk(chunk), NOW);
        assert_eq!(out.signal, None);
        all.extend(out.results);
    }
    let out = adapter.step(config, patterns, StreamEvent::EndOfStream, NOW);
    assert_eq!(out.signal, Some(Signal::Finished));
    all.extend(out.results);
    (all, adapter.engine)
}

#[test]
fn a_new_extractor_seeks_the_start() {
    let e = EnginePositions::new();
    assert_eq!(e.previous_block, "");
    assert!(!e.started);
    assert_eq!(e.pending_bytes(), 0);
}

#[test]
fn config_is_refused_for_a_bad_start_marker() {
    assert_eq!(EngineConfig::new(SearchEngine::Bing, "(", ITEM, None).err(), Some(ConfigError::StartPattern));
}

#[test]
fn config_is_refused_for_a_bad_result_pattern() {
    assert_eq!(EngineConfig::new(SearchEngine::Bing, START, "(?P<url>", None).err(), Some(ConfigError::ResultPattern));
    assert_eq!(EngineConfig::new(SearchEngine::Bing, "(", "(", None).err(), Some(ConfigError::StartPattern));
}

#[test]
fn config_is_refused_for_a_missing_group() {
    let no_url = r#"(?P<title>a)(?P<description>b)"#;
    let no_title = r#"(?P<url>a)(?P<description>b)"#;
    let no_description = r#"(?P<url>a)(?P<title>b)"#;
    assert_eq!(EngineConfig::new(SearchEngine::Bing, START, no_url, None).err(), Some(ConfigError::MissingUrl));
    assert_eq!(EngineConfig::new(SearchEngine::Bing, START, no_title, None).err(), Some(ConfigError::MissingTitle));
    assert_eq!(
        EngineConfig::new(SearchEngine::Bing, START, no_description, None).err(),
        Some(ConfigError::MissingDescription)
    );
    assert_eq!(EngineConfig::new(SearchEngine::Bing, START, "plain", None).err(), Some(ConfigError::MissingUrl));
}

#[test]
fn config_keeps_what_it_was_given() {
    let c = EngineConfig::new(SearchEngine::Brave, START, ITEM, Some("%Y")).unwrap();
    assert_eq!(c.engine, SearchEngine::Brave);
    assert_eq!(c.results_start.as_str(), START);
    assert_eq!(c.single_result.as_str(), ITEM);
    assert_eq!(c.date_format(), Some("%Y"));
    assert_eq!(config().date_format(), None);
}

#[test]
fn names_contain_looks_for_a_name() {
    let names = vec![None, Some("url".to_string()), None, Some("title".to_string())];
    assert!(names_contain(&names, "url"));
    assert!(names_contain(&names, "title"));
    assert!(!names_contain(&names, "description"));
    assert!(!names_contain(&vec![], "url"));
}

#[test]
fn before_the_marker_chunks_are_dropped() {
    let c = config();
    let mut e = EnginePositions::new();
    e.handle_start_check_using_default_method(&c.results_start, b"<html><li>x</li>");
    assert!(!e.started);
    assert_eq!(e.previous_block, "");
    e.handle_start_check_using_default_method(&c.results_start, b"");
    assert!(!e.started);
}

#[test]
fn the_marker_starts_the_results_and_what_follows_it_is_kept() {
    let c = config();
    let mut e = EnginePositions::new();
    e.handle_start_check_using_default_method(&c.results_start, b"<html>\n\n<ul><li>a");
    assert!(e.started);
    assert_eq!(e.previous_block, "<ul><li>a");
    e.handle_start_check_using_default_method(&c.results_start, b"b\n  c<ul>");
    assert!(e.started);
    assert_eq!(e.previous_block, "<ul><li>ab c<ul>");
}

#[test]
fn nothing_is_extracted_before_the_start() {
    let c = config();
    let p = patterns();
    let mut e = EnginePositions {
        previous_block: r#"<li><a href="u">t</a><p>d</p></li>"#.to_string(),
        started: false,
    };
    assert!(e.handle_block_using_default_method(&c.single_result, SearchEngine::Bing, None, &p, NOW).is_none());
    assert_eq!(e.previous_block, r#"<li><a href="u">t</a><p>d</p></li>"#);
    assert!(!e.started);
}

#[test]
fn extraction_takes_the_leftmost_match_and_keeps_the_rest() {
    let c = config();
    let p = patterns();
    let mut e = EnginePositions {
        previous_block: r#"xx<li><a href="u1">t1</a><p>d1</p></li>yy<li><a href="u2">t2</a><p>d2</p></li>zz"#
            .to_string(),
        started: true,
    };
    let first = e.handle_block_using_default_method(&c.single_result, SearchEngine::Brave, None, &p, NOW).unwrap();
    assert_eq!(first.url, "u1");
    assert_eq!(first.title, "t1");
    assert_eq!(first.description, "d1");
    assert_eq!(first.engine, SearchEngine::Brave);
    assert_eq!(first.image_url, None);
    assert_eq!(first.date, None);
    assert_eq!(e.previous_block, r#"yy<li><a href="u2">t2</a><p>d2</p></li>zz"#);
    let second = e.handle_block_using_default_method(&c.single_result, SearchEngine::Brave, None, &p, NOW).unwrap();
    assert_eq!(second.url, "u2");
    assert_eq!(e.previous_block, "zz");
    assert!(e.started);
}

#[test]
fn an_attempt_without_a_match_changes_nothing() {
    let c = config();
    let p = patterns();
    let mut e = EnginePositions { previous_block: r#"<li><a href="u1">t1</a><p>d"#.to_string(), started: true };
    for _ in 0..5 {
        assert!(e.handle_block_using_default_method(&c.single_result, SearchEngine::Bing, None, &p, NOW).is_none());
        assert_eq!(e.previous_block, r#"<li><a href="u1">t1</a><p>d"#);
        assert!(e.started);
    }
}

#[test]
fn the_buffer_after_a_match_is_the_suffix_in_bytes() {
    let c = config();
    let p = patterns();
    let text = "\u{e9}\u{e9}<li><a href=\"\u{fc}\">t</a><p>d</p></li>\u{e4}rest";
    let mut e = EnginePositions { previous_block: text.to_string(), started: true };
    let end = c.single_result.find(text).unwrap().end();
    let r = e.handle_block_using_default_method(&c.single_result, SearchEngine::Bing, None, &p, NOW).unwrap();
    assert_eq!(r.url, "\u{fc}");
    assert_eq!(e.previous_block.as_bytes(), &text.as_bytes()[end..]);
    assert_eq!(e.previous_block, "\u{e4}rest");
}

#[test]
fn slice_remaining_block_drops_the_first_bytes() {
    let mut e = EnginePositions { previous_block: "a\u{e9}bc".to_string(), started: true };
    e.slice_remaining_block(&0);
    assert_eq!(e.previous_block, "a\u{e9}bc");
    e.slice_remaining_block(&3);
    assert_eq!(e.previous_block, "bc");
    assert!(e.started);
    e.slice_remaining_block(&2);
    assert_eq!(e.previous_block, "");
}

#[test]
fn fields_are_decoded_and_the_description_is_stripped() {
    let p = patterns();
    let raw = RawResult {
        url: Some("https://example.com/a%20b?x=1&amp;y=2".to_string()),
        title: Some("Tom &amp; <b>Jerry</b>".to_string()),
        description: Some("One <b>bold</b> &lt;word&gt; and <a href=\"x>y\">a link</a>".to_string()),
        image: Some("https://img.example/a%20b.png".to_string()),
        date: Some("3 days ago".to_string()),
    };
    let r = normalize_result(&p, SearchEngine::DuckDuckGo, None, raw, NOW);
    assert_eq!(r.url, "https://example.com/a b?x=1&y=2");
    assert_eq!(r.title, "Tom & <b>Jerry</b>");
    assert_eq!(r.description, "One bold  and a link");
    assert_eq!(r.image_url, Some("https://img.example/a%20b.png".to_string()));
    assert_eq!(r.date, None);
    assert_eq!(r.engine, SearchEngine::DuckDuckGo);
}

#[test]
fn an_absent_field_and_one_that_cannot_be_decoded_are_empty() {
    let p = patterns();
    let raw = RawResult { url: Some("%FF".to_string()), title: None, description: None, image: None, date: None };
    let r = normalize_result(&p, SearchEngine::Bing, Some("%Y"), raw, NOW);
    assert_eq!(r.url, "");
    assert_eq!(r.title, "");
    assert_eq!(r.description, "");
    assert_eq!(r.image_url, None);
    assert_eq!(r.date, None);
    assert_eq!(decode_field(&p, &None), "");
    assert_eq!(decode_field(&p, &Some("%C3".to_string())), "");
    assert_eq!(decode_field(&p, &Some("%C3%A9&amp;".to_string())), "\u{e9}&");
}

#[test]
fn the_date_is_read_where_the_engine_has_a_format() {
    let p = patterns();
    let raw = |date: &str| RawResult {
        url: None,
        title: None,
        description: None,
        image: None,
        date: Some(date.to_string()),
    };
    let relative = normalize_result(&p, SearchEngine::Brave, Some("%m %d, %Y"), raw("2 hours ago"), NOW);
    assert_eq!(
        relative.date,
        Some(SearchResultDate { date: Timestamp { seconds: 1_700_000_000 - 7_200, nanos: 0 }, is_relative: true })
    );
    let absolute = normalize_result(
        &p,
        SearchEngine::Brave,
        Some("%Y-%m-%d %H:%M:%S %z"),
        raw("2015-05-15 00:00:00 +0000"),
        NOW,
    );
    assert_eq!(
        absolute.date,
        Some(SearchResultDate { date: Timestamp { seconds: 1_431_648_000, nanos: 0 }, is_relative: false })
    );
    let neither = normalize_result(&p, SearchEngine::Brave, Some("%m %d, %Y"), raw("once"), NOW);
    assert_eq!(neither.date, None);
}

#[test]
fn parse_packet_feeds_and_extracts() {
    let c = config();
    let p = patterns();
    let mut e = EnginePositions::new();
    assert!(e.parse_packet(&c, &p, b"<html>", NOW).is_none());
    let r = e.parse_packet(&c, &p, br#"<ul><li><a href="u">t</a><p>d</p></li><li>"#, NOW).unwrap();
    assert_eq!(r.url, "u");
    assert_eq!(e.previous_block, "<li>");
    assert_eq!(e.pending_bytes(), 4);
    assert!(e.parse_next(&c, &p, NOW).is_none());
}

#[test]
fn drain_extracts_all_that_is_there() {
    let c = config();
    let p = patterns();
    let mut e = EnginePositions::new();
    e.push_packet(&c, page().as_bytes());
    let results = drain(&mut e, &c, &p, NOW);
    assert_eq!(summary(&results), expected());
    assert_eq!(e.previous_block, "</ul></html>");
    assert!(drain(&mut e, &c, &p, NOW).is_empty());
    assert_eq!(e.previous_block, "</ul></html>");
}

#[test]
fn drain_stops_after_a_match_that_uses_up_nothing() {
    let c = EngineConfig::new(SearchEngine::Bing, "", "^(?P<url>)(?P<title>)(?P<description>)", None).unwrap();
    let p = patterns();
    let mut e = EnginePositions::new();
    e.push_packet(&c, b"abc");
    assert!(e.started);
    let results = drain(&mut e, &c, &p, NOW);
    assert_eq!(results.len(), 1);
    assert_eq!(e.previous_block, "abc");
}

#[test]
fn the_whole_page_as_one_chunk() {
    let page = page();
    let (results, end) = fetch(&[page.as_bytes()]);
    assert_eq!(summary(&results), expected());
    assert_eq!(end.previous_block, "</ul></html>");
    assert!(results.iter().all(|r| r.engine == SearchEngine::Bing));
}

#[test]
fn chunking_does_not_change_the_results() {
    let page = page();
    let bytes = page.as_bytes();
    let marker = page.find(START).unwrap();
    let harmless = |at: usize| page.is_char_boundary(at) && (at <= marker || at >= marker + START.len());
    let c = config();
    let p = patterns();
    let (whole, whole_end) = fetch_with(&c, &p, &[bytes]);
    assert_eq!(summary(&whole), expected());
    let mut tried = 0;
    for first in (0..=bytes.len()).filter(|at| harmless(*at)) {
        for second in (first..=bytes.len()).step_by(41).filter(|at| harmless(*at)) {
            let chunks: [&[u8]; 3] = [&bytes[..first], &bytes[first..second], &bytes[second..]];
            let (results, end) = fetch_with(&c, &p, &chunks);
            assert_eq!(summary(&results), summary(&whole), "split at {} and {}", first, second);
            assert_eq!(end, whole_end);
            tried += 1;
        }
    }
    assert!(tried > 300);
}

#[test]
fn chunks_of_one_byte_behind_the_marker() {
    let page = page();
    let bytes = page.as_bytes();
    let behind = page.find(START).unwrap() + START.len();
    let mut chunks: Vec<&[u8]> = vec![&bytes[..behind]];
    let mut at = behind;
    while at < bytes.len() {
        let mut next = at + 1;
        while !page.is_char_boundary(next) {
            next += 1;
        }
        chunks.push(&bytes[at..next]);
        at = next;
    }
    assert!(chunks.len() > 200);
    let (results, end) = fetch(&chunks);
    assert_eq!(summary(&results), expected());
    assert_eq!(end.previous_block, "</ul></html>");
}

#[test]
fn results_come_as_soon_as_they_are_complete() {
    let c = config();
    let p = patterns();
    let mut adapter = Adapter::new(EnginePositions::new());
    let page = page();
    let cut = page.find("https://two.example/").unwrap();
    let early = adapter.step(&c, &p, StreamEvent::Chunk(&page.as_bytes()[..cut]), NOW);
    assert_eq!(summary(&early.results), expected()[..1].to_vec());
    let late = adapter.step(&c, &p, StreamEvent::Chunk(&page.as_bytes()[cut..]), NOW);
    assert_eq!(summary(&late.results), expected()[1..].to_vec());
}

#[test]
fn a_marker_cut_in_two_is_not_seen() {
    let page = page();
    let bytes = page.as_bytes();
    let inside = page.find(START).unwrap() + 2;
    let (results, end) = fetch(&[&bytes[..inside], &bytes[inside..]]);
    assert!(results.is_empty());
    assert!(!end.started);
}

#[test]
fn white_space_cut_in_two_stays_two_spaces() {
    let c = config();
    let mut joined = EnginePositions::new();
    joined.push_packet(&c, b"<ul>a \n b");
    assert_eq!(joined.previous_block, "<ul>a b");
    let mut cut = EnginePositions::new();
    cut.push_packet(&c, b"<ul>a ");
    cut.push_packet(&c, b"\n b");
    assert_eq!(cut.previous_block, "<ul>a  b");
}

#[test]
fn the_adapter_signals_the_end_once() {
    let c = config();
    let p = patterns();
    let mut adapter = Adapter::new(EnginePositions::new());
    assert_eq!(adapter.phase, AdapterPhase::Streaming);
    let out = adapter.step(&c, &p, StreamEvent::EndOfStream, NOW);
    assert_eq!(out.signal, Some(Signal::Finished));
    assert_eq!(adapter.phase, AdapterPhase::Finished);
    for event in [StreamEvent::EndOfStream, StreamEvent::TransportError, StreamEvent::ConsumerGone] {
        let out = adapter.step(&c, &p, event, NOW);
        assert_eq!(out.signal, None);
        assert!(out.results.is_empty());
        assert_eq!(adapter.phase, AdapterPhase::Finished);
    }
}

#[test]
fn a_transport_error_fails_the_fetch_and_yields_nothing() {
    let c = config();
    let p = patterns();
    let mut adapter = Adapter::new(EnginePositions::new());
    let page = page();
    let cut = page.find("https://two.example/").unwrap();
    let out = adapter.step(&c, &p, StreamEvent::Chunk(&page.as_bytes()[..cut]), NOW);
    assert_eq!(out.results.len(), 1);
    let out = adapter.step(&c, &p, StreamEvent::TransportError, NOW);
    assert_eq!(out.signal, Some(Signal::Failed));
    assert!(out.results.is_empty());
    assert_eq!(adapter.phase, AdapterPhase::Failed);
    let out = adapter.step(&c, &p, StreamEvent::Chunk(&page.as_bytes()[cut..]), NOW);
    assert_eq!(out.signal, None);
    assert!(out.results.is_empty());
    assert_eq!(adapter.phase, AdapterPhase::Failed);
}

#[test]
fn a_consumer_that_is_gone_ends_the_fetch_early() {
    let c = config();
    let p = patterns();
    let mut adapter = Adapter::new(EnginePositions::new());
    let page = page();
    let out = adapter.step(&c, &p, StreamEvent::ConsumerGone, NOW);
    assert_eq!(out.signal, Some(Signal::Finished));
    assert!(out.results.is_empty());
    assert_eq!(adapter.phase, AdapterPhase::Finished);
    let out = adapter.step(&c, &p, StreamEvent::Chunk(page.as_bytes()), NOW);
    assert!(out.results.is_empty());
    assert_eq!(adapter.engine.previous_block, "");
}

#[test]
fn a_failure_of_one_fetch_leaves_another_as_it_would_be_alone() {
    let c = config();
    let p = patterns();
    let page = page();
    let cut = page.find("https://three.example/").unwrap();
    let (alone, alone_end) = fetch_with(&c, &p, &[&page.as_bytes()[..cut], &page.as_bytes()[cut..]]);
    let mut failing = Adapter::new(EnginePositions::new());
    let mut other = Adapter::new(EnginePositions::new());
    let mut found = Vec::new();
    failing.step(&c, &p, StreamEvent::Chunk(&page.as_bytes()[..cut]), NOW);
    found.extend(other.step(&c, &p, StreamEvent::Chunk(&page.as_bytes()[..cut]), NOW).results);
    assert_eq!(failing.step(&c, &p, StreamEvent::TransportError, NOW).signal, Some(Signal::Failed));
    found.extend(other.step(&c, &p, StreamEvent::Chunk(&page.as_bytes()[cut..]), NOW).results);
    let last = other.step(&c, &p, StreamEvent::EndOfStream, NOW);
    assert_eq!(last.signal, Some(Signal::Finished));
    found.extend(last.results);
    assert_eq!(summary(&found), summary(&alone));
    assert_eq!(other.engine, alone_end);
    assert_eq!(other.phase, AdapterPhase::Finished);
    assert_eq!(failing.phase, AdapterPhase::Failed);
}

#[test]
fn a_page_without_chunks_gives_nothing() {
    let (results, end) = fetch(&[]);
    assert!(results.is_empty());
    assert_eq!(end, EnginePositions::new());
    let (results, end) = fetch(&[b""]);
    assert!(results.is_empty());
    assert_eq!(end, EnginePositions::new());
}

#[test]
fn a_page_at_hand_is_fetched_in_one_call() {
    let c = config();
    let p = patterns();
    let page = page();
    let mut whole = EnginePositions::new();
    let all = fetch_page(&mut whole, &c, &p, &vec![page.as_bytes().to_vec()], NOW);
    assert_eq!(summary(&all), expected());
    assert_eq!(whole.previous_block, "</ul></html>");
    for size in [1usize, 2, 3, 5, 8, 13, 64, 1400] {
        let behind = page.find(START).unwrap() + START.len();
        let mut chunks = vec![page.as_bytes()[..behind].to_vec()];
        let mut at = behind;
        while at < page.len() {
            let mut next = (at + size).min(page.len());
            while !page.is_char_boundary(next) {
                next += 1;
            }
            chunks.push(page.as_bytes()[at..next].to_vec());
            at = next;
        }
        let mut engine = EnginePositions::new();
        let found = fetch_page(&mut engine, &c, &p, &chunks, NOW);
        assert_eq!(summary(&found), expected(), "chunks of {} bytes", size);
        assert_eq!(engine, whole);
    }
    let mut idle = EnginePositions::new();
    assert!(fetch_page(&mut idle, &c, &p, &vec![], NOW).is_empty());
    assert_eq!(idle, EnginePositions::new());
}
