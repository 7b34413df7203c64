use metasearch::adapter::drain;
use metasearch::date::SearchResultDate;
use metasearch::date::Timestamp;
use metasearch::engines::bing::Bing;
use metasearch::engines::brave::Brave;
use metasearch::engines::duckduckgo::DuckDuckGo;
use metasearch::engines::engine_base::EngineBase;
use metasearch::engines::request::form_request;
use metasearch::engines::request::get_request;
use metasearch::engines::request::HttpMethod;
use metasearch::patterns::TextPatterns;
use metasearch::search_result::SearchEngine;

const NOW: Timestamp = Timestamp { seconds: 1_700_000_000, nanos: 5 };

#[test]
fn the_engines_build_their_configurations() {
    let bing = Bing::config().unwrap();
    assert_eq!(bing.engine, SearchEngine::Bing);
    assert_eq!(bing.date_format(), None);
    assert_eq!(bing.results_start.as_str(), metasearch::engines::bing::RESULTS_START);
    assert_eq!(bing.single_result.as_str(), metasearch::engines::bing::SINGLE_RESULT);
    let brave = Brave::config().unwrap();
    assert_eq!(brave.engine, SearchEngine::Brave);
    assert_eq!(brave.date_format(), Some("%m %d, %Y"));
    assert_eq!(brave.results_start.as_str(), "<body");
    let ddg = DuckDuckGo::config().unwrap();
    assert_eq!(ddg.engine, SearchEngine::DuckDuckGo);
    assert_eq!(ddg.date_format(), None);
    assert!(ddg.results_start.is_match(r#"<div id="links" class="results">"#));
}

#[test]
fn the_engines_ask_as_their_sites_expect() {
    let bing = Bing::request("rust verus");
    assert_eq!(bing.method, HttpMethod::Get);
    assert_eq!(bing.url, "https://www.bing.com/search?q=rust verus");
    assert_eq!(bing.form_query, None);
    let brave = Brave::request("a&b");
    assert_eq!(brave.method, HttpMethod::Get);
    assert_eq!(brave.url, "https://search.brave.com/search?q=a&b");
    assert_eq!(brave.form_query, None);
    let ddg = DuckDuckGo::request("rust verus");
    assert_eq!(ddg.method, HttpMethod::Post);
    assert_eq!(ddg.url, "https://html.duckduckgo.com/html");
    assert_eq!(ddg.form_query, Some("rust verus".to_string()));
}

#[test]
fn requests_are_made_from_their_parts() {
    let get = get_request("https://example.com/?q=", "");
    assert_eq!(get.url, "https://example.com/?q=");
    assert_eq!(get.method, HttpMethod::Get);
    let form = form_request("https://example.com/", "x y");
    assert_eq!(form.url, "https://example.com/");
    assert_eq!(form.form_query, Some("x y".to_string()));
}

#[test]
fn duckduckgo_results_are_extracted() {
    let config = DuckDuckGo::config().unwrap();
    let patterns = TextPatterns::new().unwrap();
    let mut engine = DuckDuckGo::new();
    assert_eq!(engine.pending_bytes(), 0);
    engine.push_packet(&config, b"<html><head><title>x</title></head>");
    assert!(engine.parse_next(&config, &patterns, NOW).is_none());
    assert_eq!(engine.pending_bytes(), 0);
    engine.push_packet(&config, b"<body>\n<div id=\"links\" class=\"results\">\n");
    engine.push_packet(
        &config,
        b"<div class=\"result results_links results_links_deep web-result \">\n  <div class=\"links_main\">\n",
    );
    engine.push_packet(
        &config,
        b"    <h2><a rel=\"nofollow\" class=\"result__a\" href=\"https://www.rust-lang.org/learn%3Fx\">Learn &amp; build</a></h2>\n",
    );
    assert!(engine.parse_next(&config, &patterns, NOW).is_none());
    engine.push_packet(
        &config,
        b"    <a class=\"result__snippet\" href=\"https://www.rust-lang.org/\">A <b>language</b> empowering&nbsp;everyone</a>\n",
    );
    engine.push_packet(&config, b"    <div class=\"clear\"></div>\n  </div>\n</div>\n<div class=\"result");
    let found = drain(&mut engine, &config, &patterns, NOW);
    assert_eq!(found.len(), 1);
    assert_eq!(found[0].url, "https://www.rust-lang.org/learn?x");
    assert_eq!(found[0].title, "Learn & build");
    assert_eq!(found[0].description, "A language empowering\u{a0}everyone");
    assert_eq!(found[0].engine, SearchEngine::DuckDuckGo);
    assert_eq!(found[0].image_url, None);
    assert_eq!(found[0].date, None);
    assert_eq!(engine.pending_bytes(), " <div class=\"result".len());
    assert!(engine.parse_next(&config, &patterns, NOW).is_none());
}

#[test]
fn bing_results_are_extracted() {
    let config = Bing::config().unwrap();
    let patterns = TextPatterns::new().unwrap();
    let mut engine = Bing::new();
    let page = "<html><body><ol id=\"b_results\"><li class=\"b_algo\"><h2><a href=\"https://example.org/x\" h=\"ID=1\">Example &amp; Co</a></h2><div class=\"b_caption\"><p class=\"b_lineclamp2\"><span class=\"news_dt\">Today</span>A <strong>fine</strong> page</p></div></li><li class=\"b_algo\"><h2><a href=\"https://example.net/\">Second</a></h2><p class=\"b_lineclamp3\"><span>1</span>Another page</p></li></ol>";
    let first = engine.parse_packet(&config, &patterns, page.as_bytes(), NOW).unwrap();
    assert_eq!(first.url, "https://example.org/x");
    assert_eq!(first.title, "Example & Co");
    assert_eq!(first.description, "A fine page");
    assert_eq!(first.engine, SearchEngine::Bing);
    assert_eq!(first.date, None);
    let second = engine.parse_next(&config, &patterns, NOW).unwrap();
    assert_eq!(second.url, "https://example.net/");
    assert_eq!(second.title, "Second");
    assert_eq!(second.description, "Another page");
    assert!(engine.parse_next(&config, &patterns, NOW).is_none());
    assert_eq!(engine.pending_bytes(), "</ol>".len());
}

#[test]
fn brave_results_are_extracted_with_image_and_date() {
    let config = Brave::config().unwrap();
    let patterns = TextPatterns::new().unwrap();
    let mut engine = Brave::new();
    let page = "<html><body class=\"x\"><div class=\"snippet svelte-abc\" data-pos=\"1\"><a href=\"https://brave.example/p\" target=\"_self\"> <img class=\"favicon\" src=\"https://img.example/i.png\"> <div class=\"title svelte-xyz\">Brave Title</div></div> <div class=\"snippet-description svelte-q\">3 days ago - The <i>description</i></div> </div> </div>";
    let found = engine.parse_packet(&config, &patterns, page.as_bytes(), NOW).unwrap();
    assert_eq!(found.url, "https://brave.example/p");
    assert_eq!(found.image_url, Some("https://img.example/i.png".to_string()));
    assert_eq!(found.title, "Brave Title");
    assert_eq!(found.description, "The description");
    assert_eq!(found.engine, SearchEngine::Brave);
    assert_eq!(
        found.date,
        Some(SearchResultDate { date: Timestamp { seconds: 1_700_000_000 - 259_200, nanos: 5 }, is_relative: true })
    );
    assert!(engine.parse_next(&config, &patterns, NOW).is_none());
}

#[test]
fn an_engine_takes_the_engine_of_its_configuration() {
    let config = DuckDuckGo::config().unwrap();
    let patterns = TextPatterns::new().unwrap();
    let mut engine = Bing::new();
    let page = "<div id=\"links\"><div class=\"result results_links\"><a href=\"u\">t</a><a class=\"result__snippet\">d</a><div class=\"clear\"></div> </div> </div>";
    let found = engine.parse_packet(&config, &patterns, page.as_bytes(), NOW).unwrap();
    assert_eq!(found.engine, SearchEngine::DuckDuckGo);
    assert_eq!(found.url, "u");
    assert_eq!(found.title, "t");
    assert_eq!(found.description, "d");
}
