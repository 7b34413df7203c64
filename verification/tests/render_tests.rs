use metasearch::date::SearchResultDate;
use metasearch::date::Timestamp;
use metasearch::search_result::SearchEngine;
use metasearch::search_result::SearchResult;
use metasearch::static_files::render_beginning_html;
use metasearch::static_files::render_finished_css;
use metasearch::static_files::render_result;
use metasearch::static_files::render_result_engine_visibility;
use metasearch::transport::connection_port;
use metasearch::transport::create_http_header;
use metasearch::transport::event_set;
use metasearch::transport::socket_address;
use metasearch::transport::Closure;
use metasearch::transport::Interest;
use metasearch::transport::ReadOutcome;
use metasearch::transport::PACKET_SIZE;

fn result() -> SearchResult {
    SearchResult {
        title: "A title".to_string(),
        url: "https://www.example.com/path?q=1".to_string(),
        description: "Some words".to_string(),
        engine: SearchEngine::Brave,
        image_url: Some("https://img.example/x.png".to_string()),
        date: Some(SearchResultDate { date: Timestamp { seconds: 1_431_648_000, nanos: 0 }, is_relative: false }),
    }
}

#[test]
fn the_query_is_made_safe_for_an_attribute() {
    let template = r#"<input name="query" value="{% search_value %}">"#;
    assert_eq!(
        render_beginning_html(template, r#"a "b" <c> & 'd'"#),
        r#"<input name="query" value="a &quot;b&quot; &lt;c&gt; &amp; &#x27;d&#x27;">"#
    );
    assert_eq!(render_beginning_html(template, "plain"), r#"<input name="query" value="plain">"#);
    assert_eq!(render_beginning_html("no mark", "x"), "no mark");
}

#[test]
fn the_finished_style_names_engine_and_time() {
    let template = ".__engine__ .time::after { content: \"{% time %}ms\"; } .__engine__ { opacity: 1; }";
    assert_eq!(
        render_finished_css(template, "bing", 1234),
        "<style>.bing .time::after { content: \"1234ms\"; } .bing { opacity: 1; }</style>"
    );
    assert_eq!(render_finished_css("", "bing", 0), "<style></style>");
    assert_eq!(render_finished_css("{% time %}", "x", -5), "<style>-5</style>");
}

#[test]
fn the_visibility_style_names_result_and_engine() {
    assert_eq!(
        render_result_engine_visibility("hAF63DC4C8601EC8C", &SearchEngine::DuckDuckGo),
        "<style>#hAF63DC4C8601EC8C .search-engines .duckduckgo { opacity: 1 !important; }</style>"
    );
    assert_eq!(
        render_result_engine_visibility("h1", &SearchEngine::Brave),
        "<style>#h1 .search-engines .brave { opacity: 1 !important; }</style>"
    );
}

#[test]
fn a_result_fills_its_template() {
    let template = "<a id=\"__ID__\" href=\"{% url %}\">{% title %}</a><cite>{% url_host %}</cite><p>{% description %}</p><img src=\"{% image_url %}\"><time>{% date %}</time>";
    let r = result();
    let id = r.get_html_id();
    assert_eq!(
        render_result(template, &r),
        format!(
            "<a id=\"{}\" href=\"https://www.example.com/path?q=1\">A title</a><cite>www.example.com</cite><p>Some words</p><img src=\"https://img.example/x.png\"><time>15. May 2015</time>",
            id
        )
    );
}

#[test]
fn what_a_result_lacks_leaves_its_place_empty() {
    let template = "[{% url_host %}][{% image_url %}][{% date %}]";
    let mut r = result();
    r.url = "not an address".to_string();
    r.image_url = None;
    r.date = None;
    assert_eq!(render_result(template, &r), "[][][]");
    r.url = "data:text/plain,Stuff".to_string();
    r.date = Some(SearchResultDate { date: Timestamp { seconds: i64::MAX, nanos: 0 }, is_relative: true });
    assert_eq!(render_result(template, &r), "[][][]");
}

#[test]
fn the_request_head_names_method_path_and_host() {
    assert_eq!(
        create_http_header("GET", "/search", "example.com"),
        "GET /search HTTP/1.1\r\nHost: example.com\r\nConnection: close\r\nAccept-Encoding: identity\r\n\r\n"
    );
}

#[test]
fn the_port_is_the_named_one_or_the_one_of_the_scheme() {
    assert_eq!(connection_port(Some(8080), "https"), Some(8080));
    assert_eq!(connection_port(Some(1), "gopher"), Some(1));
    assert_eq!(connection_port(None, "https"), Some(443));
    assert_eq!(connection_port(None, "http"), Some(80));
    assert_eq!(connection_port(None, "ftp"), None);
    assert_eq!(connection_port(None, "HTTP"), None);
    assert_eq!(socket_address("example.com", 443), "example.com:443");
    assert_eq!(socket_address("localhost", 0), "localhost:0");
    assert_eq!(socket_address("h", u16::MAX), "h:65535");
    assert_eq!(PACKET_SIZE, 1400);
}

#[test]
fn the_readiness_follows_what_the_session_wants() {
    assert_eq!(event_set(true, true), Interest::Both);
    assert_eq!(event_set(false, true), Interest::Writable);
    assert_eq!(event_set(true, false), Interest::Readable);
    assert_eq!(event_set(false, false), Interest::Readable);
}

#[test]
fn a_connection_closes_on_errors_and_at_its_end() {
    let mut c = Closure::new();
    assert!(!c.is_closed());
    c.do_read(ReadOutcome::WouldBlock);
    assert_eq!(c, Closure { closing: false, clean_closure: false });
    c.do_read(ReadOutcome::Data { peer_has_closed: false });
    assert_eq!(c, Closure { closing: false, clean_closure: false });
    let mut broken = c;
    broken.do_read(ReadOutcome::Broken);
    assert_eq!(broken, Closure { closing: true, clean_closure: false });
    broken.do_read(ReadOutcome::WouldBlock);
    assert!(broken.is_closed());
    let mut refused = c;
    refused.do_read(ReadOutcome::SessionError);
    assert_eq!(refused, Closure { closing: true, clean_closure: false });
    let mut ended = c;
    ended.do_read(ReadOutcome::EndOfFile);
    assert_eq!(ended, Closure { closing: true, clean_closure: true });
    let mut left = c;
    left.do_read(ReadOutcome::Data { peer_has_closed: true });
    assert_eq!(left, Closure { closing: true, clean_closure: true });
}
