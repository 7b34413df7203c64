use crate::adapter::drain;
use crate::adapter::drained;
use crate::adapter::extracted_with;
use crate::adapter::result_views;
use crate::date::Timestamp;
use crate::engines::config::EngineConfig;
use crate::engines::engine_base::captured_fields;
use crate::engines::engine_base::extracted;
use crate::engines::engine_base::fed;
use crate::engines::engine_base::EngineBase;
use crate::engines::engine_base::ExtractorState;
use crate::matcher::captures_span;
use crate::matcher::regex_captures;
use crate::matcher::regex_find;
use crate::matcher::span_within;
use crate::patterns::TextPatterns;
use crate::search_result::SearchEngine;
use crate::search_result::SearchResult;
use crate::search_result::SearchResultView;
use crate::text::byte_len;
use crate::text::byte_suffix;
use crate::text::is_whitespace;
use crate::text::lemma_collapse_joined;
use crate::text::lemma_decode_joined;
use crate::text::lemma_suffix_in_second;
use crate::text::lemma_suffix_of_joined;
use crate::text::normalized;
use crate::text::utf8_lossy;
use regex::Regex;
use vstd::prelude::*;
use vstd::utf8::*;

verus! {

/// The chunks of a page, joined in order.
pub open spec fn joined(chunks: Seq<Seq<u8>>) -> Seq<u8>
    decreases chunks.len(),
{
    if chunks.len() == 0 {
        Seq::empty()
    } else {
        joined(chunks.drop_last()) + chunks.last()
    }
}

/// The state of an extractor to which nothing was fed.
pub open spec fn start_state() -> ExtractorState {
    ExtractorState { buffer: Seq::empty(), started: false }
}

/// What feeding the chunks in order gives, the buffer being drained after
/// each: the results in the order of their extraction, and the state that
/// remains.
pub open spec fn streamed(
    state: ExtractorState,
    config: EngineConfig,
    patterns: TextPatterns,
    chunks: Seq<Seq<u8>>,
    now: Timestamp,
) -> (Seq<SearchResultView>, ExtractorState)
    decreases chunks.len(),
{
    if chunks.len() == 0 {
        (Seq::empty(), state)
    } else {
        let (out, mid) = streamed(state, config, patterns, chunks.drop_last(), now);
        let (more, end) = drained(fed(mid, config.results_start, chunks.last()), config, patterns, now);
        (out + more, end)
    }
}

/// What a whole fetch gives: the chunks are streamed and at the end of the
/// page the buffer is drained once more.
pub open spec fn fetched(
    state: ExtractorState,
    config: EngineConfig,
    patterns: TextPatterns,
    chunks: Seq<Seq<u8>>,
    now: Timestamp,
) -> (Seq<SearchResultView>, ExtractorState) {
    let (out, mid) = streamed(state, config, patterns, chunks, now);
    let (more, end) = drained(mid, config, patterns, now);
    (out + more, end)
}

/// The bytes of each chunk of a list.
pub open spec fn chunk_views(chunks: Seq<Vec<u8>>) -> Seq<Seq<u8>> {
    chunks.map_values(|c: Vec<u8>| c@)
}

/// Runs a whole fetch over a page that is at hand in chunks: each chunk is
/// fed and the buffer drained, and the buffer is drained once more at the end.
pub fn fetch<E: EngineBase>(
    engine: &mut E,
    config: &EngineConfig,
    patterns: &TextPatterns,
    chunks: &Vec<Vec<u8>>,
    now: Timestamp,
) -> (r: Vec<SearchResult>)
    ensures
        (result_views(r@), final(engine).state()) == fetched(
            old(engine).state(),
            *config,
            *patterns,
            chunk_views(chunks@),
            now,
        ),
{
    let mut out: Vec<SearchResult> = Vec::new();
    let ghost start = engine.state();
    let ghost all = chunk_views(chunks@);
    let mut i: usize = 0;
    proof {
        assert(result_views(out@) =~= Seq::<SearchResultView>::empty());
    }
    while i < chunks.len()
        invariant
            i <= chunks.len(),
            all == chunk_views(chunks@),
            (result_views(out@), engine.state()) == streamed(
                start,
                *config,
                *patterns,
                all.take(i as int),
                now,
            ),
        decreases chunks.len() - i,
    {
        proof {
            assert(all.take(i + 1).drop_last() == all.take(i as int));
            assert(all.take(i + 1).last() == chunks@[i as int]@);
        }
        engine.push_packet(config, chunks[i].as_slice());
        let mut more = drain(engine, config, patterns, now);
        let ghost earlier = out@;
        let ghost found = more@;
        out.append(&mut more);
        proof {
            assert(result_views(out@) =~= result_views(earlier) + result_views(found));
        }
        i += 1;
    }
    proof {
        assert(all.take(chunks.len() as int) == all);
    }
    let mut more = drain(engine, config, patterns, now);
    let ghost earlier = out@;
    let ghost found = more@;
    out.append(&mut more);
    proof {
        assert(result_views(out@) =~= result_views(earlier) + result_views(found));
    }
    out
}

/// Whether a match of `single` in `buffer` stays what it is when `more` is
/// appended: it lies in the buffer and uses up some of it, and in the longer
/// text the leftmost match has the same place and the same fields.
pub open spec fn persists(single: Regex, buffer: Seq<char>, more: Seq<char>) -> bool {
    regex_captures(single, buffer) matches Some(caps) ==> {
        &&& span_within(captures_span(caps), buffer)
        &&& captures_span(caps).1 > 0
        &&& regex_captures(single, buffer + more) matches Some(longer)
        &&& captures_span(longer) == captures_span(caps)
        &&& captured_fields(longer) == captured_fields(caps)
    }
}

/// Whether the pattern of one result is stable: no match is changed by text
/// that arrives after it.
pub open spec fn stable_rule(single: Regex) -> bool {
    forall|buffer: Seq<char>, more: Seq<char>| #[trigger] persists(single, buffer, more)
}

/// Whether the boundary between `before` and `chunk` is harmless to feeding:
/// a fresh extractor fed the two in turn holds what it holds when fed the two
/// joined. It is so where the start marker does not straddle the boundary,
/// no character is cut in two and white space does not meet white space.
pub open spec fn joins_cleanly(results_start: Regex, before: Seq<u8>, chunk: Seq<u8>) -> bool {
    fed(fed(start_state(), results_start, before), results_start, chunk) == fed(
        start_state(),
        results_start,
        before + chunk,
    )
}

/// Whether bytes are read as the text that they encode.
pub open spec fn read_as_encoded(bytes: Seq<u8>) -> bool {
    valid_utf8(bytes) && utf8_lossy(bytes) == decode_utf8(bytes)
}

/// Whether the start marker is found in two joined texts where it is found
/// in them taken in turn: at its place in the first, or else behind the first
/// at its place in the second, or else not at all.
pub open spec fn marker_found_alike(results_start: Regex, first: Seq<char>, second: Seq<char>) -> bool {
    match regex_find(results_start, first) {
        Some(span) => {
            &&& span.0 <= byte_len(first)
            &&& is_char_boundary(encode_utf8(first), span.0 as int)
            &&& regex_find(results_start, first + second) matches Some(both)
            &&& both.0 == span.0
        },
        None => match regex_find(results_start, second) {
            Some(span) => {
                &&& span.0 <= byte_len(second)
                &&& regex_find(results_start, first + second) matches Some(both)
                &&& both.0 == byte_len(first) + span.0
            },
            None => regex_find(results_start, first + second) is None,
        },
    }
}

/// Two pieces of a page that are UTF-8 each, and read as such, have the text
/// of their join for their joined texts, unless white space ends the first
/// and begins the second.
pub proof fn lemma_normalized_joined(before: Seq<u8>, chunk: Seq<u8>)
    requires
        read_as_encoded(before),
        read_as_encoded(chunk),
        read_as_encoded(before + chunk),
        before.len() == 0 || chunk.len() == 0 || !is_whitespace(decode_utf8(before).last())
            || !is_whitespace(decode_utf8(chunk).first()),
    ensures
        normalized(before + chunk) == normalized(before) + normalized(chunk),
{
    lemma_decode_joined(before, chunk);
    let a = decode_utf8(before);
    let b = decode_utf8(chunk);
    if before.len() == 0 {
        assert(a.len() == 0);
    }
    if chunk.len() == 0 {
        assert(b.len() == 0);
    }
    lemma_collapse_joined(a, b);
}

/// A boundary is harmless to feeding where the texts of the two sides join
/// to the text of the whole and the start marker is found alike.
pub proof fn lemma_joins_cleanly(results_start: Regex, before: Seq<u8>, chunk: Seq<u8>)
    requires
        normalized(before + chunk) == normalized(before) + normalized(chunk),
        marker_found_alike(results_start, normalized(before), normalized(chunk)),
    ensures
        joins_cleanly(results_start, before, chunk),
{
    let first = normalized(before);
    let second = normalized(chunk);
    let empty = Seq::<char>::empty();
    match regex_find(results_start, first) {
        Some(span) => {
            lemma_suffix_of_joined(first, second, span.0 as int);
            assert(empty + byte_suffix(first, span.0 as int) + second == empty + (byte_suffix(
                first,
                span.0 as int,
            ) + second));
        },
        None => match regex_find(results_start, second) {
            Some(span) => {
                lemma_suffix_in_second(first, second, span.0 as int);
            },
            None => {},
        },
    }
}

/// What is left of a text from a byte offset on is shorter by that offset.
pub proof fn lemma_suffix_len(text: Seq<char>, start: int)
    requires
        0 <= start <= byte_len(text),
        is_char_boundary(encode_utf8(text), start),
    ensures
        byte_len(byte_suffix(text, start)) == byte_len(text) - start,
{
    broadcast use encode_utf8_valid_utf8;

    let bytes = encode_utf8(text);
    valid_utf8_split(bytes, start);
    decode_utf8_encode_utf8(bytes.subrange(start, bytes.len() as int));
}

/// Under a stable pattern, draining before a chunk is fed and again after it
/// gives what draining once after it gives.
pub proof fn lemma_drain_after_feed(
    state: ExtractorState,
    config: EngineConfig,
    patterns: TextPatterns,
    chunk: Seq<u8>,
    now: Timestamp,
)
    requires
        stable_rule(config.single_result),
    ensures
        drained(fed(state, config.results_start, chunk), config, patterns, now) == ({
            let (out, mid) = drained(state, config, patterns, now);
            let (more, end) = drained(fed(mid, config.results_start, chunk), config, patterns, now);
            (out + more, end)
        }),
    decreases byte_len(state.buffer),
{
    let start = config.results_start;
    let single = config.single_result;
    let (first, next) = extracted_with(state, config, patterns, now);
    let after = fed(state, start, chunk);
    let later = drained(after, config, patterns, now);
    match first {
        None => {
            assert(drained(state, config, patterns, now) == (Seq::<SearchResultView>::empty(), state));
            assert(Seq::<SearchResultView>::empty() + later.0 == later.0);
        },
        Some(x) => {
            let text = crate::text::normalized(chunk);
            let caps = regex_captures(single, state.buffer)->Some_0;
            let end = captures_span(caps).1 as int;
            assert(persists(single, state.buffer, text));
            assert(after.buffer == state.buffer + text);
            lemma_suffix_of_joined(state.buffer, text, end);
            lemma_suffix_len(state.buffer, end);
            let longer = regex_captures(single, state.buffer + text)->Some_0;
            let (again, beyond) = extracted_with(after, config, patterns, now);
            assert(again == Some(x));
            assert(beyond == fed(next, start, chunk));
            assert(persists(single, after.buffer, Seq::<char>::empty()));
            lemma_suffix_len(after.buffer, end);
            lemma_drain_after_feed(next, config, patterns, chunk, now);
            let (rest, mid) = drained(next, config, patterns, now);
            let (more, last) = drained(fed(mid, start, chunk), config, patterns, now);
            assert(drained(state, config, patterns, now) == (seq![x] + rest, mid));
            assert(later == (seq![x] + drained(beyond, config, patterns, now).0, last));
            assert(seq![x] + (rest + more) == (seq![x] + rest) + more);
        },
    }
}

/// Under a stable pattern and with harmless boundaries, streaming the chunks
/// gives what feeding them joined and draining once gives.
pub proof fn lemma_streamed_as_one(
    config: EngineConfig,
    patterns: TextPatterns,
    chunks: Seq<Seq<u8>>,
    now: Timestamp,
)
    requires
        chunks.len() > 0,
        stable_rule(config.single_result),
        forall|i: int|
            1 <= i < chunks.len() ==> #[trigger] joins_cleanly(
                config.results_start,
                joined(chunks.take(i)),
                chunks[i],
            ),
    ensures
        streamed(start_state(), config, patterns, chunks, now) == drained(
            fed(start_state(), config.results_start, joined(chunks)),
            config,
            patterns,
            now,
        ),
    decreases chunks.len(),
{
    let start = config.results_start;
    let before = chunks.drop_last();
    let whole = drained(fed(start_state(), start, joined(chunks)), config, patterns, now);
    if chunks.len() == 1 {
        assert(joined(before) + chunks.last() == chunks.last());
        assert(streamed(start_state(), config, patterns, before, now) == (
            Seq::<SearchResultView>::empty(),
            start_state(),
        ));
        assert(Seq::<SearchResultView>::empty() + whole.0 == whole.0);
    } else {
        assert forall|i: int| 1 <= i < before.len() implies #[trigger] joins_cleanly(
            start,
            joined(before.take(i)),
            before[i],
        ) by {
            assert(before.take(i) == chunks.take(i));
            assert(joins_cleanly(start, joined(chunks.take(i)), chunks[i]));
        }
        lemma_streamed_as_one(config, patterns, before, now);
        let at = chunks.len() - 1;
        assert(chunks.take(at) == before);
        assert(joins_cleanly(start, joined(chunks.take(at)), chunks[at]));
        lemma_drain_after_feed(
            fed(start_state(), start, joined(before)),
            config,
            patterns,
            chunks.last(),
            now,
        );
    }
}

/// A page gives the same results in the same order, and leaves the same
/// buffer, whether it arrives in chunks or as one piece: provided that the
/// pattern of one result is stable and that each boundary between chunks is
/// harmless to feeding. A page without any chunk is a page of one empty
/// chunk where the empty chunk does not start the results.
pub proof fn lemma_chunking_invariance(
    config: EngineConfig,
    patterns: TextPatterns,
    chunks: Seq<Seq<u8>>,
    now: Timestamp,
)
    requires
        stable_rule(config.single_result),
        chunks.len() == 0 ==> fed(start_state(), config.results_start, Seq::empty())
            == start_state(),
        forall|i: int|
            1 <= i < chunks.len() ==> #[trigger] joins_cleanly(
                config.results_start,
                joined(chunks.take(i)),
                chunks[i],
            ),
    ensures
        fetched(start_state(), config, patterns, chunks, now) == fetched(
            start_state(),
            config,
            patterns,
            seq![joined(chunks)],
            now,
        ),
{
    let one = seq![joined(chunks)];
    assert(one.drop_last() == Seq::<Seq<u8>>::empty());
    assert(streamed(start_state(), config, patterns, one.drop_last(), now) == (
        Seq::<SearchResultView>::empty(),
        start_state(),
    ));
    let whole = drained(
        fed(start_state(), config.results_start, joined(chunks)),
        config,
        patterns,
        now,
    );
    assert(Seq::<SearchResultView>::empty() + whole.0 == whole.0);
    if chunks.len() > 0 {
        lemma_streamed_as_one(config, patterns, chunks, now);
    } else {
        assert(whole == (Seq::<SearchResultView>::empty(), start_state()));
    }
}

/// An attempt that extracts nothing changes nothing, so that every later
/// attempt on what is buffered extracts nothing again, at whatever moment it
/// is made.
pub proof fn lemma_exhausted_stays_exhausted(
    state: ExtractorState,
    single_result: Regex,
    engine: SearchEngine,
    date_format: Option<Seq<char>>,
    patterns: TextPatterns,
    now: Timestamp,
    later: Timestamp,
)
    requires
        extracted(state, single_result, engine, date_format, patterns, now).0 is None,
    ensures
        extracted(state, single_result, engine, date_format, patterns, now).1 == state,
        extracted(
            extracted(state, single_result, engine, date_format, patterns, now).1,
            single_result,
            engine,
            date_format,
            patterns,
            later,
        ) == (None::<SearchResultView>, state),
{
}

} // verus!
