use crate::date::Timestamp;
use crate::engines::config::EngineConfig;
use crate::engines::engine_base::extracted;
use crate::engines::engine_base::fed;
use crate::engines::engine_base::EngineBase;
use crate::engines::engine_base::ExtractorState;
use crate::matcher::optional_text;
use crate::patterns::TextPatterns;
use crate::search_result::SearchResult;
use crate::search_result::SearchResultView;
use crate::text::byte_len;
use vstd::prelude::*;

verus! {

/// One attempt to extract under an engine's configuration.
pub open spec fn extracted_with(
    state: ExtractorState,
    config: EngineConfig,
    patterns: TextPatterns,
    now: Timestamp,
) -> (Option<SearchResultView>, ExtractorState) {
    extracted(
        state,
        config.single_result,
        config.engine,
        optional_text(config.date_format),
        patterns,
        now,
    )
}

/// All results that can be extracted from what is buffered, in order, and the
/// state that remains. Extraction goes on while each match uses up some of
/// the buffer; after a match that uses up nothing it stops.
pub open spec fn drained(
    state: ExtractorState,
    config: EngineConfig,
    patterns: TextPatterns,
    now: Timestamp,
) -> (Seq<SearchResultView>, ExtractorState)
    decreases byte_len(state.buffer),
{
    let (first, next) = extracted_with(state, config, patterns, now);
    match first {
        None => (Seq::empty(), state),
        Some(x) => if byte_len(next.buffer) < byte_len(state.buffer) {
            let (rest, last) = drained(next, config, patterns, now);
            (seq![x] + rest, last)
        } else {
            (seq![x], next)
        },
    }
}

/// The views of a list of results.
pub open spec fn result_views(results: Seq<SearchResult>) -> Seq<SearchResultView> {
    results.map_values(|x: SearchResult| x@)
}

/// Extracts every result that the buffer holds.
pub fn drain<E: EngineBase>(
    engine: &mut E,
    config: &EngineConfig,
    patterns: &TextPatterns,
    now: Timestamp,
) -> (r: Vec<SearchResult>)
    ensures
        (result_views(r@), final(engine).state()) == drained(
            old(engine).state(),
            *config,
            *patterns,
            now,
        ),
{
    let mut out: Vec<SearchResult> = Vec::new();
    let mut finished = false;
    let ghost total = drained(engine.state(), *config, *patterns, now);
    while !finished
        invariant
            result_views(out@) + (if finished {
                Seq::empty()
            } else {
                drained(engine.state(), *config, *patterns, now).0
            }) == total.0,
            (if finished {
                engine.state()
            } else {
                drained(engine.state(), *config, *patterns, now).1
            }) == total.1,
        decreases
                (if finished {
                    0
                } else {
                    byte_len(engine.state().buffer) + 1
                }),
    {
        let before = engine.pending_bytes();
        let ghost current = engine.state();
        let ghost step = extracted_with(current, *config, *patterns, now);
        match engine.parse_next(config, patterns, now) {
            None => {
                finished = true;
            },
            Some(x) => {
                let ghost earlier = out@;
                out.push(x);
                proof {
                    assert(result_views(out@) =~= result_views(earlier).push(x@));
                    assert(result_views(earlier).push(x@) =~= result_views(earlier) + seq![x@]);
                }
                if engine.pending_bytes() >= before {
                    finished = true;
                } else {
                    proof {
                        let rest = drained(engine.state(), *config, *patterns, now).0;
                        assert((result_views(earlier) + seq![x@]) + rest =~= result_views(earlier)
                            + (seq![x@] + rest));
                    }
                }
            },
        }
    }
    out
}

/// Where an engine's fetch stands.
#[derive(Clone, Copy, Debug, PartialEq, Eq, Structural)]
pub enum AdapterPhase {
    /// The page is still arriving.
    Streaming,
    /// The page ended, or the consumer went away: nothing more is produced.
    Finished,
    /// The transport failed.
    Failed,
}

/// What can happen to an engine's fetch.
pub enum StreamEvent<'a> {
    /// The next chunk of the page arrived.
    Chunk(&'a [u8]),
    /// The page is complete.
    EndOfStream,
    /// The transport reported an error.
    TransportError,
    /// A result could not be delivered: the consumer is gone.
    ConsumerGone,
}

/// How a fetch ended, told to the orchestrator once.
#[derive(Clone, Copy, Debug, PartialEq, Eq, Structural)]
pub enum Signal {
    Finished,
    Failed,
}

/// What a step asks of the driving loop: results to deliver, in order, and
/// the signal to give if the fetch has just ended.
pub struct StepOutput {
    pub results: Vec<SearchResult>,
    pub signal: Option<Signal>,
}

/// An engine's extractor together with the phase of its fetch.
pub struct Adapter<E> {
    pub engine: E,
    pub phase: AdapterPhase,
}

/// The phase after an event. A fetch that has ended stays as it ended.
pub open spec fn next_phase(phase: AdapterPhase, event: StreamEvent<'_>) -> AdapterPhase {
    match phase {
        AdapterPhase::Streaming => match event {
            StreamEvent::Chunk(_) => AdapterPhase::Streaming,
            StreamEvent::EndOfStream => AdapterPhase::Finished,
            StreamEvent::TransportError => AdapterPhase::Failed,
            StreamEvent::ConsumerGone => AdapterPhase::Finished,
        },
        _ => phase,
    }
}

/// The signal that an event calls for: one when the fetch ends, none before
/// and none after.
pub open spec fn signal_for(phase: AdapterPhase, event: StreamEvent<'_>) -> Option<Signal> {
    match (phase, next_phase(phase, event)) {
        (AdapterPhase::Streaming, AdapterPhase::Finished) => Some(Signal::Finished),
        (AdapterPhase::Streaming, AdapterPhase::Failed) => Some(Signal::Failed),
        _ => None,
    }
}

/// The results that an event yields and the extractor's state after it.
/// While the page arrives a chunk is fed and the buffer drained; at the end
/// of the page the buffer is drained once more. Any other event, and any
/// event after the fetch has ended, yields nothing and changes nothing.
pub open spec fn step_results(
    phase: AdapterPhase,
    state: ExtractorState,
    config: EngineConfig,
    patterns: TextPatterns,
    event: StreamEvent<'_>,
    now: Timestamp,
) -> (Seq<SearchResultView>, ExtractorState) {
    match (phase, event) {
        (AdapterPhase::Streaming, StreamEvent::Chunk(chunk)) => drained(
            fed(state, config.results_start, chunk@),
            config,
            patterns,
            now,
        ),
        (AdapterPhase::Streaming, StreamEvent::EndOfStream) => drained(
            state,
            config,
            patterns,
            now,
        ),
        _ => (Seq::empty(), state),
    }
}

/// The phase after a sequence of events.
pub open spec fn phase_after(phase: AdapterPhase, events: Seq<StreamEvent<'static>>) -> AdapterPhase
    decreases events.len(),
{
    if events.len() == 0 {
        phase
    } else {
        next_phase(phase_after(phase, events.drop_last()), events.last())
    }
}

/// How many signals a sequence of events calls for.
pub open spec fn signals_given(phase: AdapterPhase, events: Seq<StreamEvent<'static>>) -> nat
    decreases events.len(),
{
    if events.len() == 0 {
        0
    } else {
        let before = signals_given(phase, events.drop_last());
        match signal_for(phase_after(phase, events.drop_last()), events.last()) {
            Some(_) => before + 1,
            None => before,
        }
    }
}

/// A fetch signals its end exactly once: whatever the events, one signal is
/// given if the fetch has ended by them and none if it has not, and a fetch
/// that had ended before gives none.
pub proof fn lemma_one_signal(phase: AdapterPhase, events: Seq<StreamEvent<'static>>)
    ensures
        signals_given(phase, events) == (if phase == AdapterPhase::Streaming && phase_after(
            phase,
            events,
        ) != AdapterPhase::Streaming {
            1nat
        } else {
            0nat
        }),
        phase != AdapterPhase::Streaming ==> phase_after(phase, events) == phase,
    decreases events.len(),
{
    if events.len() > 0 {
        lemma_one_signal(phase, events.drop_last());
    }
}

impl<E: EngineBase> Adapter<E> {
    /// An adapter whose fetch is about to begin.
    pub fn new(engine: E) -> (r: Self)
        ensures
            r.engine == engine,
            r.phase == AdapterPhase::Streaming,
    {
        Adapter { engine, phase: AdapterPhase::Streaming }
    }

    /// Takes one event of the fetch and says what to deliver and whether to
    /// signal the end.
    pub fn step(
        &mut self,
        config: &EngineConfig,
        patterns: &TextPatterns,
        event: StreamEvent<'_>,
        now: Timestamp,
    ) -> (r: StepOutput)
        ensures
            final(self).phase == next_phase(old(self).phase, event),
            r.signal == signal_for(old(self).phase, event),
            (result_views(r.results@), final(self).engine.state()) == step_results(
                old(self).phase,
                old(self).engine.state(),
                *config,
                *patterns,
                event,
                now,
            ),
    {
        match self.phase {
            AdapterPhase::Streaming => match event {
                StreamEvent::Chunk(chunk) => {
                    self.engine.push_packet(config, chunk);
                    let results = drain(&mut self.engine, config, patterns, now);
                    StepOutput { results, signal: None }
                },
                StreamEvent::EndOfStream => {
                    let results = drain(&mut self.engine, config, patterns, now);
                    self.phase = AdapterPhase::Finished;
                    StepOutput { results, signal: Some(Signal::Finished) }
                },
                StreamEvent::TransportError => {
                    self.phase = AdapterPhase::Failed;
                    let results = Vec::new();
                    assert(result_views(results@) =~= Seq::empty());
                    StepOutput { results, signal: Some(Signal::Failed) }
                },
                StreamEvent::ConsumerGone => {
                    self.phase = AdapterPhase::Finished;
                    let results = Vec::new();
                    assert(result_views(results@) =~= Seq::empty());
                    StepOutput { results, signal: Some(Signal::Finished) }
                },
            },
            _ => {
                let results = Vec::new();
                assert(result_views(results@) =~= Seq::empty());
                StepOutput { results, signal: None }
            },
        }
    }
}

} // verus!
