use crate::adapter::Signal;
use crate::search_result::SearchEngine;
use crate::search_result::SearchResult;
use crate::search_result::SearchResultView;
use crate::url_set::new_url_set;
use crate::url_set::url_set;
use crate::url_set::url_set_contains;
use crate::url_set::url_set_insert;
use ahash::AHashSet;
use vstd::prelude::*;
use vstd::seq_lib::*;
use vstd::string::*;

verus! {

/// How many results the queue between the engines and the consumer holds
/// before an engine has to wait.
pub const QUEUE_CAPACITY: usize = 16;

/// How far one engine has come.
#[derive(Clone, Copy, Debug, PartialEq, Eq, Structural)]
pub enum EngineStatus {
    Running,
    Finished,
    Failed,
}

/// What the consumer does with a result that it pulled from the queue.
pub enum Emission {
    /// The result is new: it is shown. `first` marks the first result of the
    /// whole search.
    Primary { result: SearchResult, first: bool },
    /// The address was shown before: only the engine is noted at it.
    AlsoFoundBy { url: String, engine: SearchEngine },
}

/// An `Emission` as a plain value.
pub enum EmissionView {
    Primary { result: SearchResultView, first: bool },
    AlsoFoundBy { url: Seq<char>, engine: SearchEngine },
}

impl View for Emission {
    type V = EmissionView;

    open spec fn view(&self) -> EmissionView {
        match self {
            Emission::Primary { result, first } => EmissionView::Primary {
                result: result@,
                first: *first,
            },
            Emission::AlsoFoundBy { url, engine } => EmissionView::AlsoFoundBy {
                url: url@,
                engine: *engine,
            },
        }
    }
}

/// The notice that an engine has ended, given once for each engine.
#[derive(Clone, Copy, Debug, PartialEq, Eq, Structural)]
pub struct Lifecycle {
    pub engine: SearchEngine,
    pub signal: Signal,
}

/// What the orchestrator knows: the addresses shown so far, how far each
/// engine has come, and whether any result was shown yet.
pub struct OrchestratorState {
    pub seen: Set<Seq<char>>,
    pub brave: EngineStatus,
    pub bing: EngineStatus,
    pub duckduckgo: EngineStatus,
    pub first_result_yielded: bool,
}

impl OrchestratorState {
    /// How far `engine` has come.
    pub open spec fn status(self, engine: SearchEngine) -> EngineStatus {
        match engine {
            SearchEngine::Brave => self.brave,
            SearchEngine::Bing => self.bing,
            SearchEngine::DuckDuckGo => self.duckduckgo,
        }
    }

    /// This state with the status of `engine` replaced.
    pub open spec fn with_status(self, engine: SearchEngine, status: EngineStatus) -> Self {
        match engine {
            SearchEngine::Brave => OrchestratorState { brave: status, ..self },
            SearchEngine::Bing => OrchestratorState { bing: status, ..self },
            SearchEngine::DuckDuckGo => OrchestratorState { duckduckgo: status, ..self },
        }
    }

    /// Whether every engine has ended.
    pub open spec fn all_ended(self) -> bool {
        &&& self.brave != EngineStatus::Running
        &&& self.bing != EngineStatus::Running
        &&& self.duckduckgo != EngineStatus::Running
    }
}

/// The state at the start of a search.
pub open spec fn initial_state() -> OrchestratorState {
    OrchestratorState {
        seen: Set::empty(),
        brave: EngineStatus::Running,
        bing: EngineStatus::Running,
        duckduckgo: EngineStatus::Running,
        first_result_yielded: false,
    }
}

/// What becomes of a result and of the state: a result whose address was
/// shown before is only noted, a new one is shown and its address recorded.
pub open spec fn result_step(state: OrchestratorState, result: SearchResultView) -> (
    EmissionView,
    OrchestratorState,
) {
    if state.seen.contains(result.url) {
        (EmissionView::AlsoFoundBy { url: result.url, engine: result.engine }, state)
    } else {
        (
            EmissionView::Primary { result, first: !state.first_result_yielded },
            OrchestratorState {
                seen: state.seen.insert(result.url),
                first_result_yielded: true,
                ..state
            },
        )
    }
}

/// The status that a signal leaves an engine in.
pub open spec fn status_of(signal: Signal) -> EngineStatus {
    match signal {
        Signal::Finished => EngineStatus::Finished,
        Signal::Failed => EngineStatus::Failed,
    }
}

/// What the end of an engine's fetch brings about: the first time its status
/// is set and a notice given, any later time nothing.
pub open spec fn ended_step(state: OrchestratorState, engine: SearchEngine, signal: Signal) -> (
    Option<Lifecycle>,
    OrchestratorState,
) {
    if state.status(engine) == EngineStatus::Running {
        (Some(Lifecycle { engine, signal }), state.with_status(engine, status_of(signal)))
    } else {
        (None, state)
    }
}

/// The consumer's side of a search: it merges what the engines found,
/// shows each address once and follows each engine to its end.
pub struct Orchestrator {
    seen: AHashSet<String>,
    brave: EngineStatus,
    bing: EngineStatus,
    duckduckgo: EngineStatus,
    first_result_yielded: bool,
}

impl View for Orchestrator {
    type V = OrchestratorState;

    closed spec fn view(&self) -> OrchestratorState {
        OrchestratorState {
            seen: url_set(self.seen),
            brave: self.brave,
            bing: self.bing,
            duckduckgo: self.duckduckgo,
            first_result_yielded: self.first_result_yielded,
        }
    }
}

impl Orchestrator {
    /// The orchestrator of a search that is about to begin.
    pub fn new() -> (r: Self)
        ensures
            r@ == initial_state(),
    {
        Orchestrator {
            seen: new_url_set(),
            brave: EngineStatus::Running,
            bing: EngineStatus::Running,
            duckduckgo: EngineStatus::Running,
            first_result_yielded: false,
        }
    }

    /// Takes a result pulled from the queue and says what to show for it.
    pub fn on_result(&mut self, result: SearchResult) -> (r: Emission)
        ensures
            (r@, final(self)@) == result_step(old(self)@, result@),
    {
        if url_set_contains(&self.seen, result.url.as_str()) {
            Emission::AlsoFoundBy { url: result.url, engine: result.engine }
        } else {
            let first = !self.first_result_yielded;
            url_set_insert(&mut self.seen, result.url.clone());
            self.first_result_yielded = true;
            Emission::Primary { result, first }
        }
    }

    /// Takes results in the order in which they were pulled from the queue
    /// and says, for each, what to show for it.
    pub fn on_results(&mut self, results: Vec<SearchResult>) -> (r: Vec<Emission>)
        ensures
            (emission_views(r@), final(self)@) == run(
                old(self)@,
                result_events(results@.map_values(|x: SearchResult| x@)),
            ),
    {
        let mut out: Vec<Emission> = Vec::new();
        let ghost start = self@;
        let ghost all = result_events(results@.map_values(|x: SearchResult| x@));
        proof {
            broadcast use vstd::std_specs::vec::axiom_spec_into_iter;

            assert(emission_views(out@) =~= Seq::<EmissionView>::empty());
        }
        for result in it: results.into_iter()
            invariant
                it.seq() == results@,
                all == result_events(results@.map_values(|x: SearchResult| x@)),
                (emission_views(out@), self@) == run(start, all.take(it.index())),
        {
            proof {
                let i = it.index();
                assert(all.take(i + 1).drop_last() == all.take(i));
                assert(all.take(i + 1).last() == SearchEvent::Result(result@));
            }
            let ghost earlier = out@;
            let emission = self.on_result(result);
            out.push(emission);
            proof {
                assert(emission_views(out@) =~= emission_views(earlier).push(emission@));
            }
        }
        proof {
            assert(all.take(results@.len() as int) == all);
        }
        out
    }

    /// How far `engine` has come.
    pub fn status(&self, engine: SearchEngine) -> (r: EngineStatus)
        ensures
            r == self@.status(engine),
    {
        match engine {
            SearchEngine::Brave => self.brave,
            SearchEngine::Bing => self.bing,
            SearchEngine::DuckDuckGo => self.duckduckgo,
        }
    }

    /// Takes the end of an engine's fetch and says whether to give notice of
    /// it: yes the first time, no after that.
    pub fn on_engine_ended(&mut self, engine: SearchEngine, signal: Signal) -> (r: Option<
        Lifecycle,
    >)
        ensures
            (r, final(self)@) == ended_step(old(self)@, engine, signal),
    {
        if self.status(engine) != EngineStatus::Running {
            return None;
        }
        let status = match signal {
            Signal::Finished => EngineStatus::Finished,
            Signal::Failed => EngineStatus::Failed,
        };
        match engine {
            SearchEngine::Brave => { self.brave = status; },
            SearchEngine::Bing => { self.bing = status; },
            SearchEngine::DuckDuckGo => { self.duckduckgo = status; },
        }
        Some(Lifecycle { engine, signal })
    }

    /// Whether the merged stream is at its end: every engine has ended and
    /// the queue holds nothing more.
    pub fn is_complete(&self, queue_empty: bool) -> (r: bool)
        ensures
            r == (self@.all_ended() && queue_empty),
    {
        queue_empty && self.brave != EngineStatus::Running && self.bing != EngineStatus::Running
            && self.duckduckgo != EngineStatus::Running
    }
}

/// What reaches the consumer in the course of a search.
pub enum SearchEvent {
    /// A result was pulled from the queue.
    Result(SearchResultView),
    /// An engine's fetch ended.
    Ended(SearchEngine, Signal),
}

/// What a sequence of events makes of a state: the emissions for the results
/// among them, in order, and the state at the end.
pub open spec fn run(state: OrchestratorState, events: Seq<SearchEvent>) -> (
    Seq<EmissionView>,
    OrchestratorState,
)
    decreases events.len(),
{
    if events.len() == 0 {
        (Seq::empty(), state)
    } else {
        let (out, mid) = run(state, events.drop_last());
        match events.last() {
            SearchEvent::Result(x) => (
                out.push(result_step(mid, x).0),
                result_step(mid, x).1,
            ),
            SearchEvent::Ended(engine, signal) => (out, ended_step(mid, engine, signal).1),
        }
    }
}

/// The events that the arrival of a sequence of results makes.
pub open spec fn result_events(results: Seq<SearchResultView>) -> Seq<SearchEvent> {
    results.map_values(|x: SearchResultView| SearchEvent::Result(x))
}

/// The views of a list of emissions.
pub open spec fn emission_views(out: Seq<Emission>) -> Seq<EmissionView> {
    out.map_values(|e: Emission| e@)
}

/// The addresses of the results that were shown, in order.
pub open spec fn primary_urls(out: Seq<EmissionView>) -> Seq<Seq<char>>
    decreases out.len(),
{
    if out.len() == 0 {
        Seq::empty()
    } else {
        let head = primary_urls(out.drop_last());
        match out.last() {
            EmissionView::Primary { result, first } => head.push(result.url),
            EmissionView::AlsoFoundBy { url, engine } => head,
        }
    }
}

/// The results among the events, in order.
pub open spec fn results_of(events: Seq<SearchEvent>) -> Seq<SearchResultView>
    decreases events.len(),
{
    if events.len() == 0 {
        Seq::empty()
    } else {
        let head = results_of(events.drop_last());
        match events.last() {
            SearchEvent::Result(x) => head.push(x),
            SearchEvent::Ended(engine, signal) => head,
        }
    }
}

/// The addresses that the engines reported.
pub open spec fn reported_urls(events: Seq<SearchEvent>) -> Set<Seq<char>> {
    results_of(events).map_values(|x: SearchResultView| x.url).to_set()
}

/// Two reports of one address: the second is only noted, with its engine,
/// whatever came before; and where the address was not shown before, the
/// first is shown.
pub proof fn lemma_second_report_is_noted(
    state: OrchestratorState,
    first: SearchResultView,
    second: SearchResultView,
)
    requires
        first.url == second.url,
    ensures
        result_step(result_step(state, first).1, second).0 == (EmissionView::AlsoFoundBy {
            url: second.url,
            engine: second.engine,
        }),
        !state.seen.contains(first.url) ==> result_step(state, first).0
            is Primary,
{
}

/// Events never take an address out of the addresses shown.
pub proof fn lemma_seen_grows(state: OrchestratorState, events: Seq<SearchEvent>)
    ensures
        state.seen.subset_of(run(state, events).1.seen),
    decreases events.len(),
{
    if events.len() > 0 {
        lemma_seen_grows(state, events.drop_last());
    }
}

/// Over a whole search every result gets one emission, every address that
/// an engine reported is shown exactly once, and no other address is shown:
/// as many results are shown as there are distinct addresses.
pub proof fn lemma_each_address_shown_once(events: Seq<SearchEvent>)
    ensures
        run(initial_state(), events).0.len() == results_of(events).len(),
        primary_urls(run(initial_state(), events).0).no_duplicates(),
        primary_urls(run(initial_state(), events).0).to_set() == reported_urls(events),
        primary_urls(run(initial_state(), events).0).len() == reported_urls(events).len(),
        run(initial_state(), events).1.seen == reported_urls(events),
    decreases events.len(),
{
    let urls = |x: SearchResultView| x.url;
    let (out, end) = run(initial_state(), events);
    if events.len() == 0 {
        assert(primary_urls(out).to_set() =~= reported_urls(events));
        assert(end.seen =~= reported_urls(events));
    } else {
        let before = events.drop_last();
        lemma_each_address_shown_once(before);
        let (out0, mid) = run(initial_state(), before);
        match events.last() {
            SearchEvent::Result(x) => {
                assert(results_of(events).map_values(urls) =~= results_of(before).map_values(
                    urls,
                ).push(x.url));
                results_of(before).map_values(urls).lemma_push_to_set_commute(x.url);
                assert(out.drop_last() == out0);
                if mid.seen.contains(x.url) {
                    assert(reported_urls(events) =~= reported_urls(before));
                } else {
                    primary_urls(out0).lemma_push_to_set_commute(x.url);
                    assert(end.seen =~= reported_urls(events));
                }
            },
            SearchEvent::Ended(engine, signal) => {
                assert(end.seen == mid.seen);
            },
        }
    }
    primary_urls(out).unique_seq_to_set();
}

/// The end of one engine's fetch, failure included, touches nothing of the
/// others: their status stays, the addresses shown stay, and a result that
/// arrives afterwards is treated as it would have been before.
pub proof fn lemma_engine_isolation(
    state: OrchestratorState,
    engine: SearchEngine,
    signal: Signal,
    other: SearchEngine,
    result: SearchResultView,
)
    requires
        other != engine,
    ensures
        ended_step(state, engine, signal).1.status(other) == state.status(other),
        ended_step(state, engine, signal).1.seen == state.seen,
        result_step(ended_step(state, engine, signal).1, result).0 == result_step(state, result).0,
{
}

/// An engine that has ended stays ended, whatever follows.
pub proof fn lemma_ended_stays(state: OrchestratorState, events: Seq<SearchEvent>, engine: SearchEngine)
    requires
        state.status(engine) != EngineStatus::Running,
    ensures
        run(state, events).1.status(engine) == state.status(engine),
    decreases events.len(),
{
    if events.len() > 0 {
        lemma_ended_stays(state, events.drop_last(), engine);
    }
}

/// Once the end of every engine's fetch is among the events, in any order
/// and whether it finished or failed, every engine has ended: the merged
/// stream is complete as soon as the queue is empty.
pub proof fn lemma_search_ends(
    state: OrchestratorState,
    events: Seq<SearchEvent>,
    brave: int,
    bing: int,
    duckduckgo: int,
)
    requires
        0 <= brave < events.len() && events[brave] is Ended && events[brave]->Ended_0
            == SearchEngine::Brave,
        0 <= bing < events.len() && events[bing] is Ended && events[bing]->Ended_0
            == SearchEngine::Bing,
        0 <= duckduckgo < events.len() && events[duckduckgo] is Ended
            && events[duckduckgo]->Ended_0 == SearchEngine::DuckDuckGo,
    ensures
        run(state, events).1.all_ended(),
{
    lemma_ended_at(state, events, brave);
    lemma_ended_at(state, events, bing);
    lemma_ended_at(state, events, duckduckgo);
}

/// After the end of an engine's fetch that engine has ended.
pub proof fn lemma_ended_at(state: OrchestratorState, events: Seq<SearchEvent>, at: int)
    requires
        0 <= at < events.len(),
        events[at] is Ended,
    ensures
        run(state, events).1.status(events[at]->Ended_0) != EngineStatus::Running,
    decreases events.len(),
{
    let engine = events[at]->Ended_0;
    let before = events.drop_last();
    let mid = run(state, before).1;
    if at == events.len() - 1 {
    } else {
        lemma_ended_at(state, before, at);
        match events.last() {
            SearchEvent::Result(x) => {},
            SearchEvent::Ended(e, g) => {},
        }
    }
}

} // verus!
