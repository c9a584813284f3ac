//! The event pipeline: every event a model instance emits during one
//! request is observed by a collector, which extracts the stop reason,
//! the ordered tool-call record and the first-token latency, and forwards
//! each event — paired with the model metadata current at emission time —
//! to the callback sink, exactly once and in receipt order.
//!
//! The channel and the background task that drive this collector live
//! outside the crate; the collector's decisions are the pure step and
//! fold functions here.

use vstd::prelude::*;

use crate::types::clone_opt_string;
use crate::types::CompletionModelUsage;
use crate::types::Model;
use crate::types::ModelView;

verus! {

/// The first-token signal: latency from request start, in milliseconds.
#[derive(Clone, Copy, PartialEq, Eq, Structural, Debug)]
pub struct LlmFirstToken {
    pub ttft: u64,
}

/// The payload of a tool-start event: one tool call the model decided on.
#[derive(PartialEq, Eq, Debug)]
pub struct ToolCall {
    pub tool_id: String,
    pub tool_name: String,
    pub input: String,
}

#[verifier::ext_equal]
pub struct ToolCallView {
    pub tool_id: Seq<char>,
    pub tool_name: Seq<char>,
    pub input: Seq<char>,
}

impl View for ToolCall {
    type V = ToolCallView;

    open spec fn view(&self) -> ToolCallView {
        ToolCallView {
            tool_id: self.tool_id@,
            tool_name: self.tool_name@,
            input: self.input@,
        }
    }
}

impl DeepView for ToolCall {
    type V = ToolCallView;

    open spec fn deep_view(&self) -> ToolCallView {
        self.view()
    }
}

impl Clone for ToolCall {
    fn clone(&self) -> (res: Self)
        ensures
            res@ == self@,
    {
        ToolCall {
            tool_id: self.tool_id.clone(),
            tool_name: self.tool_name.clone(),
            input: self.input.clone(),
        }
    }
}

/// The payload of a stop event: why the model stopped, and the final
/// usage accounting when the provider reported one.
#[derive(PartialEq, Eq, Debug)]
pub struct LlmStopEvent {
    pub reason: String,
    pub usage: Option<CompletionModelUsage>,
}

#[verifier::ext_equal]
pub struct LlmStopEventView {
    pub reason: Seq<char>,
    pub usage: Option<CompletionModelUsage>,
}

impl View for LlmStopEvent {
    type V = LlmStopEventView;

    open spec fn view(&self) -> LlmStopEventView {
        LlmStopEventView { reason: self.reason@, usage: self.usage }
    }
}

impl Clone for LlmStopEvent {
    fn clone(&self) -> (res: Self)
        ensures
            res@ == self@,
    {
        LlmStopEvent { reason: self.reason.clone(), usage: self.usage }
    }
}

/// The kinds of events a model instance emits; kinds not special-cased by
/// the collector pass through unchanged.
#[derive(PartialEq, Eq, Debug)]
pub enum ModelEventType {
    LlmStart,
    LlmFirstToken(LlmFirstToken),
    LlmContent(String),
    ToolStart(ToolCall),
    LlmStop(LlmStopEvent),
}

#[verifier::ext_equal]
pub enum ModelEventTypeView {
    LlmStart,
    LlmFirstToken(LlmFirstToken),
    LlmContent(Seq<char>),
    ToolStart(ToolCallView),
    LlmStop(LlmStopEventView),
}

impl View for ModelEventType {
    type V = ModelEventTypeView;

    open spec fn view(&self) -> ModelEventTypeView {
        match self {
            ModelEventType::LlmStart => ModelEventTypeView::LlmStart,
            ModelEventType::LlmFirstToken(ft) => ModelEventTypeView::LlmFirstToken(*ft),
            ModelEventType::LlmContent(c) => ModelEventTypeView::LlmContent(c@),
            ModelEventType::ToolStart(t) => ModelEventTypeView::ToolStart(t@),
            ModelEventType::LlmStop(s) => ModelEventTypeView::LlmStop(s@),
        }
    }
}

impl Clone for ModelEventType {
    fn clone(&self) -> (res: Self)
        ensures
            res@ == self@,
    {
        match self {
            ModelEventType::LlmStart => ModelEventType::LlmStart,
            ModelEventType::LlmFirstToken(ft) => ModelEventType::LlmFirstToken(*ft),
            ModelEventType::LlmContent(c) => ModelEventType::LlmContent(c.clone()),
            ModelEventType::ToolStart(t) => ModelEventType::ToolStart(t.clone()),
            ModelEventType::LlmStop(s) => ModelEventType::LlmStop(s.clone()),
        }
    }
}

/// One event emitted by a model instance; immutable once constructed.
#[derive(PartialEq, Eq, Debug)]
pub struct ModelEvent {
    pub event: ModelEventType,
}

#[verifier::ext_equal]
pub struct ModelEventView {
    pub event: ModelEventTypeView,
}

impl View for ModelEvent {
    type V = ModelEventView;

    open spec fn view(&self) -> ModelEventView {
        ModelEventView { event: self.event@ }
    }
}

impl DeepView for ModelEvent {
    type V = ModelEventView;

    open spec fn deep_view(&self) -> ModelEventView {
        self.view()
    }
}

impl Clone for ModelEvent {
    fn clone(&self) -> (res: Self)
        ensures
            res@ == self@,
    {
        ModelEvent { event: self.event.clone() }
    }
}

/// An event paired with the model metadata snapshot current at emission
/// time, as delivered to the callback sink.
#[derive(PartialEq, Eq, Debug)]
pub struct ModelEventWithDetails {
    pub event: ModelEvent,
    pub model: Model,
}

#[verifier::ext_equal]
pub struct ModelEventWithDetailsView {
    pub event: ModelEventView,
    pub model: ModelView,
}

impl View for ModelEventWithDetails {
    type V = ModelEventWithDetailsView;

    open spec fn view(&self) -> ModelEventWithDetailsView {
        ModelEventWithDetailsView { event: self.event@, model: self.model@ }
    }
}

impl DeepView for ModelEventWithDetails {
    type V = ModelEventWithDetailsView;

    open spec fn deep_view(&self) -> ModelEventWithDetailsView {
        self.view()
    }
}

impl ModelEventWithDetails {
    pub fn new(event: ModelEvent, model: Model) -> (r: Self)
        ensures
            r@.event == event@,
            r@.model == model@,
    {
        ModelEventWithDetails { event, model }
    }
}

/// What the collector has accumulated so far: the latest stop event, the
/// ordered tool-call record, and the recorded first-token latency.
#[derive(PartialEq, Eq, Debug)]
pub struct CollectorState {
    pub stop_event: Option<LlmStopEvent>,
    pub tool_calls: Option<Vec<ToolCall>>,
    pub ttft: Option<u64>,
}

#[verifier::ext_equal]
pub struct CollectorStateView {
    pub stop_event: Option<LlmStopEventView>,
    pub tool_calls: Option<Seq<ToolCallView>>,
    pub ttft: Option<u64>,
}

impl View for CollectorState {
    type V = CollectorStateView;

    open spec fn view(&self) -> CollectorStateView {
        CollectorStateView {
            stop_event: match &self.stop_event {
                Some(s) => Some(s@),
                None => None,
            },
            tool_calls: match &self.tool_calls {
                Some(v) => Some(v.deep_view()),
                None => None,
            },
            ttft: self.ttft,
        }
    }
}

/// The tool-call record extended by one call; the record starts at its
/// first entry.
pub open spec fn appended_tool_calls(
    calls: Option<Seq<ToolCallView>>,
    call: ToolCallView,
) -> Seq<ToolCallView> {
    match calls {
        None => seq![call],
        Some(cs) => cs.push(call),
    }
}

/// How one received event changes the collector's accumulated state.
pub open spec fn collector_step_spec(
    s: CollectorStateView,
    e: ModelEventView,
) -> CollectorStateView {
    match e.event {
        ModelEventTypeView::LlmStop(stop) => CollectorStateView { stop_event: Some(stop), ..s },
        ModelEventTypeView::ToolStart(call) => CollectorStateView {
            tool_calls: Some(appended_tool_calls(s.tool_calls, call)),
            ..s
        },
        ModelEventTypeView::LlmFirstToken(ft) => CollectorStateView { ttft: Some(ft.ttft), ..s },
        _ => s,
    }
}

/// The collector's state after receiving a whole event sequence, in
/// order.
pub open spec fn collect_spec(
    s: CollectorStateView,
    events: Seq<ModelEventView>,
) -> CollectorStateView
    decreases events.len(),
{
    if events.len() == 0 {
        s
    } else {
        collector_step_spec(collect_spec(s, events.drop_last()), events.last())
    }
}

/// The collector's empty starting state.
pub open spec fn initial_collector_state() -> CollectorStateView {
    CollectorStateView { stop_event: None, tool_calls: None, ttft: None }
}

/// What the callback sink receives for an emitted event sequence: each
/// event, in emission order, paired with the model metadata.
pub open spec fn forwarded_events(events: Seq<ModelEventView>, model: ModelView) -> Seq<
    ModelEventWithDetailsView,
> {
    events.map_values(|e: ModelEventView| ModelEventWithDetailsView { event: e, model })
}

/// The callback sink receives exactly one pairing per emitted event, in
/// emission order: no event is dropped, duplicated or reordered.
pub proof fn lemma_delivery_matches_emission(events: Seq<ModelEventView>, model: ModelView)
    ensures
        forwarded_events(events, model).len() == events.len(),
        forall|i: int|
            0 <= i < events.len() ==> #[trigger] forwarded_events(events, model)[i].event
                == events[i] && forwarded_events(events, model)[i].model == model,
{
}

impl CollectorState {
    /// The collector's state before any event is received.
    pub fn new() -> (r: Self)
        ensures
            r@ == initial_collector_state(),
    {
        CollectorState { stop_event: None, tool_calls: None, ttft: None }
    }
}

/// One turn of the collector loop: accumulates the event's signal into
/// the state and yields the pairing to deliver to the callback sink.
pub fn collector_step(state: CollectorState, event: &ModelEvent, model: &Model) -> (r: (
    CollectorState,
    ModelEventWithDetails,
))
    ensures
        r.0@ == collector_step_spec(state@, event@),
        r.1@.event == event@,
        r.1@.model == model@,
{
    let forwarded = ModelEventWithDetails::new(event.clone(), model.clone());
    let next = match &event.event {
        ModelEventType::LlmStop(stop) => CollectorState {
            stop_event: Some(stop.clone()),
            ..state
        },
        ModelEventType::ToolStart(call) => {
            let ghost calls_pre = state@.tool_calls;
            let mut calls = match state.tool_calls {
                Some(v) => v,
                None => Vec::new(),
            };
            let ghost before = calls.deep_view();
            calls.push(call.clone());
            proof {
                assert(calls.deep_view() =~= before.push(call@));
                assert(calls.deep_view() =~= appended_tool_calls(calls_pre, call@));
            }
            CollectorState { tool_calls: Some(calls), ..state }
        },
        ModelEventType::LlmFirstToken(ft) => CollectorState { ttft: Some(ft.ttft), ..state },
        _ => state,
    };
    proof {
        assert(next@ =~= collector_step_spec(state@, event@));
    }
    (next, forwarded)
}

/// Receives a whole emitted event sequence in order, as the collector
/// task does once the channel closes: returns the accumulated state and
/// the deliveries handed to the callback sink — one per event, in
/// emission order.
pub fn collect_events(events: &Vec<ModelEvent>, model: &Model) -> (r: (
    CollectorState,
    Vec<ModelEventWithDetails>,
))
    ensures
        r.0@ == collect_spec(initial_collector_state(), events.deep_view()),
        r.1.deep_view() == forwarded_events(events.deep_view(), model@),
{
    let mut state = CollectorState::new();
    let mut delivered: Vec<ModelEventWithDetails> = Vec::new();
    let mut i: usize = 0;
    while i < events.len()
        invariant
            i <= events.len(),
            state@ == collect_spec(initial_collector_state(), events.deep_view().take(i as int)),
            delivered@.len() == i as int,
            forall|k: int|
                0 <= k < i ==> #[trigger] delivered.deep_view()[k].event
                    == events.deep_view()[k] && delivered.deep_view()[k].model == model@,
        decreases events.len() - i,
    {
        let (next, forwarded) = collector_step(state, &events[i], model);
        let ghost fv = forwarded@;
        let ghost prev = delivered.deep_view();
        delivered.push(forwarded);
        state = next;
        proof {
            let all = events.deep_view();
            assert(all[i as int] == events@[i as int]@);
            assert(all.take(i as int + 1).drop_last() =~= all.take(i as int));
            assert(all.take(i as int + 1).last() == all[i as int]);
            assert(delivered.deep_view() =~= prev.push(fv));
        }
        i = i + 1;
    }
    proof {
        assert(events.deep_view().take(events@.len() as int) =~= events.deep_view());
        assert(delivered.deep_view() =~~= forwarded_events(events.deep_view(), model@));
    }
    (state, delivered)
}

/// Convenience accessors over the accumulated result, as the batch
/// executor reads it.
impl CollectorState {
    /// The stop reason of the latest stop event, if one arrived.
    pub fn stop_reason(&self) -> (r: Option<&String>)
        ensures
            match r {
                Some(s) => self@.stop_event matches Some(stop) && stop.reason == s@,
                None => self@.stop_event is None,
            },
    {
        match &self.stop_event {
            Some(stop) => Some(&stop.reason),
            None => None,
        }
    }
}

} // verus!
