//! Worker events, as the event source hands them over.

use vstd::prelude::*;

verus! {

/// The pipeline stage that emitted an event.
#[derive(Clone, Copy, Debug, PartialEq, Eq, Structural)]
pub enum Worker {
    /// Requests tasks from the orchestrator.
    TaskFetcher,
    /// Proves tasks; the number tells provers apart.
    Prover(usize),
    /// Submits finished proofs.
    ProofSubmitter,
}

/// Coarse classification of what an event reports.
#[derive(Clone, Copy, Debug, PartialEq, Eq, Structural)]
pub enum EventType {
    Success,
    Error,
    StateChange,
    Info,
    Refresh,
    Waiting,
}

/// What a prover says it is doing.
#[derive(Clone, Copy, Debug, PartialEq, Eq, Structural)]
pub enum ProverState {
    Waiting,
    Proving,
}

/// One record of the event log.
#[derive(Clone, Debug, PartialEq, Eq)]
pub struct Event {
    pub worker: Worker,
    /// Free text; what it may embed is recognised by the trackers.
    pub msg: String,
    /// When the worker emitted the event, as the worker formatted it.
    pub timestamp: String,
    pub event_type: EventType,
    /// Set on events that announce a prover state.
    pub prover_state: Option<ProverState>,
}

/// An event as the specifications see it: its texts are sequences of characters.
pub struct EventModel {
    pub worker: Worker,
    pub message: Seq<char>,
    pub timestamp: Seq<char>,
    pub event_type: EventType,
    pub prover_state: Option<ProverState>,
}

impl View for Event {
    type V = EventModel;

    open spec fn view(&self) -> EventModel {
        EventModel {
            worker: self.worker,
            message: self.msg@,
            timestamp: self.timestamp@,
            event_type: self.event_type,
            prover_state: self.prover_state,
        }
    }
}

/// The models of a log's events, in the log's order.
pub open spec fn models(events: Seq<Event>) -> Seq<EventModel> {
    events.map_values(|e: Event| e@)
}

impl Event {
    /// An event without a prover state.
    pub fn new(worker: Worker, msg: String, timestamp: String, event_type: EventType) -> (e: Event)
        ensures
            e@ == (EventModel {
                worker,
                message: msg@,
                timestamp: timestamp@,
                event_type,
                prover_state: None,
            }),
    {
        Event { worker, msg, timestamp, event_type, prover_state: None }
    }

    /// A state-change event that announces `state`.
    pub fn state_change(worker: Worker, msg: String, timestamp: String, state: ProverState) -> (e:
        Event)
        ensures
            e@ == (EventModel {
                worker,
                message: msg@,
                timestamp: timestamp@,
                event_type: EventType::StateChange,
                prover_state: Some(state),
            }),
    {
        Event { worker, msg, timestamp, event_type: EventType::StateChange, prover_state: Some(state) }
    }
}

} // verus!
