//! Looking back over the most recent events of the log.
//!
//! Most trackers consult only a window at the end of the log, newest event
//! first, and act on the first event that answers their question. The window
//! counts events of every worker.

use vstd::prelude::*;
use crate::event::{models, Event, EventModel, EventType, Worker};
use crate::message::{
    declared_backoff, extract_backoff, extract_task_id, task_id_in, REQUESTING_TASK,
};
use crate::text::{as_position, contains, contains_text, to_chars};

verus! {

/// A question that a tracker asks of the recent events.
#[derive(Clone, Copy, Debug, PartialEq, Eq, Structural)]
pub enum Query {
    /// Which task was named last, by a prover or the fetcher?
    NamesTask,
    /// Which backoff did the fetcher declare last?
    DeclaresBackoff,
    /// Did the fetcher just ask for a task?
    RequestsTask,
    /// Which state did a prover announce last?
    ReportsProverState,
}

/// How many of the newest events a question looks at.
pub open spec fn width_of(query: Query) -> int {
    match query {
        Query::NamesTask => 20,
        Query::DeclaresBackoff => 20,
        Query::RequestsTask => 10,
        Query::ReportsProverState => 10,
    }
}

/// The event `e` answers the question `query`.
pub open spec fn answers(query: Query, e: EventModel) -> bool {
    match query {
        Query::NamesTask => {
            &&& e.worker is Prover || e.worker is TaskFetcher
            &&& task_id_in(e.message) is Some
        },
        Query::DeclaresBackoff => {
            &&& e.worker is TaskFetcher
            &&& declared_backoff(e.message) is Some
        },
        Query::RequestsTask => {
            &&& e.worker is TaskFetcher
            &&& contains_text(e.message, REQUESTING_TASK@)
        },
        Query::ReportsProverState => {
            &&& e.event_type is StateChange
            &&& e.prover_state is Some
        },
    }
}

/// Where the window over the last `width` events of a log of `len` events begins.
pub open spec fn window_start(len: int, width: int) -> int {
    if len > width {
        len - width
    } else {
        0
    }
}

/// `at` is the newest event within the window of `query` that answers it.
pub open spec fn is_latest(events: Seq<EventModel>, query: Query, at: int) -> bool {
    &&& window_start(events.len() as int, width_of(query)) <= at < events.len()
    &&& answers(query, events[at])
    &&& forall|j: int| at < j < events.len() ==> !answers(query, #[trigger] events[j])
}

/// The index of the newest event within the window of `query` that answers it,
/// if there is one.
pub open spec fn latest(events: Seq<EventModel>, query: Query) -> Option<int> {
    if exists|at: int| is_latest(events, query, at) {
        Some(choose|at: int| is_latest(events, query, at))
    } else {
        None
    }
}

/// The newest answer is unique, so naming one names `latest`.
pub proof fn lemma_latest_found(events: Seq<EventModel>, query: Query, at: int)
    requires
        is_latest(events, query, at),
    ensures
        latest(events, query) == Some(at),
{
    let chosen = choose|k: int| is_latest(events, query, k);
    assert(is_latest(events, query, chosen));
    assert(chosen == at) by {
        if chosen < at {
            assert(!answers(query, events[at]));
        } else if at < chosen {
            assert(!answers(query, events[chosen]));
        }
    }
}

/// A window without an answer has no newest one.
pub proof fn lemma_latest_missing(events: Seq<EventModel>, query: Query)
    requires
        forall|j: int|
            window_start(events.len() as int, width_of(query)) <= j < events.len() ==> !answers(
                query,
                #[trigger] events[j],
            ),
    ensures
        latest(events, query) is None,
{
}

/// What `latest` finds lies in the window and answers the question.
pub proof fn lemma_latest_answers(events: Seq<EventModel>, query: Query)
    ensures
        latest(events, query) matches Some(at) ==> is_latest(events, query, at),
{
}

/// One more event that does not answer a question leaves the newest answer
/// where it was, unless that answer was the oldest event of the window and
/// has now left it.
pub proof fn lemma_latest_skips_other_events(events: Seq<EventModel>, e: EventModel, query: Query)
    requires
        !answers(query, e),
        latest(events, query) != Some(events.len() - width_of(query)),
    ensures
        latest(events.push(e), query) == latest(events, query),
{
    let longer = events.push(e);
    match latest(events, query) {
        Some(at) => {
            assert(is_latest(events, query, at));
            assert(longer[at] == events[at]);
            assert forall|j: int| at < j < longer.len() implies !answers(
                query,
                #[trigger] longer[j],
            ) by {
                if j < events.len() {
                    assert(longer[j] == events[j]);
                }
            }
            lemma_latest_found(longer, query, at);
        },
        None => {
            assert forall|j: int|
                window_start(longer.len() as int, width_of(query)) <= j < longer.len()
                    implies !answers(query, #[trigger] longer[j]) by {
                if j < events.len() {
                    assert(longer[j] == events[j]);
                    if answers(query, events[j]) {
                        lemma_newest_answer_exists(events, query, j);
                    }
                }
            }
            lemma_latest_missing(longer, query);
        },
    }
}

/// An answer within the window means that there is a newest one.
pub proof fn lemma_newest_answer_exists(events: Seq<EventModel>, query: Query, at: int)
    requires
        window_start(events.len() as int, width_of(query)) <= at < events.len(),
        answers(query, events[at]),
    ensures
        latest(events, query) is Some,
    decreases events.len() - at,
{
    if exists|j: int| at < j < events.len() && answers(query, #[trigger] events[j]) {
        let j = choose|j: int| at < j < events.len() && answers(query, #[trigger] events[j]);
        lemma_newest_answer_exists(events, query, j);
    } else {
        assert(is_latest(events, query, at));
    }
}

/// How many of the newest events a question looks at.
pub fn window_width(query: Query) -> (width: usize)
    ensures
        width == width_of(query),
{
    match query {
        Query::NamesTask => 20,
        Query::DeclaresBackoff => 20,
        Query::RequestsTask => 10,
        Query::ReportsProverState => 10,
    }
}

/// Tells whether `event` answers the question `query`.
pub fn event_answers(query: Query, event: &Event) -> (r: bool)
    ensures
        r == answers(query, event@),
{
    match query {
        Query::NamesTask => match event.worker {
            Worker::Prover(_) | Worker::TaskFetcher => extract_task_id(event.msg.as_str()).is_some(),
            Worker::ProofSubmitter => false,
        },
        Query::DeclaresBackoff => match event.worker {
            Worker::TaskFetcher => extract_backoff(event.msg.as_str()).is_some(),
            _ => false,
        },
        Query::RequestsTask => match event.worker {
            Worker::TaskFetcher => {
                let msg = to_chars(event.msg.as_str());
                let requesting = to_chars(REQUESTING_TASK);
                contains(msg.as_slice(), requesting.as_slice())
            },
            _ => false,
        },
        Query::ReportsProverState => match event.event_type {
            EventType::StateChange => event.prover_state.is_some(),
            _ => false,
        },
    }
}

/// Finds the newest event within the window of `query` that answers it.
pub fn find_latest(events: &Vec<Event>, query: Query) -> (found: Option<usize>)
    ensures
        as_position(found) == latest(models(events@), query),
        found matches Some(at) ==> at < events@.len() && answers(query, events@[at as int]@)
            && is_latest(models(events@), query, at as int),
{
    let len: usize = events.len();
    let width: usize = window_width(query);
    let start: usize = if len > width {
        len - width
    } else {
        0
    };
    let ghost log = models(events@);
    let mut at: usize = len;
    while at > start
        invariant
            start <= at <= len,
            len == events@.len(),
            start == window_start(len as int, width_of(query)),
            log == models(events@),
            forall|j: int| at <= j < len ==> !answers(query, #[trigger] log[j]),
        decreases at,
    {
        at -= 1;
        if event_answers(query, &events[at]) {
            proof {
                assert(log[at as int] == events@[at as int]@);
                lemma_latest_found(log, query, at as int);
            }
            return Some(at);
        }
    }
    proof {
        lemma_latest_missing(log, query);
    }
    None
}

} // verus!
