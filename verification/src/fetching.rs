//! Whether a fetch request is outstanding.

use vstd::prelude::*;
use crate::clock::{nanos_between, Moment, NANOS_PER_SEC};
use crate::event::{models, Event, EventModel, EventType, Worker};
use crate::message::STEP_ONE;
use crate::metrics::FetchingState;
use crate::state::{DashboardState, StateModel};
use crate::text::{contains, contains_text, to_chars};
use crate::window::{find_latest, latest, window_start, Query};

verus! {

/// Seconds after which an unanswered fetch request counts as timed out.
pub const FETCH_TIMEOUT_SECS: u64 = 5;

/// How many of the fetcher's newest events are asked whether a fetch has ended.
pub const CONCLUSION_WINDOW: usize = 5;

/// A fetch that started at `started_at` has, at `now`, been outstanding for
/// more than the timeout. The comparison is exact, not in whole seconds.
pub open spec fn has_timed_out(started_at: Moment, now: Moment) -> bool {
    nanos_between(started_at, now) > FETCH_TIMEOUT_SECS * NANOS_PER_SEC
}

/// The event `e` reports that a fetch has ended, well or badly: it comes from
/// the fetcher, is a success or an error, and is not the mere request.
pub open spec fn concludes_fetch(e: EventModel) -> bool {
    &&& e.worker is TaskFetcher
    &&& e.event_type is Success || e.event_type is Error
    &&& !contains_text(e.message, STEP_ONE@)
}

/// The events of `events` that the fetcher emitted, in the log's order.
pub open spec fn fetcher_events(events: Seq<EventModel>) -> Seq<EventModel> {
    events.filter(|e: EventModel| e.worker is TaskFetcher)
}

/// One of the fetcher's `count` newest events reports that a fetch has ended.
/// Events of other workers do not count towards `count`.
pub open spec fn fetch_concluded_among(events: Seq<EventModel>, count: int) -> bool {
    let fetched = fetcher_events(events);
    exists|i: int|
        window_start(fetched.len() as int, count) <= i < fetched.len() && concludes_fetch(
            #[trigger] fetched[i],
        )
}

/// A fetch has just ended: one of the fetcher's five newest events says so.
pub open spec fn fetch_concluded(events: Seq<EventModel>) -> bool {
    fetch_concluded_among(events, CONCLUSION_WINDOW as int)
}

/// What a scan from the newest event back finds, while it may still look at
/// `budget` events of the fetcher.
pub open spec fn concluded_scanning_back(events: Seq<EventModel>, budget: nat) -> bool
    decreases events.len(),
{
    if events.len() == 0 || budget == 0 {
        false
    } else if events.last().worker is TaskFetcher {
        concludes_fetch(events.last()) || concluded_scanning_back(
            events.drop_last(),
            (budget - 1) as nat,
        )
    } else {
        concluded_scanning_back(events.drop_last(), budget)
    }
}

/// The scan from the newest event back finds exactly what the fetcher's
/// newest events hold.
pub proof fn lemma_scanning_back(events: Seq<EventModel>, budget: nat)
    ensures
        concluded_scanning_back(events, budget) == fetch_concluded_among(events, budget as int),
    decreases events.len(),
{
    reveal(Seq::filter);
    let fetched = fetcher_events(events);
    if events.len() == 0 {
        assert(fetched.len() == 0);
    } else {
        let before = events.drop_last();
        let e = events.last();
        let earlier = fetcher_events(before);
        if e.worker is TaskFetcher {
            assert(fetched == earlier.push(e));
            if budget > 0 {
                lemma_scanning_back(before, (budget - 1) as nat);
                if fetch_concluded_among(events, budget as int) && !concludes_fetch(e) {
                    let i = choose|i: int|
                        window_start(fetched.len() as int, budget as int) <= i < fetched.len()
                            && concludes_fetch(#[trigger] fetched[i]);
                    assert(earlier[i] == fetched[i]);
                }
                if concludes_fetch(e) {
                    assert(fetched[fetched.len() - 1] == e);
                }
                if fetch_concluded_among(before, budget - 1) {
                    let i = choose|i: int|
                        window_start(earlier.len() as int, budget - 1) <= i < earlier.len()
                            && concludes_fetch(#[trigger] earlier[i]);
                    assert(fetched[i] == earlier[i]);
                }
            }
        } else {
            assert(fetched == earlier);
            lemma_scanning_back(before, budget);
        }
    }
}

/// One more event that does not itself end a fetch: if the fetcher emitted
/// it, it takes one place among the fetcher's five newest events; if another
/// worker did, nothing changes.
pub proof fn lemma_conclusion_after_other_event(events: Seq<EventModel>, e: EventModel)
    requires
        !concludes_fetch(e),
    ensures
        fetch_concluded(events.push(e)) == if e.worker is TaskFetcher {
            fetch_concluded_among(events, CONCLUSION_WINDOW - 1)
        } else {
            fetch_concluded(events)
        },
{
    assert(events.push(e).drop_last() =~= events);
    lemma_scanning_back(events.push(e), CONCLUSION_WINDOW as nat);
    lemma_scanning_back(events, CONCLUSION_WINDOW as nat);
    lemma_scanning_back(events, (CONCLUSION_WINDOW - 1) as nat);
}

/// The fetching state that follows `current` when the clock reads `now`.
///
/// In this order: a fetch that just ended leaves the fetcher idle; a request,
/// seen while no fetch is active, starts one at `now`; an active fetch
/// outstanding for more than the timeout has timed out. Otherwise nothing
/// changes. A request seen again while its fetch is active does not restart it.
pub open spec fn next_fetching_state(
    events: Seq<EventModel>,
    current: FetchingState,
    now: Moment,
) -> FetchingState {
    if fetch_concluded(events) {
        FetchingState::Idle
    } else if !(current is Active) && latest(events, Query::RequestsTask) is Some {
        FetchingState::Active { started_at: now }
    } else {
        match current {
            FetchingState::Active { started_at } => if has_timed_out(started_at, now) {
                FetchingState::Timeout
            } else {
                current
            },
            _ => current,
        }
    }
}

/// The snapshot after the fetch state machine has run at `now`.
pub open spec fn after_fetching(s: StateModel, now: Moment) -> StateModel {
    StateModel { fetching_state: next_fetching_state(s.events, s.fetching_state, now), ..s }
}

/// Tells whether `event` reports that a fetch has ended.
pub fn event_concludes_fetch(event: &Event) -> (r: bool)
    ensures
        r == concludes_fetch(event@),
{
    match (event.worker, event.event_type) {
        (Worker::TaskFetcher, EventType::Success) | (Worker::TaskFetcher, EventType::Error) => {
            let msg = to_chars(event.msg.as_str());
            let step_one = to_chars(STEP_ONE);
            !contains(msg.as_slice(), step_one.as_slice())
        },
        _ => false,
    }
}

/// Tells whether one of the fetcher's five newest events reports that a fetch
/// has ended.
pub fn fetch_has_concluded(events: &Vec<Event>) -> (r: bool)
    ensures
        r == fetch_concluded(models(events@)),
{
    let ghost log = models(events@);
    let mut at: usize = events.len();
    let mut budget: usize = CONCLUSION_WINDOW;
    proof {
        assert(log.take(at as int) =~= log);
        lemma_scanning_back(log, CONCLUSION_WINDOW as nat);
    }
    while at > 0 && budget > 0
        invariant
            at <= events@.len(),
            budget <= CONCLUSION_WINDOW,
            log == models(events@),
            fetch_concluded(log) == concluded_scanning_back(log.take(at as int), budget as nat),
        decreases at,
    {
        at -= 1;
        proof {
            assert(log.take(at + 1).drop_last() =~= log.take(at as int));
            assert(log.take(at + 1).last() == events@[at as int]@);
        }
        match events[at].worker {
            Worker::TaskFetcher => {
                if event_concludes_fetch(&events[at]) {
                    return true;
                }
                budget -= 1;
            },
            _ => {},
        }
    }
    false
}

impl DashboardState {
    /// Advances the fetch state machine, with the clock reading `now`.
    pub fn update_fetching_state(&mut self, now: Moment)
        ensures
            final(self)@ == after_fetching(old(self)@, now),
    {
        if fetch_has_concluded(&self.events) {
            self.fetching_state = FetchingState::Idle;
            return;
        }
        match self.fetching_state {
            FetchingState::Active { started_at } => {
                if now.nanos_since(started_at) > FETCH_TIMEOUT_SECS * NANOS_PER_SEC {
                    self.fetching_state = FetchingState::Timeout;
                }
            },
            _ => {
                if find_latest(&self.events, Query::RequestsTask).is_some() {
                    self.fetching_state = FetchingState::Active { started_at: now };
                }
            },
        }
    }
}

} // verus!
