//! What holds of the dashboard whatever the log, the clock and the samples.
//!
//! Each law is stated over the models that the update methods' contracts use,
//! so it holds of every snapshot those methods produce.

use vstd::prelude::*;
use crate::backoff::after_backoff;
use crate::clock::{whole_secs_between, Moment, NANOS_PER_SEC};
use crate::current_task::after_current_task;
use crate::cycle::{after_sample, after_tick, cycle};
use crate::event::EventModel;
use crate::fetching::{
    concludes_fetch, fetch_concluded, fetch_concluded_among, has_timed_out,
    lemma_conclusion_after_other_event, next_fetching_state, CONCLUSION_WINDOW,
    FETCH_TIMEOUT_SECS,
};
use crate::message::declared_backoff;
use crate::metrics::{FetchingState, SystemMetrics, TaskFetchInfo, POINTS_PER_SUBMISSION};
use crate::state::StateModel;
use crate::throughput::{
    after_throughput, completed_fetches, lemma_replay_counts_events, submissions, lemma_counts_of_replay, lemma_replay_adds_no_time,
    lemma_replay_leaves_timer_fresh, lemma_replay_never_loses_time, lemma_status_of_replay,
    lemma_tally_push, lemma_timer_running_settles, opening_tally, signal_of, status_after, tally, timer_runs_after,
};
use crate::window::{answers, latest, lemma_latest_skips_other_events, width_of, Query};

verus! {

/// What one tick brings: the events that arrived since the last one, the clock
/// reading and the resource sample.
pub struct Tick {
    pub arrivals: Seq<EventModel>,
    pub now: Moment,
    pub sample: SystemMetrics,
}

/// The snapshot with `arrivals` appended to its log.
pub open spec fn with_arrivals(s: StateModel, arrivals: Seq<EventModel>) -> StateModel {
    StateModel { events: s.events + arrivals, ..s }
}

/// The snapshot after the ticks of `ticks`, first to last: before each cycle
/// the tick's arrivals are appended to the log.
pub open spec fn run(s: StateModel, ticks: Seq<Tick>) -> StateModel
    decreases ticks.len(),
{
    if ticks.len() == 0 {
        s
    } else {
        let tick = ticks.last();
        cycle(with_arrivals(run(s, ticks.drop_last()), tick.arrivals), tick.now, tick.sample)
    }
}

/// One cycle counts exactly one tick, and neither the proving time nor the
/// peak memory falls. The log is left as it was.
pub proof fn law_cycle_never_goes_back(s: StateModel, now: Moment, sample: SystemMetrics)
    ensures
        cycle(s, now, sample).tick == s.tick + 1,
        cycle(s, now, sample).accumulated_runtime_secs >= s.accumulated_runtime_secs,
        cycle(s, now, sample).system_metrics.peak_ram_bytes >= s.system_metrics.peak_ram_bytes,
        cycle(s, now, sample).events == s.events,
{
    let before = after_sample(after_current_task(after_tick(s)), sample);
    lemma_replay_never_loses_time(before.events, opening_tally(before), now);
}

/// Over any sequence of ticks, whatever events arrive, whatever the clock
/// reads and whatever the sampler reports, the tick counter, the proving time
/// and the peak memory of a later snapshot are never below those of an
/// earlier one.
pub proof fn law_run_never_goes_back(s: StateModel, ticks: Seq<Tick>, earlier: int, later: int)
    requires
        0 <= earlier <= later <= ticks.len(),
    ensures
        run(s, ticks.take(later)).tick == run(s, ticks.take(earlier)).tick + (later - earlier),
        run(s, ticks.take(later)).accumulated_runtime_secs >= run(
            s,
            ticks.take(earlier),
        ).accumulated_runtime_secs,
        run(s, ticks.take(later)).system_metrics.peak_ram_bytes >= run(
            s,
            ticks.take(earlier),
        ).system_metrics.peak_ram_bytes,
    decreases later - earlier,
{
    if earlier < later {
        law_run_never_goes_back(s, ticks, earlier, later - 1);
        assert(ticks.take(later).drop_last() =~= ticks.take(later - 1));
        let tick = ticks.take(later).last();
        let before = with_arrivals(run(s, ticks.take(later - 1)), tick.arrivals);
        law_cycle_never_goes_back(before, tick.now, tick.sample);
    }
}

/// A second cycle would restart a fetch that the first one lets time out: the
/// fetch held active has been outstanding for more than the timeout at `now`,
/// none of the fetcher's newest events ends a fetch, and the request is still
/// in view.
pub open spec fn fetch_restarts(s: StateModel, now: Moment) -> bool {
    &&& s.fetching_state is Active
    &&& has_timed_out(s.fetching_state->started_at, now)
    &&& !fetch_concluded(s.events)
    &&& latest(s.events, Query::RequestsTask) is Some
}

/// The outcome that a replay reports hinges on a timer carried over from
/// before, and the replay does not leave the timer as it found it: running
/// if it ran, stopped if it was stopped.
pub open spec fn status_unsettled(s: StateModel) -> bool {
    let running = s.proving_started_at is Some;
    &&& timer_runs_after(s.events, running) != running
    &&& status_after(s.events, true) != status_after(s.events, false)
}

/// Two cycles in a row over the same log, with the same clock reading, agree
/// on the current task, on every count, on the points and on the proving
/// time. They agree on the fetching state unless the second restarts a fetch
/// that the first let time out, and on the last outcome unless it hinges on a
/// timer carried over.
pub proof fn law_recompute_differs_only_by_carried_state(
    s: StateModel,
    now: Moment,
    first: SystemMetrics,
    second: SystemMetrics,
)
    ensures
        ({
            let once = cycle(s, now, first);
            let twice = cycle(once, now, second);
            &&& twice.current_task == once.current_task
            &&& twice.zkvm_metrics.tasks_executed == once.zkvm_metrics.tasks_executed
            &&& twice.zkvm_metrics.tasks_proved == once.zkvm_metrics.tasks_proved
            &&& twice.zkvm_metrics.total_points == once.zkvm_metrics.total_points
            &&& twice.zkvm_metrics.zkvm_runtime_secs == once.zkvm_metrics.zkvm_runtime_secs
            &&& twice.accumulated_runtime_secs == once.accumulated_runtime_secs
            &&& twice.fetching_state == once.fetching_state <==> !fetch_restarts(s, now)
            &&& twice.zkvm_metrics == once.zkvm_metrics <==> !status_unsettled(s)
        }),
{
    let once = cycle(s, now, first);
    let log = s.events;
    let start = opening_tally(s);
    let again = opening_tally(once);
    assert(once.events == log);
    lemma_counts_of_replay(log, start, again, now);
    lemma_replay_leaves_timer_fresh(log, start, now);
    lemma_replay_adds_no_time(log, again, now);
    lemma_status_of_replay(log, start, now);
    lemma_status_of_replay(log, again, now);
}

/// Recomputing is idempotent: two cycles in a row over the same log, with the
/// same clock reading, publish the same throughput figures, the same current
/// task and the same fetching state.
///
/// Left out are the snapshots whose carried state the first cycle uses up: a
/// fetch that it lets time out while the request is still in view, and a
/// timer on which the last outcome hinges.
pub proof fn law_recompute_is_idempotent(
    s: StateModel,
    now: Moment,
    first: SystemMetrics,
    second: SystemMetrics,
)
    requires
        !fetch_restarts(s, now),
        !status_unsettled(s),
    ensures
        cycle(cycle(s, now, first), now, second).zkvm_metrics == cycle(s, now, first).zkvm_metrics,
        cycle(cycle(s, now, first), now, second).current_task == cycle(s, now, first).current_task,
        cycle(cycle(s, now, first), now, second).fetching_state == cycle(
            s,
            now,
            first,
        ).fetching_state,
{
    law_recompute_differs_only_by_carried_state(s, now, first, second);
}

/// From the second cycle on, recomputing is idempotent without exception: a
/// third cycle over the same log, with the same clock reading, changes none of
/// the throughput figures, the current task or the fetching state.
pub proof fn law_recompute_settles(
    s: StateModel,
    now: Moment,
    first: SystemMetrics,
    second: SystemMetrics,
    third: SystemMetrics,
)
    ensures
        ({
            let twice = cycle(cycle(s, now, first), now, second);
            let thrice = cycle(twice, now, third);
            &&& thrice.zkvm_metrics == twice.zkvm_metrics
            &&& thrice.current_task == twice.current_task
            &&& thrice.fetching_state == twice.fetching_state
        }),
{
    let once = cycle(s, now, first);
    assert(once.events == s.events);
    assert(once.fetching_state == next_fetching_state(s.events, s.fetching_state, now));
    lemma_status_of_replay(s.events, opening_tally(s), now);
    lemma_timer_running_settles(s.events, s.proving_started_at is Some);
    law_recompute_differs_only_by_carried_state(once, now, second, third);
}

/// While the fetcher keeps declaring the backoff that is being followed, the
/// anchor stays, the length stays, and the elapsed time is measured from the
/// anchor; a fetch is allowed exactly when the elapsed time has reached the
/// length.
pub proof fn law_backoff_continues(s: StateModel, now: Moment, began: Moment, secs: u64)
    requires
        latest(s.events, Query::DeclaresBackoff) is Some,
        declared_backoff(s.events[latest(s.events, Query::DeclaresBackoff).unwrap()].message)
            == Some(secs),
        s.waiting_start_info == Some((began, secs)),
    ensures
        after_backoff(s, now).waiting_start_info == Some((began, secs)),
        after_backoff(s, now).task_fetch_info.backoff_duration_secs == secs,
        after_backoff(s, now).task_fetch_info.time_since_last_fetch_secs == whole_secs_between(
            began,
            now,
        ),
        after_backoff(s, now).task_fetch_info.can_fetch_now <==> whole_secs_between(began, now)
            >= secs,
{
}

/// A backoff of another length than the one followed, or the first one
/// declared, is a new backoff: it is anchored at `now`, so that no time has
/// elapsed, and it has the length declared.
pub proof fn law_backoff_resets_on_change(s: StateModel, now: Moment, secs: u64)
    requires
        latest(s.events, Query::DeclaresBackoff) is Some,
        declared_backoff(s.events[latest(s.events, Query::DeclaresBackoff).unwrap()].message)
            == Some(secs),
        s.waiting_start_info matches Some((_, length)) ==> length != secs,
    ensures
        after_backoff(s, now).waiting_start_info == Some((now, secs)),
        after_backoff(s, now).task_fetch_info == (TaskFetchInfo {
            backoff_duration_secs: secs,
            time_since_last_fetch_secs: 0,
            can_fetch_now: secs == 0,
        }),
{
}

/// Without a backoff declared within the window a fetch may start at once.
pub proof fn law_no_backoff_in_view(s: StateModel, now: Moment)
    requires
        latest(s.events, Query::DeclaresBackoff) is None,
    ensures
        after_backoff(s, now).task_fetch_info == TaskFetchInfo::unrestricted(),
        after_backoff(s, now).waiting_start_info == s.waiting_start_info,
{
}

/// The elapsed time follows the clock: it never falls while the clock
/// advances, and `secs` whole seconds later it is `secs` larger.
pub proof fn law_elapsed_time_follows_clock(anchor: Moment, now: Moment, later: Moment, secs: nat)
    requires
        anchor.nanos <= now.nanos <= later.nanos,
    ensures
        whole_secs_between(anchor, now) <= whole_secs_between(anchor, later),
        later.nanos == now.nanos + secs * NANOS_PER_SEC ==> whole_secs_between(anchor, later)
            == whole_secs_between(anchor, now) + secs,
{
    let span = now.nanos - anchor.nanos;
    let unit = NANOS_PER_SEC as nat;
    if later.nanos == now.nanos + secs * NANOS_PER_SEC {
        vstd::arithmetic::div_mod::lemma_hoist_over_denominator(span, secs as int, unit);
    }
}

/// The fetch state machine, rule by rule: a fetch that just ended leaves the
/// fetcher idle, whatever was before; else a request seen while no fetch is
/// active starts one at `now`; else an active fetch outstanding for more than
/// the timeout, to the nanosecond, has timed out; and nothing else ever
/// changes the state.
pub proof fn law_fetch_state_machine(
    events: Seq<EventModel>,
    current: FetchingState,
    now: Moment,
)
    ensures
        fetch_concluded(events) ==> next_fetching_state(events, current, now)
            == FetchingState::Idle,
        !fetch_concluded(events) && !(current is Active) && latest(
            events,
            Query::RequestsTask,
        ) is Some ==> next_fetching_state(events, current, now) == (FetchingState::Active {
            started_at: now,
        }),
        !fetch_concluded(events) && current is Active && has_timed_out(
            current->started_at,
            now,
        ) ==> next_fetching_state(events, current, now) == FetchingState::Timeout,
        !fetch_concluded(events) && current is Active && !has_timed_out(
            current->started_at,
            now,
        ) ==> next_fetching_state(events, current, now) == current,
        current is Active ==> (has_timed_out(current->started_at, now) <==> now.nanos
            - current->started_at.nanos > FETCH_TIMEOUT_SECS * NANOS_PER_SEC),
        !fetch_concluded(events) && !(current is Active) && latest(
            events,
            Query::RequestsTask,
        ) is None ==> next_fetching_state(events, current, now) == current,
{
}

/// Events of other workers never push a report of an ended fetch out of view:
/// however many of them follow, the fetcher's five newest events are the same.
pub proof fn law_other_workers_do_not_hide_conclusion(
    events: Seq<EventModel>,
    others: Seq<EventModel>,
)
    requires
        forall|i: int| 0 <= i < others.len() ==> !((#[trigger] others[i]).worker is TaskFetcher),
    ensures
        fetch_concluded(events + others) == fetch_concluded(events),
    decreases others.len(),
{
    if others.len() == 0 {
        assert(events + others =~= events);
    } else {
        let before = others.drop_last();
        assert forall|i: int| 0 <= i < before.len() implies !((#[trigger] before[i]).worker
            is TaskFetcher) by {
            assert(before[i] == others[i]);
        }
        law_other_workers_do_not_hide_conclusion(events, before);
        assert((events + before).push(others.last()) =~= events + others);
        lemma_conclusion_after_other_event(events + before, others.last());
    }
}

/// Every submitted proof earns the same points: as long as the product fits
/// in 64 bits, the points are the tasks proved times the points for one. No
/// more tasks count as proved than as executed.
pub proof fn law_points_follow_submissions(s: StateModel, now: Moment)
    ensures
        ({
            let m = after_throughput(s, now).zkvm_metrics;
            &&& m.tasks_proved <= m.tasks_executed
            &&& m.tasks_proved * POINTS_PER_SUBMISSION <= u64::MAX ==> m.total_points
                == m.tasks_proved * POINTS_PER_SUBMISSION
            &&& m.tasks_proved * POINTS_PER_SUBMISSION > u64::MAX ==> m.total_points == u64::MAX
        }),
{
}

/// The tasks proved are as many as the log has events that report a submitted
/// proof, and the tasks executed are the larger of that number and the number
/// of events that report a completed fetch. The last submission's timestamp is
/// that of the newest such event, or stays as it was where the log has none.
pub proof fn law_counts_are_event_counts(s: StateModel, now: Moment)
    requires
        s.events.len() <= usize::MAX,
    ensures
        ({
            let after = after_throughput(s, now);
            let fetched = completed_fetches(s.events).len();
            let submitted = submissions(s.events).len();
            &&& after.zkvm_metrics.tasks_proved == submitted
            &&& after.zkvm_metrics.tasks_executed == if submitted >= fetched {
                submitted
            } else {
                fetched
            }
            &&& after.last_submission_timestamp == if submitted == 0 {
                s.last_submission_timestamp
            } else {
                Some(submissions(s.events).last().timestamp)
            }
        }),
{
    lemma_replay_counts_events(s.events, opening_tally(s), now);
    s.events.lemma_filter_len(|e: EventModel| signal_of(e) is FetchCompleted);
    s.events.lemma_filter_len(|e: EventModel| signal_of(e) is ProofSubmitted);
}

/// Each event that reports a submitted proof adds one to the submissions and
/// leaves the fetches alone, and each that reports a completed fetch does the
/// reverse; no other event moves either count.
pub proof fn law_counts_follow_signals(
    events: Seq<EventModel>,
    e: EventModel,
    start: crate::throughput::Tally,
    now: Moment,
)
    ensures
        ({
            let before = tally(events, start, now);
            let after = tally(events.push(e), start, now);
            &&& after.submitted == before.submitted + if signal_of(e) is ProofSubmitted {
                1nat
            } else {
                0nat
            }
            &&& after.fetched == before.fetched + if signal_of(e) is FetchCompleted {
                1nat
            } else {
                0nat
            }
        }),
{
    lemma_tally_push(events, e, start, now);
}

/// The event `e` is of no recognised shape: it means nothing to the
/// aggregator, answers none of the trackers' questions and ends no fetch.
pub open spec fn is_unrecognized(e: EventModel) -> bool {
    &&& signal_of(e) is Nothing
    &&& forall|query: Query| !answers(query, e)
    &&& !concludes_fetch(e)
}

/// No question of the trackers is answered, within its window, by the oldest
/// event of that window alone.
pub open spec fn no_answer_about_to_leave(events: Seq<EventModel>) -> bool {
    forall|query: Query| #[trigger] latest(events, query) != Some(events.len() - width_of(query))
}

/// Whether a fetch has just ended does not rest on the oldest of the
/// fetcher's five newest events alone.
pub open spec fn no_conclusion_about_to_leave(events: Seq<EventModel>) -> bool {
    fetch_concluded_among(events, CONCLUSION_WINDOW - 1) == fetch_concluded(events)
}

/// An event of no recognised shape is ignored: with it appended to the log, a
/// cycle publishes what it publishes without it.
///
/// Left out are the logs in which the event pushes the only answer to some
/// question out of that question's window, and those in which an event of
/// the fetcher pushes the only report of an ended fetch out of the fetcher's
/// five newest events.
pub proof fn law_unrecognized_event_is_ignored(
    s: StateModel,
    e: EventModel,
    now: Moment,
    sample: SystemMetrics,
)
    requires
        is_unrecognized(e),
        no_answer_about_to_leave(s.events),
        e.worker is TaskFetcher ==> no_conclusion_about_to_leave(s.events),
    ensures
        cycle(StateModel { events: s.events.push(e), ..s }, now, sample) == (StateModel {
            events: s.events.push(e),
            ..cycle(s, now, sample)
        }),
{
    let longer = StateModel { events: s.events.push(e), ..s };
    lemma_latest_skips_other_events(s.events, e, Query::NamesTask);
    lemma_latest_skips_other_events(s.events, e, Query::DeclaresBackoff);
    lemma_conclusion_after_other_event(s.events, e);
    lemma_latest_skips_other_events(s.events, e, Query::RequestsTask);
    lemma_latest_skips_other_events(s.events, e, Query::ReportsProverState);
    crate::window::lemma_latest_answers(s.events, Query::NamesTask);
    crate::window::lemma_latest_answers(s.events, Query::DeclaresBackoff);
    crate::window::lemma_latest_answers(s.events, Query::ReportsProverState);
    let before = after_sample(after_current_task(after_tick(s)), sample);
    lemma_tally_push(s.events, e, opening_tally(before), now);
}

/// The aggregator ignores an event that means nothing to it, wherever in the
/// log's future it arrives: the tally with it is the tally without it.
pub proof fn law_aggregator_ignores_other_events(
    events: Seq<EventModel>,
    e: EventModel,
    start: crate::throughput::Tally,
    now: Moment,
)
    requires
        signal_of(e) is Nothing,
    ensures
        tally(events.push(e), start, now) == tally(events, start, now),
{
    lemma_tally_push(events, e, start, now);
}

} // verus!
