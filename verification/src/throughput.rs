//! Throughput and proving time, recomputed from the whole log.
//!
//! Unlike the windowed trackers, the aggregator replays every retained event on
//! every tick, so that its counts never depend on how far any window reaches.

use vstd::prelude::*;
use crate::clock::{whole_secs_between, Moment};
use crate::event::{models, Event, EventModel, EventType, Worker};
use crate::message::{
    PROOF_GENERATED, PROOF_SUBMITTED, PROVING_TASK, RATE_LIMITED, RETRYING, STEP_ONE,
};
use crate::metrics::{points_for, summarize, TaskStatus, ZkVMMetrics};
use crate::state::{DashboardState, StateModel};
use crate::text::{contains, contains_text, to_chars};

verus! {

/// What an event means to the aggregator.
#[derive(Clone, Copy, Debug, PartialEq, Eq, Structural)]
pub enum Signal {
    /// The fetcher obtained a task.
    FetchCompleted,
    /// A prover started on a task.
    ProvingBegan,
    /// A prover finished a proof.
    ProofGenerated,
    /// A prover failed.
    ProofFailed,
    /// The submitter handed in a proof.
    ProofSubmitted,
    /// The submitter failed.
    SubmitFailed,
    /// The event carries nothing that is counted.
    Nothing,
}

/// What the event `e` means to the aggregator.
///
/// A fetcher success counts as a completed fetch unless it reports a rate
/// limit, a retry or the mere request. Messages of no recognised shape mean
/// nothing.
pub open spec fn signal_of(e: EventModel) -> Signal {
    match e.worker {
        Worker::TaskFetcher => {
            if e.event_type is Success && !contains_text(e.message, RATE_LIMITED@)
                && !contains_text(e.message, RETRYING@) && !contains_text(e.message, STEP_ONE@) {
                Signal::FetchCompleted
            } else {
                Signal::Nothing
            }
        },
        Worker::Prover(_) => {
            if e.event_type is Success {
                if contains_text(e.message, PROVING_TASK@) {
                    Signal::ProvingBegan
                } else if contains_text(e.message, PROOF_GENERATED@) {
                    Signal::ProofGenerated
                } else {
                    Signal::Nothing
                }
            } else if e.event_type is Error {
                Signal::ProofFailed
            } else {
                Signal::Nothing
            }
        },
        Worker::ProofSubmitter => {
            if e.event_type is Success && contains_text(e.message, PROOF_SUBMITTED@) {
                Signal::ProofSubmitted
            } else if e.event_type is Error {
                Signal::SubmitFailed
            } else {
                Signal::Nothing
            }
        },
    }
}

/// What the aggregator has gathered after some prefix of the log.
pub struct Tally {
    /// Completed fetches.
    pub fetched: nat,
    /// Submitted proofs.
    pub submitted: nat,
    /// The outcome reported last.
    pub status: TaskStatus,
    /// When the proof now under way began, as far as the aggregator saw it begin.
    pub proving_started_at: Option<Moment>,
    /// Seconds spent proving.
    pub runtime_secs: u64,
    /// The timestamp of the newest submission.
    pub last_submission: Option<Seq<char>>,
}

/// The sum of two durations, held at the largest value 64 bits can carry.
pub open spec fn saturating_sum(a: u64, b: u64) -> u64 {
    if a + b > u64::MAX {
        u64::MAX
    } else {
        (a + b) as u64
    }
}

/// The tally after one more event, replayed while the clock reads `now`.
///
/// A proof that begins starts the timer at `now`. A generated proof stops a
/// running timer, adds the whole seconds it ran to the proving time and
/// reports `Proved`; without a running timer it changes nothing.
pub open spec fn tally_event(t: Tally, e: EventModel, now: Moment) -> Tally {
    match signal_of(e) {
        Signal::FetchCompleted => Tally { fetched: t.fetched + 1, ..t },
        Signal::ProvingBegan => Tally { proving_started_at: Some(now), ..t },
        Signal::ProofGenerated => match t.proving_started_at {
            Some(began) => Tally {
                proving_started_at: None,
                runtime_secs: saturating_sum(t.runtime_secs, whole_secs_between(began, now)),
                status: TaskStatus::Proved,
                ..t
            },
            None => t,
        },
        Signal::ProofFailed => Tally { status: TaskStatus::ProofFailed, ..t },
        Signal::ProofSubmitted => Tally {
            submitted: t.submitted + 1,
            status: TaskStatus::Success,
            last_submission: Some(e.timestamp),
            ..t
        },
        Signal::SubmitFailed => Tally { status: TaskStatus::SubmitFailed, ..t },
        Signal::Nothing => t,
    }
}

/// The tally after the events of `events`, oldest first, starting from `start`.
pub open spec fn tally(events: Seq<EventModel>, start: Tally, now: Moment) -> Tally
    decreases events.len(),
{
    if events.len() == 0 {
        start
    } else {
        tally_event(tally(events.drop_last(), start, now), events.last(), now)
    }
}

/// The tally that a replay starts from: nothing counted yet, the timer and the
/// proving time as the previous tick left them.
pub open spec fn opening_tally(s: StateModel) -> Tally {
    Tally {
        fetched: 0,
        submitted: 0,
        status: TaskStatus::NoneYet,
        proving_started_at: s.proving_started_at,
        runtime_secs: s.accumulated_runtime_secs,
        last_submission: s.last_submission_timestamp,
    }
}

/// The snapshot after the aggregator has replayed the log at `now`.
pub open spec fn after_throughput(s: StateModel, now: Moment) -> StateModel {
    let t = tally(s.events, opening_tally(s), now);
    StateModel {
        zkvm_metrics: summarize(t.fetched as usize, t.submitted as usize, t.runtime_secs, t.status),
        proving_started_at: t.proving_started_at,
        accumulated_runtime_secs: t.runtime_secs,
        last_submission_timestamp: t.last_submission,
        ..s
    }
}

/// The events of `events` that report a completed fetch.
pub open spec fn completed_fetches(events: Seq<EventModel>) -> Seq<EventModel> {
    events.filter(|e: EventModel| signal_of(e) is FetchCompleted)
}

/// The events of `events` that report a submitted proof.
pub open spec fn submissions(events: Seq<EventModel>) -> Seq<EventModel> {
    events.filter(|e: EventModel| signal_of(e) is ProofSubmitted)
}

/// A replay counts the events that report a completed fetch and those that
/// report a submitted proof, and keeps the timestamp of the newest submission.
pub proof fn lemma_replay_counts_events(events: Seq<EventModel>, start: Tally, now: Moment)
    ensures
        tally(events, start, now).fetched == start.fetched + completed_fetches(events).len(),
        tally(events, start, now).submitted == start.submitted + submissions(events).len(),
        tally(events, start, now).last_submission == if submissions(events).len() == 0 {
            start.last_submission
        } else {
            Some(submissions(events).last().timestamp)
        },
    decreases events.len(),
{
    reveal(Seq::filter);
    if events.len() > 0 {
        lemma_replay_counts_events(events.drop_last(), start, now);
    }
}

/// Replaying one more event extends the tally by that event.
pub proof fn lemma_tally_push(events: Seq<EventModel>, e: EventModel, start: Tally, now: Moment)
    ensures
        tally(events.push(e), start, now) == tally_event(tally(events, start, now), e, now),
{
    assert(events.push(e).drop_last() =~= events);
}

/// The event `e` starts or stops the proving timer.
pub open spec fn moves_timer(e: EventModel) -> bool {
    signal_of(e) is ProvingBegan || signal_of(e) is ProofGenerated
}

/// No event of `events` starts or stops the proving timer.
pub open spec fn leaves_timer_alone(events: Seq<EventModel>) -> bool {
    forall|i: int| 0 <= i < events.len() ==> !moves_timer(#[trigger] events[i])
}

/// A timer that a replay at `now` cannot draw time from: it is stopped, or it
/// was started at `now` itself.
pub open spec fn is_fresh(timer: Option<Moment>, now: Moment) -> bool {
    timer is None || timer == Some(now)
}

/// Whether the proving timer runs after a replay of `events`, given whether it
/// ran before.
pub open spec fn timer_runs_after(events: Seq<EventModel>, running: bool) -> bool
    decreases events.len(),
{
    if events.len() == 0 {
        running
    } else {
        match signal_of(events.last()) {
            Signal::ProvingBegan => true,
            Signal::ProofGenerated => false,
            _ => timer_runs_after(events.drop_last(), running),
        }
    }
}

/// The outcome that a replay of `events` reports last, given whether the
/// proving timer ran before.
pub open spec fn status_after(events: Seq<EventModel>, running: bool) -> TaskStatus
    decreases events.len(),
{
    if events.len() == 0 {
        TaskStatus::NoneYet
    } else {
        let before = events.drop_last();
        match signal_of(events.last()) {
            Signal::ProofGenerated => if timer_runs_after(before, running) {
                TaskStatus::Proved
            } else {
                status_after(before, running)
            },
            Signal::ProofFailed => TaskStatus::ProofFailed,
            Signal::ProofSubmitted => TaskStatus::Success,
            Signal::SubmitFailed => TaskStatus::SubmitFailed,
            _ => status_after(before, running),
        }
    }
}

/// The outcome and the timer's running depend on nothing of the opening
/// tally but on whether its timer ran.
pub proof fn lemma_status_of_replay(events: Seq<EventModel>, start: Tally, now: Moment)
    requires
        start.status == TaskStatus::NoneYet,
    ensures
        tally(events, start, now).status == status_after(events, start.proving_started_at is Some),
        tally(events, start, now).proving_started_at is Some <==> timer_runs_after(
            events,
            start.proving_started_at is Some,
        ),
    decreases events.len(),
{
    if events.len() > 0 {
        lemma_status_of_replay(events.drop_last(), start, now);
    }
}

/// A replay either leaves the timer's running as it finds it, or sets it
/// without regard to how it found it.
pub proof fn lemma_timer_running_kept_or_set(events: Seq<EventModel>, a: bool, b: bool)
    ensures
        (timer_runs_after(events, a) == a && timer_runs_after(events, b) == b) || timer_runs_after(
            events,
            a,
        ) == timer_runs_after(events, b),
    decreases events.len(),
{
    if events.len() > 0 {
        lemma_timer_running_kept_or_set(events.drop_last(), a, b);
    }
}

/// A second replay leaves the timer as the first one left it, running or stopped.
pub proof fn lemma_timer_running_settles(events: Seq<EventModel>, running: bool)
    ensures
        timer_runs_after(events, timer_runs_after(events, running)) == timer_runs_after(
            events,
            running,
        ),
{
    lemma_timer_running_kept_or_set(events, running, timer_runs_after(events, running));
}

/// The counts of a replay depend on nothing of the opening tally but on its counts.
pub proof fn lemma_counts_of_replay(events: Seq<EventModel>, a: Tally, b: Tally, now: Moment)
    requires
        a.fetched == b.fetched,
        a.submitted == b.submitted,
    ensures
        tally(events, a, now).fetched == tally(events, b, now).fetched,
        tally(events, a, now).submitted == tally(events, b, now).submitted,
    decreases events.len(),
{
    if events.len() > 0 {
        lemma_counts_of_replay(events.drop_last(), a, b, now);
    }
}

/// After a replay at `now` the timer is fresh, unless no event moved it.
pub proof fn lemma_replay_leaves_timer_fresh(events: Seq<EventModel>, start: Tally, now: Moment)
    ensures
        is_fresh(tally(events, start, now).proving_started_at, now) || (leaves_timer_alone(events)
            && tally(events, start, now).proving_started_at == start.proving_started_at),
    decreases events.len(),
{
    if events.len() > 0 {
        let before = events.drop_last();
        lemma_replay_leaves_timer_fresh(before, start, now);
        if !moves_timer(events.last()) && leaves_timer_alone(before) {
            assert forall|i: int| 0 <= i < events.len() implies !moves_timer(
                #[trigger] events[i],
            ) by {
                if i < events.len() - 1 {
                    assert(events[i] == before[i]);
                }
            }
        }
    }
}

/// A replay at `now` that starts with a fresh timer, or in which no event moves
/// the timer, adds no proving time.
pub proof fn lemma_replay_adds_no_time(events: Seq<EventModel>, start: Tally, now: Moment)
    requires
        is_fresh(start.proving_started_at, now) || leaves_timer_alone(events),
    ensures
        tally(events, start, now).runtime_secs == start.runtime_secs,
        is_fresh(start.proving_started_at, now) ==> is_fresh(
            tally(events, start, now).proving_started_at,
            now,
        ),
    decreases events.len(),
{
    if events.len() > 0 {
        let before = events.drop_last();
        if !is_fresh(start.proving_started_at, now) {
            assert forall|i: int| 0 <= i < before.len() implies !moves_timer(
                #[trigger] before[i],
            ) by {
                assert(before[i] == events[i]);
            }
            assert(!moves_timer(events[events.len() - 1]));
        }
        lemma_replay_adds_no_time(before, start, now);
    }
}

/// A replay never takes proving time away.
pub proof fn lemma_replay_never_loses_time(events: Seq<EventModel>, start: Tally, now: Moment)
    ensures
        tally(events, start, now).runtime_secs >= start.runtime_secs,
    decreases events.len(),
{
    if events.len() > 0 {
        lemma_replay_never_loses_time(events.drop_last(), start, now);
    }
}

/// Tells whether the characters `msg` contain the pattern `pat`.
fn mentions(msg: &Vec<char>, pat: &str) -> (r: bool)
    ensures
        r == contains_text(msg@, pat@),
{
    let pat = to_chars(pat);
    contains(msg.as_slice(), pat.as_slice())
}

/// Reads what `event` means to the aggregator.
pub fn read_signal(event: &Event) -> (signal: Signal)
    ensures
        signal == signal_of(event@),
{
    match event.worker {
        Worker::TaskFetcher => match event.event_type {
            EventType::Success => {
                let msg = to_chars(event.msg.as_str());
                if !mentions(&msg, RATE_LIMITED) && !mentions(&msg, RETRYING) && !mentions(
                    &msg,
                    STEP_ONE,
                ) {
                    Signal::FetchCompleted
                } else {
                    Signal::Nothing
                }
            },
            _ => Signal::Nothing,
        },
        Worker::Prover(_) => match event.event_type {
            EventType::Success => {
                let msg = to_chars(event.msg.as_str());
                if mentions(&msg, PROVING_TASK) {
                    Signal::ProvingBegan
                } else if mentions(&msg, PROOF_GENERATED) {
                    Signal::ProofGenerated
                } else {
                    Signal::Nothing
                }
            },
            EventType::Error => Signal::ProofFailed,
            _ => Signal::Nothing,
        },
        Worker::ProofSubmitter => match event.event_type {
            EventType::Success => {
                let msg = to_chars(event.msg.as_str());
                if mentions(&msg, PROOF_SUBMITTED) {
                    Signal::ProofSubmitted
                } else {
                    Signal::Nothing
                }
            },
            EventType::Error => Signal::SubmitFailed,
            _ => Signal::Nothing,
        },
    }
}

impl DashboardState {
    /// Recomputes the throughput figures and the proving time from the whole
    /// log, with the clock reading `now`.
    pub fn update_zkvm_metrics(&mut self, now: Moment)
        ensures
            final(self)@ == after_throughput(old(self)@, now),
            final(self).zkvm_metrics.tasks_proved == submissions(old(self)@.events).len(),
            final(self).zkvm_metrics.tasks_executed >= completed_fetches(old(self)@.events).len(),
            final(self).zkvm_metrics.tasks_executed >= final(self).zkvm_metrics.tasks_proved,
            final(self).zkvm_metrics.total_points == points_for(
                final(self).zkvm_metrics.tasks_proved,
            ),
            final(self).accumulated_runtime_secs >= old(self).accumulated_runtime_secs,
    {
        proof {
            lemma_replay_counts_events(self@.events, opening_tally(self@), now);
            lemma_replay_never_loses_time(self@.events, opening_tally(self@), now);
        }
        let ghost log = models(self.events@);
        let ghost opening = opening_tally(self@);
        let len: usize = self.events.len();
        let mut fetched: usize = 0;
        let mut submitted: usize = 0;
        let mut status = TaskStatus::NoneYet;
        let mut began: Option<Moment> = self.proving_started_at;
        let mut runtime: u64 = self.accumulated_runtime_secs;
        let mut newest_submission: Option<usize> = None;
        let mut at: usize = 0;
        while at < len
            invariant
                at <= len,
                len == self.events@.len(),
                *self == *old(self),
                log == models(self.events@),
                opening == opening_tally(self@),
                fetched <= at,
                submitted <= at,
                fetched == tally(log.take(at as int), opening, now).fetched,
                submitted == tally(log.take(at as int), opening, now).submitted,
                status == tally(log.take(at as int), opening, now).status,
                began == tally(log.take(at as int), opening, now).proving_started_at,
                runtime == tally(log.take(at as int), opening, now).runtime_secs,
                match newest_submission {
                    Some(k) => k < at && tally(log.take(at as int), opening, now).last_submission
                        == Some(log[k as int].timestamp),
                    None => tally(log.take(at as int), opening, now).last_submission
                        == opening.last_submission,
                },
            decreases len - at,
        {
            proof {
                assert(log.take(at + 1).drop_last() =~= log.take(at as int));
                assert(log.take(at + 1).last() == self.events@[at as int]@);
            }
            match read_signal(&self.events[at]) {
                Signal::FetchCompleted => {
                    fetched += 1;
                },
                Signal::ProvingBegan => {
                    began = Some(now);
                },
                Signal::ProofGenerated => {
                    if let Some(start) = began {
                        runtime = runtime.saturating_add(now.secs_since(start));
                        status = TaskStatus::Proved;
                        began = None;
                    }
                },
                Signal::ProofFailed => {
                    status = TaskStatus::ProofFailed;
                },
                Signal::ProofSubmitted => {
                    submitted += 1;
                    status = TaskStatus::Success;
                    newest_submission = Some(at);
                },
                Signal::SubmitFailed => {
                    status = TaskStatus::SubmitFailed;
                },
                Signal::Nothing => {},
            }
            at += 1;
        }
        assert(log.take(len as int) =~= log);
        if let Some(k) = newest_submission {
            self.last_submission_timestamp = Some(self.events[k].timestamp.clone());
        }
        self.proving_started_at = began;
        self.accumulated_runtime_secs = runtime;
        self.zkvm_metrics = ZkVMMetrics::from_counts(fetched, submitted, runtime, status);
    }
}

} // verus!
