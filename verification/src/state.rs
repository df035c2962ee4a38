//! The snapshot that the dashboard owns and the renderer reads.

use vstd::prelude::*;
use crate::clock::Moment;
use crate::event::{models, Event, EventModel, ProverState};
use crate::message::text_of;
use crate::metrics::{FetchingState, SystemMetrics, TaskFetchInfo, TaskStatus, ZkVMMetrics};

verus! {

/// Everything the dashboard derives from the event log, and the log itself.
///
/// The fields are read between ticks. Within a tick only the dashboard's own
/// update methods write them.
#[derive(Clone, Debug)]
pub struct DashboardState {
    /// Update cycles run so far.
    pub tick: usize,
    /// The event log, oldest event first. Events are only ever appended.
    pub events: Vec<Event>,
    /// The task most recently named by a fetcher or prover event.
    pub current_task: Option<String>,
    pub system_metrics: SystemMetrics,
    pub zkvm_metrics: ZkVMMetrics,
    pub task_fetch_info: TaskFetchInfo,
    pub fetching_state: FetchingState,
    /// When the backoff now followed began, and the seconds it declared.
    pub waiting_start_info: Option<(Moment, u64)>,
    pub current_prover_state: ProverState,
    /// Set from the time a prover starts on a task until its proof is generated.
    pub proving_started_at: Option<Moment>,
    /// Seconds spent proving so far.
    pub accumulated_runtime_secs: u64,
    /// The timestamp of the newest successful submission.
    pub last_submission_timestamp: Option<String>,
}

/// The snapshot as the specifications see it.
pub struct StateModel {
    pub tick: nat,
    pub events: Seq<EventModel>,
    pub current_task: Option<Seq<char>>,
    pub system_metrics: SystemMetrics,
    pub zkvm_metrics: ZkVMMetrics,
    pub task_fetch_info: TaskFetchInfo,
    pub fetching_state: FetchingState,
    pub waiting_start_info: Option<(Moment, u64)>,
    pub current_prover_state: ProverState,
    pub proving_started_at: Option<Moment>,
    pub accumulated_runtime_secs: u64,
    pub last_submission_timestamp: Option<Seq<char>>,
}

impl View for DashboardState {
    type V = StateModel;

    open spec fn view(&self) -> StateModel {
        StateModel {
            tick: self.tick as nat,
            events: models(self.events@),
            current_task: text_of(self.current_task),
            system_metrics: self.system_metrics,
            zkvm_metrics: self.zkvm_metrics,
            task_fetch_info: self.task_fetch_info,
            fetching_state: self.fetching_state,
            waiting_start_info: self.waiting_start_info,
            current_prover_state: self.current_prover_state,
            proving_started_at: self.proving_started_at,
            accumulated_runtime_secs: self.accumulated_runtime_secs,
            last_submission_timestamp: text_of(self.last_submission_timestamp),
        }
    }
}

impl StateModel {
    /// The snapshot before the first tick, over an empty log.
    pub open spec fn initial() -> StateModel {
        StateModel {
            tick: 0,
            events: Seq::empty(),
            current_task: None,
            system_metrics: SystemMetrics {
                cpu_permille: 0,
                ram_bytes: 0,
                total_ram_bytes: 0,
                peak_ram_bytes: 0,
            },
            zkvm_metrics: crate::metrics::summarize(0, 0, 0, TaskStatus::NoneYet),
            task_fetch_info: TaskFetchInfo::unrestricted(),
            fetching_state: FetchingState::Idle,
            waiting_start_info: None,
            current_prover_state: ProverState::Waiting,
            proving_started_at: None,
            accumulated_runtime_secs: 0,
            last_submission_timestamp: None,
        }
    }
}

impl DashboardState {
    /// The snapshot before the first tick, over an empty log.
    pub fn new() -> (state: DashboardState)
        ensures
            state@ == StateModel::initial(),
    {
        let state = DashboardState {
            tick: 0,
            events: Vec::new(),
            current_task: None,
            system_metrics: SystemMetrics::new(),
            zkvm_metrics: ZkVMMetrics::new(),
            task_fetch_info: TaskFetchInfo::new(),
            fetching_state: FetchingState::Idle,
            waiting_start_info: None,
            current_prover_state: ProverState::Waiting,
            proving_started_at: None,
            accumulated_runtime_secs: 0,
            last_submission_timestamp: None,
        };
        assert(models(state.events@) =~= Seq::empty());
        state
    }

    /// Appends `event` to the log. Nothing derived changes until the next update.
    pub fn add_event(&mut self, event: Event)
        ensures
            final(self)@ == (StateModel { events: old(self)@.events.push(event@), ..old(self)@ }),
    {
        self.events.push(event);
        assert(models(self.events@) =~= models(old(self).events@).push(event@));
    }
}

} // verus!
