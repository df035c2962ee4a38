//! The figures that the dashboard publishes.

use vstd::prelude::*;
use crate::clock::Moment;

verus! {

/// One sample of the machine's resources.
#[derive(Clone, Copy, Debug, PartialEq, Eq, Structural)]
pub struct SystemMetrics {
    /// Processor utilisation in tenths of a percent.
    pub cpu_permille: u32,
    /// Memory in use.
    pub ram_bytes: u64,
    /// Memory installed.
    pub total_ram_bytes: u64,
    /// The most memory seen in use so far.
    pub peak_ram_bytes: u64,
}

/// How the last task that reported an outcome ended.
#[derive(Clone, Copy, Debug, PartialEq, Eq, Structural)]
pub enum TaskStatus {
    /// No event of the log reports an outcome.
    NoneYet,
    Proved,
    ProofFailed,
    Success,
    SubmitFailed,
}

/// Throughput and proving time, recomputed from the whole log on every tick.
#[derive(Clone, Copy, Debug, PartialEq, Eq, Structural)]
pub struct ZkVMMetrics {
    /// Tasks attempted: the larger of the tasks fetched and the tasks submitted.
    pub tasks_executed: usize,
    /// Tasks whose proof was submitted.
    pub tasks_proved: usize,
    /// Seconds spent proving, accumulated over all tasks.
    pub zkvm_runtime_secs: u64,
    pub last_task_status: TaskStatus,
    /// Points earned by the submissions.
    pub total_points: u64,
}

/// Where the fetcher stands in its current backoff.
#[derive(Clone, Copy, Debug, PartialEq, Eq, Structural)]
pub struct TaskFetchInfo {
    /// The seconds that the backoff was declared to last.
    pub backoff_duration_secs: u64,
    /// The seconds elapsed since the backoff began.
    pub time_since_last_fetch_secs: u64,
    pub can_fetch_now: bool,
}

/// Whether a fetch request is outstanding.
#[derive(Clone, Copy, Debug, PartialEq, Eq, Structural)]
pub enum FetchingState {
    Idle,
    Active { started_at: Moment },
    Timeout,
}

/// Points earned by one submitted proof.
pub const POINTS_PER_SUBMISSION: u64 = 300;

/// The text under which a status is displayed.
pub open spec fn status_label(status: TaskStatus) -> Seq<char> {
    match status {
        TaskStatus::NoneYet => "None"@,
        TaskStatus::Proved => "Proved"@,
        TaskStatus::ProofFailed => "Proof Failed"@,
        TaskStatus::Success => "Success"@,
        TaskStatus::SubmitFailed => "Submit Failed"@,
    }
}

/// The points that `submitted` proofs earn, capped at what 64 bits hold.
pub open spec fn points_for(submitted: usize) -> u64 {
    if submitted * POINTS_PER_SUBMISSION <= u64::MAX {
        (submitted * POINTS_PER_SUBMISSION) as u64
    } else {
        u64::MAX
    }
}

/// The published figures for `fetched` completed fetches and `submitted`
/// submitted proofs.
pub open spec fn summarize(
    fetched: usize,
    submitted: usize,
    runtime_secs: u64,
    status: TaskStatus,
) -> ZkVMMetrics {
    ZkVMMetrics {
        tasks_executed: if submitted >= fetched {
            submitted
        } else {
            fetched
        },
        tasks_proved: submitted,
        zkvm_runtime_secs: runtime_secs,
        last_task_status: status,
        total_points: points_for(submitted),
    }
}

impl TaskStatus {
    /// The text under which the status is displayed.
    pub fn label(&self) -> (text: &'static str)
        ensures
            text@ == status_label(*self),
    {
        match self {
            TaskStatus::NoneYet => "None",
            TaskStatus::Proved => "Proved",
            TaskStatus::ProofFailed => "Proof Failed",
            TaskStatus::Success => "Success",
            TaskStatus::SubmitFailed => "Submit Failed",
        }
    }
}

impl SystemMetrics {
    /// The sample before anything was measured.
    pub fn new() -> (m: SystemMetrics)
        ensures
            m == (SystemMetrics { cpu_permille: 0, ram_bytes: 0, total_ram_bytes: 0, peak_ram_bytes: 0 }),
    {
        SystemMetrics { cpu_permille: 0, ram_bytes: 0, total_ram_bytes: 0, peak_ram_bytes: 0 }
    }
}

impl ZkVMMetrics {
    /// The figures of an empty log.
    pub fn new() -> (m: ZkVMMetrics)
        ensures
            m == summarize(0, 0, 0, TaskStatus::NoneYet),
    {
        ZkVMMetrics {
            tasks_executed: 0,
            tasks_proved: 0,
            zkvm_runtime_secs: 0,
            last_task_status: TaskStatus::NoneYet,
            total_points: 0,
        }
    }

    /// The published figures for `fetched` completed fetches and `submitted`
    /// submitted proofs.
    pub fn from_counts(fetched: usize, submitted: usize, runtime_secs: u64, status: TaskStatus) -> (m:
        ZkVMMetrics)
        ensures
            m == summarize(fetched, submitted, runtime_secs, status),
    {
        let wide: u64 = submitted as u64;
        let total_points: u64 = match wide.checked_mul(POINTS_PER_SUBMISSION) {
            Some(points) => points,
            None => u64::MAX,
        };
        ZkVMMetrics {
            tasks_executed: if submitted >= fetched {
                submitted
            } else {
                fetched
            },
            tasks_proved: submitted,
            zkvm_runtime_secs: runtime_secs,
            last_task_status: status,
            total_points,
        }
    }
}

impl TaskFetchInfo {
    /// No backoff is running: a fetch may start at once.
    pub open spec fn unrestricted() -> TaskFetchInfo {
        TaskFetchInfo { backoff_duration_secs: 0, time_since_last_fetch_secs: 0, can_fetch_now: true }
    }

    /// No backoff is running: a fetch may start at once.
    pub fn new() -> (info: TaskFetchInfo)
        ensures
            info == TaskFetchInfo::unrestricted(),
    {
        TaskFetchInfo { backoff_duration_secs: 0, time_since_last_fetch_secs: 0, can_fetch_now: true }
    }
}

} // verus!
