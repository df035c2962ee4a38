//! How long the fetcher still has to wait.
//!
//! The fetcher announces a backoff by its length in seconds and may repeat the
//! announcement on every tick while it waits. A backoff is therefore told from
//! the next one by the length it declares: the countdown restarts only when a
//! different length is declared.

use vstd::prelude::*;
use crate::clock::{whole_secs_between, Moment};
use crate::message::{declared_backoff, extract_backoff};
use crate::metrics::TaskFetchInfo;
use crate::state::{DashboardState, StateModel};
use crate::window::{find_latest, latest, Query};

verus! {

/// When the backoff of `secs` seconds began: where the backoff followed so far
/// began if it declared the same length, else `now`.
pub open spec fn backoff_anchor(running: Option<(Moment, u64)>, secs: u64, now: Moment) -> Moment {
    match running {
        Some((began, length)) => if length == secs {
            began
        } else {
            now
        },
        None => now,
    }
}

/// The state of a backoff of `secs` seconds that began at `anchor`, seen at `now`.
pub open spec fn countdown(anchor: Moment, secs: u64, now: Moment) -> TaskFetchInfo {
    let elapsed = whole_secs_between(anchor, now);
    TaskFetchInfo {
        backoff_duration_secs: secs,
        time_since_last_fetch_secs: elapsed,
        can_fetch_now: elapsed >= secs,
    }
}

/// The snapshot after the backoff tracker has run at `now`.
///
/// The newest backoff declared within the window is the one followed. Without
/// one, no backoff is running; the anchor of the last one is kept.
pub open spec fn after_backoff(s: StateModel, now: Moment) -> StateModel {
    match latest(s.events, Query::DeclaresBackoff) {
        Some(at) => {
            let secs = declared_backoff(s.events[at].message).unwrap();
            let anchor = backoff_anchor(s.waiting_start_info, secs, now);
            StateModel {
                waiting_start_info: Some((anchor, secs)),
                task_fetch_info: countdown(anchor, secs, now),
                ..s
            }
        },
        None => StateModel { task_fetch_info: TaskFetchInfo::unrestricted(), ..s },
    }
}

impl DashboardState {
    /// Recomputes the state of the fetcher's backoff, with the clock reading `now`.
    pub fn update_task_fetch_info(&mut self, now: Moment)
        ensures
            final(self)@ == after_backoff(old(self)@, now),
    {
        match find_latest(&self.events, Query::DeclaresBackoff) {
            Some(at) => {
                if let Some(secs) = extract_backoff(self.events[at].msg.as_str()) {
                    let anchor = match self.waiting_start_info {
                        Some((began, length)) => if length == secs {
                            began
                        } else {
                            now
                        },
                        None => now,
                    };
                    let elapsed = now.secs_since(anchor);
                    self.waiting_start_info = Some((anchor, secs));
                    self.task_fetch_info = TaskFetchInfo {
                        backoff_duration_secs: secs,
                        time_since_last_fetch_secs: elapsed,
                        can_fetch_now: elapsed >= secs,
                    };
                }
            },
            None => {
                self.task_fetch_info = TaskFetchInfo::new();
            },
        }
    }
}

} // verus!
