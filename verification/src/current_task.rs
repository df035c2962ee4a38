//! Which task is in flight.

use vstd::prelude::*;
use crate::message::{extract_task_id, task_id_in};
use crate::state::{DashboardState, StateModel};
use crate::window::{find_latest, latest, Query};

verus! {

/// The task that the recent events of `events` name last.
///
/// Without such an event in the window no task counts as in flight: a task
/// named longer ago is not kept.
pub open spec fn current_task_in(events: Seq<crate::event::EventModel>) -> Option<Seq<char>> {
    match latest(events, Query::NamesTask) {
        Some(at) => task_id_in(events[at].message),
        None => None,
    }
}

/// The snapshot after the current task has been looked up.
pub open spec fn after_current_task(s: StateModel) -> StateModel {
    StateModel { current_task: current_task_in(s.events), ..s }
}

impl DashboardState {
    /// Looks up the task in flight among the recent events.
    pub fn update_current_task(&mut self)
        ensures
            final(self)@ == after_current_task(old(self)@),
    {
        match find_latest(&self.events, Query::NamesTask) {
            Some(at) => {
                self.current_task = extract_task_id(self.events[at].msg.as_str());
            },
            None => {
                self.current_task = None;
            },
        }
    }
}

} // verus!
