//! What the provers last said they are doing.

use vstd::prelude::*;
use crate::state::{DashboardState, StateModel};
use crate::window::{find_latest, latest, Query};

verus! {

/// The snapshot after the prover state has been looked up.
///
/// The newest state announced within the window is published. Without one the
/// state published before stays.
pub open spec fn after_prover_state(s: StateModel) -> StateModel {
    match latest(s.events, Query::ReportsProverState) {
        Some(at) => StateModel {
            current_prover_state: s.events[at].prover_state.unwrap(),
            ..s
        },
        None => s,
    }
}

impl DashboardState {
    /// Publishes the prover state that the recent events announce last.
    pub fn update_prover_state(&mut self)
        ensures
            final(self)@ == after_prover_state(old(self)@),
    {
        if let Some(at) = find_latest(&self.events, Query::ReportsProverState) {
            if let Some(state) = self.events[at].prover_state {
                self.current_prover_state = state;
            }
        }
    }
}

} // verus!
