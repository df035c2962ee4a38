//! One update cycle: every tracker, once, in a fixed order.

use vstd::prelude::*;
use crate::backoff::after_backoff;
use crate::clock::Moment;
use crate::current_task::after_current_task;
use crate::fetching::after_fetching;
use crate::metrics::SystemMetrics;
use crate::prover::after_prover_state;
use crate::state::{DashboardState, StateModel};
use crate::throughput::after_throughput;

verus! {

/// The snapshot with one more tick counted.
pub open spec fn after_tick(s: StateModel) -> StateModel {
    StateModel { tick: s.tick + 1, ..s }
}

/// The sample to publish: `sample`, with its peak raised to `previous_peak`
/// where the sampler reported less.
pub open spec fn with_peak(sample: SystemMetrics, previous_peak: u64) -> SystemMetrics {
    SystemMetrics {
        peak_ram_bytes: if sample.peak_ram_bytes >= previous_peak {
            sample.peak_ram_bytes
        } else {
            previous_peak
        },
        ..sample
    }
}

/// The snapshot after a fresh resource sample has been taken in.
pub open spec fn after_sample(s: StateModel, sample: SystemMetrics) -> StateModel {
    StateModel { system_metrics: with_peak(sample, s.system_metrics.peak_ram_bytes), ..s }
}

/// The snapshot after one update cycle with the clock reading `now` and the
/// resource sample `sample`.
///
/// The cycle counts the tick, then runs the trackers in this order: current
/// task, resource sample, throughput, backoff, fetch state machine, prover
/// state.
pub open spec fn cycle(s: StateModel, now: Moment, sample: SystemMetrics) -> StateModel {
    let s = after_tick(s);
    let s = after_current_task(s);
    let s = after_sample(s, sample);
    let s = after_throughput(s, now);
    let s = after_backoff(s, now);
    let s = after_fetching(s, now);
    after_prover_state(s)
}

impl DashboardState {
    /// Takes in a fresh resource sample. The peak memory published never falls.
    pub fn take_sample(&mut self, sample: SystemMetrics)
        ensures
            final(self)@ == after_sample(old(self)@, sample),
    {
        let previous_peak: u64 = self.system_metrics.peak_ram_bytes;
        self.system_metrics = SystemMetrics {
            cpu_permille: sample.cpu_permille,
            ram_bytes: sample.ram_bytes,
            total_ram_bytes: sample.total_ram_bytes,
            peak_ram_bytes: if sample.peak_ram_bytes >= previous_peak {
                sample.peak_ram_bytes
            } else {
                previous_peak
            },
        };
    }

    /// Runs one update cycle with the clock reading `now` and the resource
    /// sample `sample`, which the caller took with the snapshot's previous peak
    /// and previous sample at hand.
    ///
    /// The tick counter, the proving time and the peak memory never go back.
    pub fn update(&mut self, now: Moment, sample: SystemMetrics)
        requires
            old(self).tick < usize::MAX,
        ensures
            final(self)@ == cycle(old(self)@, now, sample),
            final(self).tick == old(self).tick + 1,
            final(self).accumulated_runtime_secs >= old(self).accumulated_runtime_secs,
            final(self).system_metrics.peak_ram_bytes >= old(self).system_metrics.peak_ram_bytes,
    {
        self.tick += 1;
        self.update_current_task();
        self.take_sample(sample);
        self.update_zkvm_metrics(now);
        self.update_task_fetch_info(now);
        self.update_fetching_state(now);
        self.update_prover_state();
    }
}

} // verus!
