//! The clock that the trackers measure against.
//!
//! The trackers never read a clock themselves. Whoever drives them hands in the
//! current reading as a [`Moment`], so that every elapsed time is a function of
//! the values passed in.

use vstd::prelude::*;

verus! {

/// Nanoseconds in one second.
pub const NANOS_PER_SEC: u64 = 1_000_000_000;

/// A reading of a monotonic clock: nanoseconds since an origin that the driver picks.
#[derive(Clone, Copy, Debug, PartialEq, Eq, Structural)]
pub struct Moment {
    pub nanos: u64,
}

/// The nanoseconds that pass from `earlier` to `later`; zero if `later` is not after `earlier`.
pub open spec fn nanos_between(earlier: Moment, later: Moment) -> u64 {
    if later.nanos >= earlier.nanos {
        (later.nanos - earlier.nanos) as u64
    } else {
        0
    }
}

/// The whole seconds that pass from `earlier` to `later`; zero if `later` is not after `earlier`.
pub open spec fn whole_secs_between(earlier: Moment, later: Moment) -> u64 {
    if later.nanos >= earlier.nanos {
        ((later.nanos - earlier.nanos) / (NANOS_PER_SEC as int)) as u64
    } else {
        0
    }
}

impl Moment {
    /// The reading `nanos` nanoseconds after the origin.
    pub fn from_nanos(nanos: u64) -> (m: Moment)
        ensures
            m.nanos == nanos,
    {
        Moment { nanos }
    }

    /// The reading `secs` whole seconds after the origin.
    pub fn from_secs(secs: u32) -> (m: Moment)
        ensures
            m.nanos == secs * NANOS_PER_SEC,
    {
        let wide: u64 = secs as u64;
        Moment { nanos: wide * NANOS_PER_SEC }
    }

    /// The nanoseconds elapsed at `self` since `earlier`, saturating at zero.
    pub fn nanos_since(&self, earlier: Moment) -> (nanos: u64)
        ensures
            nanos == nanos_between(earlier, *self),
    {
        if self.nanos >= earlier.nanos {
            self.nanos - earlier.nanos
        } else {
            0
        }
    }

    /// The whole seconds elapsed at `self` since `earlier`, saturating at zero.
    pub fn secs_since(&self, earlier: Moment) -> (secs: u64)
        ensures
            secs == whole_secs_between(earlier, *self),
    {
        if self.nanos >= earlier.nanos {
            (self.nanos - earlier.nanos) / NANOS_PER_SEC
        } else {
            0
        }
    }
}

} // verus!
