//! Monotonic nanosecond time sources.

use vstd::prelude::*;
use core::sync::atomic::{AtomicU64, Ordering};
use std::sync::Arc;

verus! {

/// Monotonic nanosecond time source. What a reading returns depends on when it
/// is taken, so the trait promises nothing about the value.
pub trait Clock {
    fn now_ns(&self) -> u64;
}

impl<T: Clock> Clock for Arc<T> {
    fn now_ns(&self) -> u64 {
        (**self).now_ns()
    }
}

/// Test clock. Time advances only when a test or an `InstantWaiter` says so,
/// which makes every engine test deterministic and instant.
#[derive(Debug)]
pub struct VirtualClock {
    now: AtomicU64,
}

impl VirtualClock {
    pub fn new(start_ns: u64) -> Self {
        VirtualClock { now: AtomicU64::new(start_ns) }
    }

    pub fn advance(&self, ns: u64) {
        self.now.fetch_add(ns, Ordering::Relaxed);
    }

    /// Jump forward to `ns`, never backwards.
    pub fn set_at_least(&self, ns: u64) {
        self.now.fetch_max(ns, Ordering::Relaxed);
    }
}

impl Clock for VirtualClock {
    fn now_ns(&self) -> u64 {
        self.now.load(Ordering::Relaxed)
    }
}

/// Conversion from performance-counter ticks to nanoseconds, with the counter
/// frequency cached once. The frequency is fixed for the boot session;
/// querying it in the loop is a wasted call. Reading the counter itself is the
/// host's job; this holds the arithmetic.
#[derive(Debug, Clone, Copy)]
pub struct QpcClock {
    freq: u64,
}

impl QpcClock {
    /// The cached frequency, in ticks per second; never zero.
    pub closed spec fn frequency(self) -> u64 {
        self.freq
    }

    /// Cache a reported frequency. A non-positive report (which the counter
    /// API documents never happens) is replaced by 1 so later divisions are
    /// total.
    pub fn from_frequency(reported: i64) -> (c: Self)
        ensures
            c.frequency() == (if reported > 0 {
                reported as u64
            } else {
                1u64
            }),
            c.frequency() > 0,
    {
        QpcClock { freq: if reported > 0 { reported as u64 } else { 1 } }
    }

    /// `ticks * 1e9 / freq`. The product is taken in 128 bits: `ticks * 1e9`
    /// overflows 64 bits after about two seconds at a 10MHz counter, so the
    /// widening is required, not defensive.
    pub fn ns_from_ticks(&self, ticks: i64) -> (ns: u64)
        requires
            ticks >= 0,
            self.frequency() > 0,
        ensures
            ns == ((ticks * 1_000_000_000) / (self.frequency() as int)) as u64,
    {
        let wide: u128 = (ticks as u128) * 1_000_000_000u128;
        (wide / (self.freq as u128)) as u64
    }
}

} // verus!
