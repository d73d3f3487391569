//! The process-wide metric set: a monotonic trigger counter and the
//! inventory-size gauge.

use vstd::prelude::*;

verus! {

/// The two metrics the process exposes. The pipeline writes them, the
/// scrape endpoint reads them; both updates are single primitive writes, so
/// the holder only needs to hand the set to both sides under whatever
/// sharing its runtime uses.
#[derive(Clone, Copy, PartialEq, Eq, Structural, Debug)]
pub struct MetricCounterSet {
    /// Monotonic count of trigger events received, one per trigger,
    /// whatever the outcome of the run it started.
    pub trigger_total: u64,
    /// The entry count of the most recent successful backend call. A failed
    /// run leaves the previous value standing.
    pub inventory_size: u64,
}

impl MetricCounterSet {
    /// Both metrics start at zero.
    pub fn new() -> (m: MetricCounterSet)
        ensures
            m.trigger_total == 0,
            m.inventory_size == 0,
    {
        MetricCounterSet { trigger_total: 0, inventory_size: 0 }
    }

    /// Counts one received trigger event. The gauge is untouched.
    pub fn record_trigger(&mut self)
        requires
            old(self).trigger_total < u64::MAX,
        ensures
            final(self).trigger_total == old(self).trigger_total + 1,
            final(self).inventory_size == old(self).inventory_size,
    {
        self.trigger_total = self.trigger_total + 1;
    }

    /// Overwrites the gauge with the entry count of a successful call. The
    /// counter is untouched.
    pub fn set_inventory(&mut self, count: u64)
        ensures
            final(self).trigger_total == old(self).trigger_total,
            final(self).inventory_size == count,
    {
        self.inventory_size = count;
    }
}

} // verus!
