//! Counters of supervised operations and their overhead.

use vstd::prelude::*;

verus! {

/// A counter after adding `n`, saturating at `u64::MAX`.
pub open spec fn bump(counter: u64, n: u64) -> u64 {
    if counter + n > u64::MAX {
        u64::MAX
    } else {
        (counter + n) as u64
    }
}

/// Outcome counters of the operations of one processor.
///
/// Derived values (average overhead, success rate) are computed on read and
/// never stored.
pub struct SafetyMetrics {
    /// Operations that have been started.
    pub operations_started: u64,
    /// Operations that completed with a result.
    pub operations_completed: u64,
    /// Operations that were cancelled, other than by a timeout.
    pub operations_cancelled: u64,
    /// Operations that timed out.
    pub operations_timed_out: u64,
    /// Overhead of the completed operations, in nanoseconds.
    pub total_safety_overhead_ns: u64,
    /// Bytes of memory allocation recorded.
    pub memory_allocations: u64,
    /// The largest memory usage recorded, in bytes.
    pub peak_memory_usage: u64,
}

impl SafetyMetrics {
    /// Metrics with every counter at zero.
    pub open spec fn new_spec() -> SafetyMetrics {
        SafetyMetrics {
            operations_started: 0,
            operations_completed: 0,
            operations_cancelled: 0,
            operations_timed_out: 0,
            total_safety_overhead_ns: 0,
            memory_allocations: 0,
            peak_memory_usage: 0,
        }
    }

    /// Metrics with every counter at zero.
    pub fn new() -> (r: SafetyMetrics)
        ensures
            r == SafetyMetrics::new_spec(),
    {
        SafetyMetrics {
            operations_started: 0,
            operations_completed: 0,
            operations_cancelled: 0,
            operations_timed_out: 0,
            total_safety_overhead_ns: 0,
            memory_allocations: 0,
            peak_memory_usage: 0,
        }
    }

    /// Records that an operation started.
    pub fn record_start(&mut self)
        ensures
            *final(self) == (SafetyMetrics {
                operations_started: bump(old(self).operations_started, 1),
                ..*old(self)
            }),
    {
        self.operations_started = self.operations_started.saturating_add(1);
    }

    /// Records that an operation completed, with `overhead_ns` of supervision overhead.
    pub fn record_completion(&mut self, overhead_ns: u64)
        ensures
            *final(self) == (SafetyMetrics {
                operations_completed: bump(old(self).operations_completed, 1),
                total_safety_overhead_ns: bump(old(self).total_safety_overhead_ns, overhead_ns),
                ..*old(self)
            }),
    {
        self.operations_completed = self.operations_completed.saturating_add(1);
        self.total_safety_overhead_ns = self.total_safety_overhead_ns.saturating_add(overhead_ns);
    }

    /// Records that an operation was cancelled.
    pub fn record_cancellation(&mut self)
        ensures
            *final(self) == (SafetyMetrics {
                operations_cancelled: bump(old(self).operations_cancelled, 1),
                ..*old(self)
            }),
    {
        self.operations_cancelled = self.operations_cancelled.saturating_add(1);
    }

    /// Records that an operation timed out.
    pub fn record_timeout(&mut self)
        ensures
            *final(self) == (SafetyMetrics {
                operations_timed_out: bump(old(self).operations_timed_out, 1),
                ..*old(self)
            }),
    {
        self.operations_timed_out = self.operations_timed_out.saturating_add(1);
    }

    /// The mean overhead of a completed operation in nanoseconds (rounded
    /// down), or zero when none completed.
    pub fn get_average_overhead_ns(&self) -> (r: u64)
        ensures
            self.operations_completed == 0 ==> r == 0,
            self.operations_completed > 0 ==> r == self.total_safety_overhead_ns
                / self.operations_completed,
    {
        if self.operations_completed == 0 {
            0
        } else {
            self.total_safety_overhead_ns / self.operations_completed
        }
    }

    /// Records an allocation of `size` bytes.
    pub fn record_memory_allocation(&mut self, size: u64)
        ensures
            *final(self) == (SafetyMetrics {
                memory_allocations: bump(old(self).memory_allocations, size),
                ..*old(self)
            }),
    {
        self.memory_allocations = self.memory_allocations.saturating_add(size);
    }

    /// Raises the recorded peak memory usage to `current_usage` when that is higher.
    pub fn update_peak_memory(&mut self, current_usage: u64)
        ensures
            *final(self) == (SafetyMetrics {
                peak_memory_usage: if current_usage > old(self).peak_memory_usage {
                    current_usage
                } else {
                    old(self).peak_memory_usage
                },
                ..*old(self)
            }),
    {
        if current_usage > self.peak_memory_usage {
            self.peak_memory_usage = current_usage;
        }
    }

    /// The recorded allocation total and peak usage, in that order.
    pub fn get_memory_stats(&self) -> (r: (u64, u64))
        ensures
            r == (self.memory_allocations, self.peak_memory_usage),
    {
        (self.memory_allocations, self.peak_memory_usage)
    }
}

} // verus!
