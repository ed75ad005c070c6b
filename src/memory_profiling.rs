//! Memory usage accounting: allocation and deallocation totals, current and
//! peak usage, and counts.

use crate::clock::wall_clock_ns;
use vstd::prelude::*;

verus! {

/// Nanoseconds in a second.
pub const NANOS_PER_SEC: u64 = 1_000_000_000;

/// A `usize` counter after adding `n`, saturating at `usize::MAX`.
pub open spec fn bump_size(counter: usize, n: usize) -> usize {
    if counter + n > usize::MAX {
        usize::MAX
    } else {
        (counter + n) as usize
    }
}

/// A `usize` counter after taking away `n`, stopping at zero.
pub open spec fn drop_size(counter: usize, n: usize) -> usize {
    if counter >= n {
        (counter - n) as usize
    } else {
        0
    }
}

/// A snapshot of memory accounting.
#[derive(Debug, Clone)]
pub struct MemoryStats {
    /// Bytes allocated in total.
    pub total_allocated: usize,
    /// Bytes deallocated in total.
    pub total_deallocated: usize,
    /// Bytes in use.
    pub current_usage: usize,
    /// The largest number of bytes in use at once.
    pub peak_usage: usize,
    /// Allocations made.
    pub allocation_count: usize,
    /// Deallocations made.
    pub deallocation_count: usize,
    /// Mean bytes per allocation, rounded down; zero with no allocation.
    pub average_allocation_size: usize,
    /// Seconds since the Unix epoch at the last update.
    pub last_updated: u64,
}

impl MemoryStats {
    /// A snapshot with every count at zero, stamped with the current time.
    pub fn new() -> (r: MemoryStats)
        ensures
            r.total_allocated == 0,
            r.total_deallocated == 0,
            r.current_usage == 0,
            r.peak_usage == 0,
            r.allocation_count == 0,
            r.deallocation_count == 0,
            r.average_allocation_size == 0,
    {
        MemoryStats {
            total_allocated: 0,
            total_deallocated: 0,
            current_usage: 0,
            peak_usage: 0,
            allocation_count: 0,
            deallocation_count: 0,
            average_allocation_size: 0,
            last_updated: wall_clock_ns() / NANOS_PER_SEC,
        }
    }
}

/// An accountant of allocations and deallocations, which records only while enabled.
pub struct MemoryProfiler {
    /// Bytes allocated in total.
    pub total_allocated: usize,
    /// Bytes deallocated in total.
    pub total_deallocated: usize,
    /// Bytes in use.
    pub current_usage: usize,
    /// The largest number of bytes in use at once.
    pub peak_usage: usize,
    /// Allocations recorded.
    pub allocation_count: usize,
    /// Deallocations recorded.
    pub deallocation_count: usize,
    /// Seconds since the Unix epoch at the last update; zero before any.
    pub last_updated: u64,
    /// Whether allocations and deallocations are recorded.
    pub enabled: bool,
}

impl MemoryProfiler {
    /// The profiler with its counters as before, and `last_updated` at `t`.
    pub open spec fn stamped(self, t: u64) -> MemoryProfiler {
        MemoryProfiler { last_updated: t, ..self }
    }

    /// A disabled profiler with every count at zero.
    pub fn new() -> (r: MemoryProfiler)
        ensures
            r == (MemoryProfiler {
                total_allocated: 0,
                total_deallocated: 0,
                current_usage: 0,
                peak_usage: 0,
                allocation_count: 0,
                deallocation_count: 0,
                last_updated: 0,
                enabled: false,
            }),
    {
        MemoryProfiler {
            total_allocated: 0,
            total_deallocated: 0,
            current_usage: 0,
            peak_usage: 0,
            allocation_count: 0,
            deallocation_count: 0,
            last_updated: 0,
            enabled: false,
        }
    }

    /// Starts recording.
    pub fn enable(&mut self)
        ensures
            *final(self) == (MemoryProfiler { enabled: true, ..*old(self) }),
    {
        self.enabled = true;
    }

    /// Stops recording.
    pub fn disable(&mut self)
        ensures
            *final(self) == (MemoryProfiler { enabled: false, ..*old(self) }),
    {
        self.enabled = false;
    }

    /// Whether the profiler records.
    pub fn is_enabled(&self) -> (r: bool)
        ensures
            r == self.enabled,
    {
        self.enabled
    }

    /// Records an allocation of `size` bytes, when enabled: the totals, the
    /// count and the usage grow, the peak follows the usage.
    pub fn record_allocation(&mut self, size: usize)
        ensures
            !old(self).enabled ==> *final(self) == *old(self),
            old(self).enabled ==> {
                let usage = bump_size(old(self).current_usage, size);
                *final(self) == (MemoryProfiler {
                    total_allocated: bump_size(old(self).total_allocated, size),
                    allocation_count: bump_size(old(self).allocation_count, 1),
                    current_usage: usage,
                    peak_usage: if usage > old(self).peak_usage {
                        usage
                    } else {
                        old(self).peak_usage
                    },
                    ..*old(self)
                }).stamped(final(self).last_updated)
            },
    {
        if !self.enabled {
            return;
        }
        self.total_allocated = self.total_allocated.saturating_add(size);
        self.allocation_count = self.allocation_count.saturating_add(1);
        self.current_usage = self.current_usage.saturating_add(size);
        if self.current_usage > self.peak_usage {
            self.peak_usage = self.current_usage;
        }
        self.update_timestamp();
    }

    /// Records a deallocation of `size` bytes, when enabled: the deallocation
    /// total and count grow, the usage shrinks (stopping at zero).
    pub fn record_deallocation(&mut self, size: usize)
        ensures
            !old(self).enabled ==> *final(self) == *old(self),
            old(self).enabled ==> *final(self) == (MemoryProfiler {
                total_deallocated: bump_size(old(self).total_deallocated, size),
                deallocation_count: bump_size(old(self).deallocation_count, 1),
                current_usage: drop_size(old(self).current_usage, size),
                ..*old(self)
            }).stamped(final(self).last_updated),
    {
        if !self.enabled {
            return;
        }
        self.total_deallocated = self.total_deallocated.saturating_add(size);
        self.deallocation_count = self.deallocation_count.saturating_add(1);
        self.current_usage = self.current_usage.saturating_sub(size);
        self.update_timestamp();
    }

    /// A snapshot of the counters, with the mean allocation size.
    pub fn get_stats(&self) -> (r: MemoryStats)
        ensures
            r.total_allocated == self.total_allocated,
            r.total_deallocated == self.total_deallocated,
            r.current_usage == self.current_usage,
            r.peak_usage == self.peak_usage,
            r.allocation_count == self.allocation_count,
            r.deallocation_count == self.deallocation_count,
            r.average_allocation_size == if self.allocation_count > 0 {
                self.total_allocated / self.allocation_count
            } else {
                0
            },
            r.last_updated == self.last_updated,
    {
        MemoryStats {
            total_allocated: self.total_allocated,
            total_deallocated: self.total_deallocated,
            current_usage: self.current_usage,
            peak_usage: self.peak_usage,
            allocation_count: self.allocation_count,
            deallocation_count: self.deallocation_count,
            average_allocation_size: if self.allocation_count > 0 {
                self.total_allocated / self.allocation_count
            } else {
                0
            },
            last_updated: self.last_updated,
        }
    }

    /// Sets every count back to zero, keeping whether the profiler records.
    pub fn reset(&mut self)
        ensures
            *final(self) == (MemoryProfiler {
                total_allocated: 0,
                total_deallocated: 0,
                current_usage: 0,
                peak_usage: 0,
                allocation_count: 0,
                deallocation_count: 0,
                last_updated: final(self).last_updated,
                enabled: old(self).enabled,
            }),
    {
        self.total_allocated = 0;
        self.total_deallocated = 0;
        self.current_usage = 0;
        self.peak_usage = 0;
        self.allocation_count = 0;
        self.deallocation_count = 0;
        self.update_timestamp();
    }

    fn update_timestamp(&mut self)
        ensures
            *final(self) == old(self).stamped(final(self).last_updated),
    {
        self.last_updated = wall_clock_ns() / NANOS_PER_SEC;
    }
}

} // verus!
