//! The control block: cancellation, timeout and panic flags, an iteration
//! budget, a heartbeat and the timing of the current operation.

use crate::clock::wall_clock_ns;
use vstd::prelude::*;

verus! {

/// Timeout of an operation unless configured otherwise.
pub const DEFAULT_TIMEOUT_MS: u64 = 5000;

/// The smallest iteration budget that a reset grants.
pub const MIN_ITERATION_BUDGET: usize = 1000;

/// Iterations granted per element of the expected input.
pub const ITERATIONS_PER_ELEMENT: usize = 10;

/// The wall clock is read on every poll whose iteration number is a multiple of this.
pub const CLOCK_CHECK_PERIOD: usize = 1024;

/// Nanoseconds in a millisecond.
pub const NANOS_PER_MILLI: u64 = 1_000_000;

/// Shared state between a supervising caller and a processing loop.
///
/// The three flags together decide whether the operation was cancelled; once
/// raised, a flag stays raised until the next `reset_for_operation`.
pub struct AssemblyControl {
    /// Cooperative cancellation, raised by a caller, the watchdog or the iteration limit.
    pub cancel_flag: bool,
    /// Raised when the operation exceeded its time budget.
    pub timeout_flag: bool,
    /// Raised when a panic happened while the operation was live.
    pub panic_flag: bool,
    /// Polls granted to the current operation.
    pub max_iterations: usize,
    /// Polls made so far by the current operation.
    pub current_iteration: usize,
    /// Liveness counter advanced by the processing loop.
    pub heartbeat: u64,
    /// Start of the current operation, in nanoseconds since the Unix epoch; zero when idle.
    pub start_time: u64,
    /// Time budget of an operation in milliseconds; zero disables the clock check.
    pub timeout_ms: u64,
}

/// The iteration budget for an input of `expected_size` elements:
/// `max(expected_size * 10, 1000)`, the product saturating at `usize::MAX`.
pub open spec fn iteration_budget(expected_size: usize) -> usize {
    let scaled: int = expected_size * ITERATIONS_PER_ELEMENT;
    if scaled > usize::MAX {
        usize::MAX
    } else if scaled > MIN_ITERATION_BUDGET {
        scaled as usize
    } else {
        MIN_ITERATION_BUDGET
    }
}

/// The iteration budget for an input of `expected_size` elements:
/// `max(expected_size * 10, 1000)`, the product saturating at `usize::MAX`.
pub fn iteration_budget_of(expected_size: usize) -> (r: usize)
    ensures
        r == iteration_budget(expected_size),
{
    match expected_size.checked_mul(ITERATIONS_PER_ELEMENT) {
        Some(n) => if n > MIN_ITERATION_BUDGET {
            n
        } else {
            MIN_ITERATION_BUDGET
        },
        None => usize::MAX,
    }
}

/// Whole milliseconds from `start` to `now` (both in nanoseconds); zero when the
/// clock reads earlier than `start`.
pub open spec fn elapsed_ms(start: u64, now: u64) -> int {
    if now >= start {
        (now - start) / (NANOS_PER_MILLI as int)
    } else {
        0
    }
}

/// An operation started at `start` with budget `timeout_ms` is overdue at `now`.
pub open spec fn deadline_passed(start: u64, now: u64, timeout_ms: u64) -> bool {
    timeout_ms > 0 && elapsed_ms(start, now) > timeout_ms
}

/// The iteration counter after one more poll, saturating at `usize::MAX`.
pub open spec fn next_count(n: usize) -> usize {
    if n < usize::MAX {
        (n + 1) as usize
    } else {
        n
    }
}

/// The heartbeat after one more beat, wrapping at `u64::MAX`.
pub open spec fn next_beat(h: u64) -> u64 {
    if h < u64::MAX {
        (h + 1) as u64
    } else {
        0
    }
}

impl AssemblyControl {
    /// Some flag says that the operation must stop.
    pub open spec fn stopped(self) -> bool {
        self.cancel_flag || self.timeout_flag || self.panic_flag
    }

    /// The block as a reset for an input of `expected_size` elements leaves it,
    /// the operation stamped as started at `start`.
    pub open spec fn after_reset(self, expected_size: usize, start: u64) -> AssemblyControl {
        AssemblyControl {
            cancel_flag: false,
            timeout_flag: false,
            panic_flag: false,
            max_iterations: iteration_budget(expected_size),
            current_iteration: 0,
            heartbeat: 0,
            start_time: start,
            timeout_ms: self.timeout_ms,
        }
    }

    /// The block with its cancellation flag raised.
    pub open spec fn after_cancel(self) -> AssemblyControl {
        AssemblyControl { cancel_flag: true, ..self }
    }

    /// One poll with the wall clock reading `now`: the block afterwards, and
    /// whether the loop may go on.
    pub open spec fn after_poll(self, now: u64) -> (AssemblyControl, bool) {
        if self.stopped() {
            (self, false)
        } else {
            let counted = AssemblyControl {
                current_iteration: next_count(self.current_iteration),
                ..self
            };
            if self.current_iteration >= self.max_iterations {
                (AssemblyControl { cancel_flag: true, ..counted }, false)
            } else if self.current_iteration % CLOCK_CHECK_PERIOD == 0 && deadline_passed(
                self.start_time,
                now,
                self.timeout_ms,
            ) {
                (AssemblyControl { timeout_flag: true, ..counted }, false)
            } else {
                (counted, true)
            }
        }
    }

    /// A control block with no flag raised, no iteration limit, no operation
    /// in progress, and the default timeout.
    pub open spec fn new_spec() -> AssemblyControl {
        AssemblyControl {
            cancel_flag: false,
            timeout_flag: false,
            panic_flag: false,
            max_iterations: usize::MAX,
            current_iteration: 0,
            heartbeat: 0,
            start_time: 0,
            timeout_ms: DEFAULT_TIMEOUT_MS,
        }
    }

    /// A control block with no flag raised, no iteration limit, no operation
    /// in progress, and the default timeout.
    pub fn new() -> (r: AssemblyControl)
        ensures
            r == AssemblyControl::new_spec(),
    {
        AssemblyControl {
            cancel_flag: false,
            timeout_flag: false,
            panic_flag: false,
            max_iterations: usize::MAX,
            current_iteration: 0,
            heartbeat: 0,
            start_time: 0,
            timeout_ms: DEFAULT_TIMEOUT_MS,
        }
    }

    /// Prepares the block for an operation on `expected_size` elements: clears
    /// the flags and counters, grants the iteration budget and stamps the start
    /// time from the wall clock.
    pub fn reset_for_operation(&mut self, expected_size: usize)
        ensures
            *final(self) == old(self).after_reset(expected_size, final(self).start_time),
    {
        self.cancel_flag = false;
        self.timeout_flag = false;
        self.panic_flag = false;
        self.current_iteration = 0;
        self.heartbeat = 0;
        self.max_iterations = iteration_budget_of(expected_size);
        self.start_time = wall_clock_ns();
    }

    /// Whether the operation was cancelled, timed out or hit by a panic.
    pub fn was_cancelled(&self) -> (r: bool)
        ensures
            r == self.stopped(),
    {
        self.cancel_flag || self.timeout_flag || self.panic_flag
    }

    /// Whether the operation ran out of time.
    pub fn timed_out(&self) -> (r: bool)
        ensures
            r == self.timeout_flag,
    {
        self.timeout_flag
    }

    /// Asks the current operation to stop.
    pub fn cancel_all(&mut self)
        ensures
            *final(self) == old(self).after_cancel(),
    {
        self.cancel_flag = true;
    }

    /// Records that the operation ran out of time: raises the timeout and
    /// cancellation flags.
    pub fn signal_timeout(&mut self)
        ensures
            *final(self) == (AssemblyControl { timeout_flag: true, cancel_flag: true, ..*old(self) }),
    {
        self.timeout_flag = true;
        self.cancel_flag = true;
    }

    /// Records progress of the processing loop.
    pub fn update_heartbeat(&mut self)
        ensures
            *final(self) == (AssemblyControl { heartbeat: next_beat(old(self).heartbeat), ..*old(self) }),
    {
        self.heartbeat = if self.heartbeat < u64::MAX {
            self.heartbeat + 1
        } else {
            0
        };
    }

    /// One poll of a processing loop, with the wall clock reading `now_ns`.
    ///
    /// Refuses when a flag is raised; otherwise counts the poll, raises the
    /// cancellation flag once the iteration budget is spent, and on every
    /// `CLOCK_CHECK_PERIOD`-th poll raises the timeout flag when the operation is
    /// overdue.
    pub fn should_continue_at(&mut self, now_ns: u64) -> (r: bool)
        ensures
            (*final(self), r) == old(self).after_poll(now_ns),
    {
        if self.cancel_flag || self.timeout_flag || self.panic_flag {
            return false;
        }
        let current = self.current_iteration;
        if current < usize::MAX {
            self.current_iteration = current + 1;
        }
        if current >= self.max_iterations {
            self.cancel_flag = true;
            return false;
        }
        if current % CLOCK_CHECK_PERIOD == 0 && self.timeout_ms > 0 {
            let elapsed_ms = if now_ns >= self.start_time {
                (now_ns - self.start_time) / NANOS_PER_MILLI
            } else {
                0
            };
            if elapsed_ms > self.timeout_ms {
                self.timeout_flag = true;
                return false;
            }
        }
        true
    }

    /// One poll of a processing loop, reading the wall clock when the poll is
    /// due for a clock check.
    pub fn should_continue(&mut self) -> (r: bool)
        ensures
            exists|now: u64| #[trigger] old(self).after_poll(now) == (*final(self), r),
    {
        let now = if !self.was_cancelled() && self.current_iteration % CLOCK_CHECK_PERIOD == 0 {
            wall_clock_ns()
        } else {
            0
        };
        let r = self.should_continue_at(now);
        r
    }
}

/// Every poll in a row, with the wall clock reading `clock[i]` at the `i`-th,
/// lets the loop go on.
pub open spec fn polls_keep_going(c: AssemblyControl, clock: Seq<u64>) -> bool
    decreases clock.len(),
{
    if clock.len() == 0 {
        true
    } else {
        let (next, go) = c.after_poll(clock[0]);
        go && polls_keep_going(next, clock.drop_first())
    }
}

/// Every poll in a row, with the wall clock reading `clock[i]` at the `i`-th,
/// tells the loop to stop.
pub open spec fn polls_all_stop(c: AssemblyControl, clock: Seq<u64>) -> bool
    decreases clock.len(),
{
    if clock.len() == 0 {
        true
    } else {
        let (next, go) = c.after_poll(clock[0]);
        !go && polls_all_stop(next, clock.drop_first())
    }
}

proof fn lemma_polls_within_budget(c: AssemblyControl, clock: Seq<u64>)
    requires
        clock.len() > 0,
        clock.len() > c.max_iterations - c.current_iteration,
    ensures
        !polls_keep_going(c, clock),
    decreases clock.len(),
{
    let (next, go) = c.after_poll(clock[0]);
    if go {
        assert(next.current_iteration == c.current_iteration + 1);
        assert(next.max_iterations == c.max_iterations);
        lemma_polls_within_budget(next, clock.drop_first());
    }
}

/// Liveness bound: after a reset for `expected_size` elements, no polling loop
/// gets more than `max(expected_size * 10, 1000)` polls granted in a row,
/// whatever the clock reads and even when nobody cancels.
pub proof fn lemma_liveness_bound(
    c: AssemblyControl,
    expected_size: usize,
    start: u64,
    clock: Seq<u64>,
)
    requires
        clock.len() > iteration_budget(expected_size),
    ensures
        !polls_keep_going(c.after_reset(expected_size, start), clock),
{
    lemma_polls_within_budget(c.after_reset(expected_size, start), clock);
}

/// Cancellation propagation: once `cancel_all` has run, every later poll tells
/// the loop to stop, whatever the clock reads, until the next reset.
pub proof fn lemma_cancellation_sticks(c: AssemblyControl, clock: Seq<u64>)
    ensures
        polls_all_stop(c.after_cancel(), clock),
    decreases clock.len(),
{
    if clock.len() > 0 {
        let (next, go) = c.after_cancel().after_poll(clock[0]);
        assert(next == c.after_cancel());
        lemma_cancellation_sticks(c, clock.drop_first());
    }
}

/// Idempotent reset: whatever state a block is in, a reset leaves no flag
/// raised and both the iteration counter and the heartbeat at zero.
pub proof fn lemma_reset_clears(c: AssemblyControl, expected_size: usize, start: u64)
    ensures
        !c.after_reset(expected_size, start).stopped(),
        c.after_reset(expected_size, start).current_iteration == 0,
        c.after_reset(expected_size, start).heartbeat == 0,
        c.after_reset(expected_size, start) == c.after_cancel().after_reset(expected_size, start),
{
}

} // verus!
