//! The safe processor: resets the control block for each call, drives the
//! kernel gateway, classifies the outcome against the control block's flags
//! and keeps the metrics.

use crate::clock::wall_clock_ns;
use crate::control::AssemblyControl;
use crate::error::AssemblyError;
use crate::kernel::{
    char_from_code, chunk_step, clean_code, clean_next_chunk, code_of, get_assembly_interface,
    CHUNK_SIZE, MAX_INPUT_LEN,
};
use crate::metrics::{bump, SafetyMetrics};
use crate::util::{base_letter, chars_of, cleaned, string_of};
use crate::watchdog::{WatchdogConfig, WatchdogMonitor, WatchdogVerdict};
use vstd::prelude::*;

verus! {

proof fn lemma_clean_code_of_char(c: char)
    ensures
        clean_code(code_of(c)) == code_of(base_letter(c)),
{
    let d = choose|d: char| #[trigger] code_of(d) == code_of(c);
    assert(code_of(d) == code_of(c));
}

/// The code points of a slice of characters.
fn codes_of(input: &[char]) -> (r: Vec<u32>)
    ensures
        r@.len() == input@.len(),
        forall|i: int| 0 <= i < input@.len() ==> r@[i] == code_of(#[trigger] input@[i]),
{
    let mut out: Vec<u32> = Vec::with_capacity(input.len());
    let mut i: usize = 0;
    while i < input.len()
        invariant
            i <= input@.len(),
            out@.len() == i,
            forall|j: int| 0 <= j < i ==> out@[j] == code_of(#[trigger] input@[j]),
        decreases input@.len() - i,
    {
        out.push(input[i] as u32);
        i = i + 1;
    }
    out
}

/// The characters of the first `n` code points of `codes`, dropping any code
/// point that encodes no character.
fn chars_of_codes(codes: &Vec<u32>, n: usize, source: Ghost<Seq<char>>) -> (r: Vec<char>)
    requires
        n <= codes@.len(),
        n <= source@.len(),
        forall|i: int| 0 <= i < n ==> codes@[i] == code_of(base_letter(#[trigger] source@[i])),
    ensures
        r@ == cleaned(source@.subrange(0, n as int)),
{
    let mut out: Vec<char> = Vec::with_capacity(n);
    let mut i: usize = 0;
    while i < n
        invariant
            i <= n <= codes@.len(),
            n <= source@.len(),
            forall|j: int| 0 <= j < n ==> codes@[j] == code_of(base_letter(#[trigger] source@[j])),
            out@ == cleaned(source@.subrange(0, i as int)),
        decreases n - i,
    {
        let ghost expected = base_letter(source@[i as int]);
        match char_from_code(codes[i]) {
            Some(c) => {
                proof {
                    crate::kernel::lemma_code_injective(c, expected);
                }
                out.push(c);
            },
            None => {
                assert(code_of(expected) == codes@[i as int]);
            },
        }
        i = i + 1;
        assert(cleaned(source@.subrange(0, i as int)) =~= cleaned(
            source@.subrange(0, i - 1),
        ).push(expected));
    }
    out
}

/// A processor that runs the kernel under a control block of its own, with
/// optional watchdog supervision and outcome metrics.
pub struct SafeAssemblyProcessor {
    /// The control block of this processor's operations.
    pub control: AssemblyControl,
    /// How the watchdog over `control` runs, when there is one.
    pub watchdog: Option<WatchdogConfig>,
    /// Outcomes of this processor's operations.
    pub metrics: SafetyMetrics,
}

impl SafeAssemblyProcessor {
    /// A processor with the default timeout and a watchdog with the default configuration.
    pub fn new() -> (r: SafeAssemblyProcessor)
        ensures
            r.control == AssemblyControl::new_spec(),
            r.metrics == SafetyMetrics::new_spec(),
            r.watchdog is Some,
            r.watchdog->0.check_interval_ms == crate::watchdog::DEFAULT_CHECK_INTERVAL_MS,
            r.watchdog->0.stall_timeout_ms == crate::watchdog::DEFAULT_STALL_TIMEOUT_MS,
            r.watchdog->0.enabled,
    {
        SafeAssemblyProcessor {
            control: AssemblyControl::new(),
            watchdog: Some(WatchdogConfig::default()),
            metrics: SafetyMetrics::new(),
        }
    }

    /// A processor like `new`, whose operations have `timeout_ms` to complete.
    pub fn with_timeout(timeout_ms: u64) -> (r: SafeAssemblyProcessor)
        ensures
            r.control == (AssemblyControl { timeout_ms, ..AssemblyControl::new_spec() }),
            r.metrics == SafetyMetrics::new_spec(),
            r.watchdog is Some,
            r.watchdog->0.check_interval_ms == crate::watchdog::DEFAULT_CHECK_INTERVAL_MS,
            r.watchdog->0.stall_timeout_ms == crate::watchdog::DEFAULT_STALL_TIMEOUT_MS,
            r.watchdog->0.enabled,
    {
        let mut processor = Self::new();
        processor.control.timeout_ms = timeout_ms;
        processor
    }

    /// A processor with the default timeout and a watchdog configured by `config`.
    pub fn with_watchdog_config(config: WatchdogConfig) -> (r: SafeAssemblyProcessor)
        ensures
            r.control == AssemblyControl::new_spec(),
            r.metrics == SafetyMetrics::new_spec(),
            r.watchdog == Some(config),
    {
        SafeAssemblyProcessor {
            control: AssemblyControl::new(),
            watchdog: Some(config),
            metrics: SafetyMetrics::new(),
        }
    }

    /// A processor with the default timeout and no watchdog.
    pub fn without_watchdog() -> (r: SafeAssemblyProcessor)
        ensures
            r.control == AssemblyControl::new_spec(),
            r.metrics == SafetyMetrics::new_spec(),
            r.watchdog is None,
    {
        SafeAssemblyProcessor {
            control: AssemblyControl::new(),
            watchdog: None,
            metrics: SafetyMetrics::new(),
        }
    }

    /// Strips tone marks and modifications from `input` under supervision.
    ///
    /// Empty input succeeds at once and touches nothing. Otherwise the
    /// operation is counted as started and the control block is reset for it;
    /// input over `MAX_INPUT_LEN` is `InvalidInput`. When the control block
    /// reports a stop afterwards, the outcome is as `finish_operation` gives
    /// it: `Timeout` counted as timed out, `Cancelled` counted as cancelled;
    /// else the operation is counted as completed with the time it took and
    /// the cleaned characters are returned. A stop here can only come from the clock, so with a timeout of
    /// zero every input up to `MAX_INPUT_LEN` succeeds.
    pub fn process_chars_safe(&mut self, input: &[char]) -> (r: Result<Vec<char>, AssemblyError>)
        ensures
            input@.len() == 0 ==> r is Ok && r->Ok_0@.len() == 0 && *final(self) == *old(self),
            final(self).watchdog == old(self).watchdog,
            final(self).control.timeout_ms == old(self).control.timeout_ms,
            input@.len() > 0 ==> {
                &&& final(self).metrics.operations_started == bump(old(self).metrics.operations_started, 1)
                &&& final(self).metrics.memory_allocations == old(self).metrics.memory_allocations
                &&& final(self).metrics.peak_memory_usage == old(self).metrics.peak_memory_usage
                &&& input@.len() > MAX_INPUT_LEN ==> r == Err::<Vec<char>, AssemblyError>(AssemblyError::InvalidInput)
                &&& input@.len() <= MAX_INPUT_LEN ==> (r is Ok <==> !final(self).control.timeout_flag)
                &&& input@.len() <= MAX_INPUT_LEN && old(self).control.timeout_ms == 0 ==> r is Ok
                &&& r is Ok ==> {
                    &&& r->Ok_0@ == cleaned(input@)
                    &&& !final(self).control.stopped()
                    &&& final(self).metrics.operations_completed == bump(old(self).metrics.operations_completed, 1)
                    &&& final(self).metrics.operations_cancelled == old(self).metrics.operations_cancelled
                    &&& final(self).metrics.operations_timed_out == old(self).metrics.operations_timed_out
                }
                &&& input@.len() <= MAX_INPUT_LEN && r is Err ==> {
                    &&& r == Err::<Vec<char>, AssemblyError>(AssemblyError::Timeout)
                    &&& final(self).metrics.operations_timed_out == bump(old(self).metrics.operations_timed_out, 1)
                    &&& final(self).metrics.operations_cancelled == old(self).metrics.operations_cancelled
                    &&& final(self).metrics.operations_completed == old(self).metrics.operations_completed
                    &&& final(self).metrics.total_safety_overhead_ns == old(self).metrics.total_safety_overhead_ns
                }
            },
    {
        if input.len() == 0 {
            return Ok(Vec::new());
        }
        let start_ns = self.begin_operation(input.len());
        let codes = codes_of(input);
        let mut output: Vec<u32> = vec![0u32; input.len()];
        let interface = get_assembly_interface();
        let processed = match interface.process_chars_bulk_safe(
            codes.as_slice(),
            output.as_mut_slice(),
            &mut self.control,
        ) {
            Ok(n) => n,
            Err(e) => {
                return Err(e);
            },
        };
        if self.control.was_cancelled() {
            return self.finish_operation(Vec::new(), start_ns);
        }
        proof {
            assert forall|i: int| 0 <= i < processed implies output@[i] == code_of(
                base_letter(#[trigger] input@[i]),
            ) by {
                lemma_clean_code_of_char(input@[i]);
            }
        }
        let result = chars_of_codes(&output, processed, Ghost(input@));
        assert(input@.subrange(0, processed as int) =~= input@);
        self.finish_operation(result, start_ns)
    }

    /// Opens an operation on `len` elements: counts it as started, resets the
    /// control block for it, and returns the wall-clock time it started at.
    pub fn begin_operation(&mut self, len: usize) -> (start_ns: u64)
        ensures
            final(self).control == old(self).control.after_reset(len, final(self).control.start_time),
            final(self).metrics == (SafetyMetrics {
                operations_started: bump(old(self).metrics.operations_started, 1),
                ..old(self).metrics
            }),
            final(self).watchdog == old(self).watchdog,
    {
        let start_ns = wall_clock_ns();
        self.metrics.record_start();
        self.control.reset_for_operation(len);
        start_ns
    }

    /// One chunk of an open operation, for callers that let go of the
    /// processor between chunks so that a cancellation or the watchdog can
    /// reach it: `clean_next_chunk` over this processor's control block.
    pub fn process_next_chunk(&mut self, input: &[char], from: usize, out: &mut Vec<char>) -> (r:
        Option<usize>)
        requires
            from < input@.len(),
            old(out)@ == cleaned(input@.subrange(0, from as int)),
        ensures
            exists|now: u64| #[trigger] chunk_step(old(self).control, now, final(self).control, r is Some),
            r is None ==> final(out)@ == old(out)@,
            r matches Some(end) ==> {
                &&& end == if input@.len() - from > CHUNK_SIZE {
                    from + CHUNK_SIZE
                } else {
                    input@.len() as int
                }
                &&& final(out)@ == cleaned(input@.subrange(0, end as int))
            },
            final(self).metrics == old(self).metrics,
            final(self).watchdog == old(self).watchdog,
    {
        let ghost before = self.control;
        let r = clean_next_chunk(input, from, out, &mut self.control);
        let ghost now = choose|now: u64| #[trigger] chunk_step(before, now, self.control, r is Some);
        assert(chunk_step(old(self).control, now, self.control, r is Some));
        r
    }

    /// Closes an operation that produced `output` and started at `start_ns`,
    /// as the control block calls for: `Timeout`, counted as timed out, when
    /// the timeout flag is raised; `Cancelled`, counted as cancelled, when
    /// another flag is; otherwise `output`, counted as completed with the
    /// time elapsed since `start_ns`.
    pub fn finish_operation(&mut self, output: Vec<char>, start_ns: u64) -> (r: Result<
        Vec<char>,
        AssemblyError,
    >)
        ensures
            final(self).control == old(self).control,
            final(self).watchdog == old(self).watchdog,
            old(self).control.timeout_flag ==> r == Err::<Vec<char>, AssemblyError>(
                AssemblyError::Timeout,
            ) && final(self).metrics == (SafetyMetrics {
                operations_timed_out: bump(old(self).metrics.operations_timed_out, 1),
                ..old(self).metrics
            }),
            !old(self).control.timeout_flag && old(self).control.stopped() ==> r == Err::<
                Vec<char>,
                AssemblyError,
            >(AssemblyError::Cancelled) && final(self).metrics == (SafetyMetrics {
                operations_cancelled: bump(old(self).metrics.operations_cancelled, 1),
                ..old(self).metrics
            }),
            !old(self).control.stopped() ==> r is Ok && r->Ok_0@ == output@ && exists|
                overhead_ns: u64,
            | #[trigger] bump(old(self).metrics.total_safety_overhead_ns, overhead_ns)
                == final(self).metrics.total_safety_overhead_ns && final(self).metrics == (
            SafetyMetrics {
                operations_completed: bump(old(self).metrics.operations_completed, 1),
                total_safety_overhead_ns: bump(old(self).metrics.total_safety_overhead_ns, overhead_ns),
                ..old(self).metrics
            }),
    {
        if self.control.timed_out() {
            self.metrics.record_timeout();
            return Err(AssemblyError::Timeout);
        }
        if self.control.was_cancelled() {
            self.metrics.record_cancellation();
            return Err(AssemblyError::Cancelled);
        }
        let end_ns = wall_clock_ns();
        let overhead_ns = if end_ns >= start_ns {
            end_ns - start_ns
        } else {
            0
        };
        self.metrics.record_completion(overhead_ns);
        Ok(output)
    }

    /// Strips tone marks and modifications from a string under supervision,
    /// as `process_chars_safe` does for its characters.
    pub fn process_string_safe(&mut self, input: &str) -> (r: Result<String, AssemblyError>)
        ensures
            input@.len() == 0 ==> r is Ok && r->Ok_0@.len() == 0 && *final(self) == *old(self),
            final(self).watchdog == old(self).watchdog,
            input@.len() > MAX_INPUT_LEN ==> r == Err::<String, AssemblyError>(AssemblyError::InvalidInput),
            0 < input@.len() <= MAX_INPUT_LEN ==> (r is Ok <==> !final(self).control.timeout_flag),
            0 < input@.len() <= MAX_INPUT_LEN && old(self).control.timeout_ms == 0 ==> r is Ok,
            0 < input@.len() <= MAX_INPUT_LEN && r is Err ==> r == Err::<String, AssemblyError>(AssemblyError::Timeout),
            r is Ok ==> r->Ok_0@ == cleaned(input@),
    {
        let chars = chars_of(input);
        match self.process_chars_safe(chars.as_slice()) {
            Ok(v) => Ok(string_of(v.as_slice())),
            Err(e) => Err(e),
        }
    }

    /// The metrics of this processor.
    pub fn get_metrics(&self) -> (r: &SafetyMetrics)
        ensures
            *r == self.metrics,
    {
        &self.metrics
    }

    /// Asks the current operation to stop.
    pub fn cancel(&mut self)
        ensures
            final(self).control == old(self).control.after_cancel(),
            final(self).watchdog == old(self).watchdog,
            final(self).metrics == old(self).metrics,
    {
        self.control.cancel_all();
    }

    /// Whether a watchdog supervises this processor.
    pub fn has_watchdog(&self) -> (r: bool)
        ensures
            r == self.watchdog is Some,
    {
        self.watchdog.is_some()
    }

    /// The configuration of this processor's watchdog, when it has one.
    pub fn watchdog_config(&self) -> (r: Option<&WatchdogConfig>)
        ensures
            r == match self.watchdog {
                Some(c) => Some(&c),
                None => None::<&WatchdogConfig>,
            },
    {
        match &self.watchdog {
            Some(c) => Some(c),
            None => None,
        }
    }

    /// One wake-up of this processor's watchdog: `WatchdogMonitor::tick` over
    /// its control block, with the configuration it was built with. Without a
    /// watchdog nothing changes and the verdict is `Idle`.
    pub fn watchdog_tick(&mut self, monitor: &mut WatchdogMonitor, now_ns: u64, now_ms: u64) -> (r:
        WatchdogVerdict)
        ensures
            final(self).watchdog == old(self).watchdog,
            final(self).metrics == old(self).metrics,
            old(self).watchdog is None ==> r == WatchdogVerdict::Idle && *final(self) == *old(self)
                && *final(monitor) == *old(monitor),
            old(self).watchdog is Some ==> (*final(monitor), final(self).control, r)
                == old(monitor).after_tick(
                old(self).watchdog->0,
                old(self).control,
                now_ns,
                now_ms,
            ),
    {
        match &self.watchdog {
            Some(config) => {
                let config = *config;
                monitor.tick(&config, &mut self.control, now_ns, now_ms)
            },
            None => WatchdogVerdict::Idle,
        }
    }
}

} // verus!
