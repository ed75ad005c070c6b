//! The high-level processor: picks a strategy by the user's preference, runs
//! it with retries and a software fallback, and keeps statistics.

use crate::clock::wall_clock_ns;
use crate::error::AssemblyError;
use crate::optimization_selector::{
    OptimizationSelector, OptimizationStrategy, StrategyProcessor,
    VietnameseProcessor, strategy_at,
};
use crate::util::{base_letter, chars_of, clean_char, clean_string, cleaned};
use vstd::prelude::*;

verus! {

/// Default time budget of an operation, in milliseconds.
pub const DEFAULT_OPERATION_TIMEOUT_MS: u64 = 5000;

/// Default number of retries of a failed operation.
pub const DEFAULT_MAX_RETRIES: u32 = 2;

/// How the user wants the strategy chosen.
///
/// New preferences may be added without breaking callers.
#[derive(Debug, Clone, Copy, PartialEq, Eq, Structural, Default)]
#[non_exhaustive]
pub enum OptimizationPreference {
    /// The best available strategy.
    #[default]
    Auto,
    /// The software kernel only.
    ForceRustOnly,
    /// A native kernel, or an error when none is available.
    ForceAssembly,
    /// The software kernel, falling back to the best available strategy.
    PreferRust,
    /// A native kernel, falling back to the software kernel.
    PreferAssembly,
    /// Exactly this strategy, or an error when it is unavailable.
    ForceSpecific(OptimizationStrategy),
}

/// Options of a processor.
#[derive(Debug, Clone, Copy)]
pub struct ProcessorConfig {
    /// Keep statistics.
    pub enable_monitoring: bool,
    /// Time budget of an operation, in milliseconds.
    pub operation_timeout_ms: u64,
    /// Fall back to the software kernel on timeouts and kernel errors.
    pub enable_fallback: bool,
    /// Retries of a failed operation.
    pub max_retries: u32,
    /// How the strategy is chosen.
    pub optimization_preference: OptimizationPreference,
}

impl ProcessorConfig {
    /// The default options: monitoring and fallback on, a five-second budget,
    /// two retries, automatic strategy choice.
    pub open spec fn default_spec() -> ProcessorConfig {
        ProcessorConfig {
            enable_monitoring: true,
            operation_timeout_ms: DEFAULT_OPERATION_TIMEOUT_MS,
            enable_fallback: true,
            max_retries: DEFAULT_MAX_RETRIES,
            optimization_preference: OptimizationPreference::Auto,
        }
    }
}

impl Default for ProcessorConfig {
    fn default() -> (r: ProcessorConfig)
        ensures
            r == ProcessorConfig::default_spec(),
    {
        ProcessorConfig {
            enable_monitoring: true,
            operation_timeout_ms: DEFAULT_OPERATION_TIMEOUT_MS,
            enable_fallback: true,
            max_retries: DEFAULT_MAX_RETRIES,
            optimization_preference: OptimizationPreference::Auto,
        }
    }
}

/// Statistics of a processor's operations. Counters saturate at `u64::MAX`.
#[derive(Debug, Clone, Copy)]
pub struct ProcessingStats {
    /// Characters processed.
    pub total_chars_processed: u64,
    /// Strings processed.
    pub total_strings_processed: u64,
    /// Time spent processing, in nanoseconds.
    pub total_processing_time_ns: u64,
    /// Operations that succeeded.
    pub successful_operations: u64,
    /// Operations that failed.
    pub failed_operations: u64,
    /// Operations that went to the software fallback.
    pub fallback_operations: u64,
    /// The highest rate of a string operation, in characters per second.
    pub peak_processing_rate: u64,
}

/// A `u64` counter after adding `n`, saturating at `u64::MAX`.
pub open spec fn add_sat(counter: u64, n: u64) -> u64 {
    if counter + n > u64::MAX {
        u64::MAX
    } else {
        (counter + n) as u64
    }
}

impl ProcessingStats {
    /// Statistics with every counter at zero.
    pub open spec fn zero() -> ProcessingStats {
        ProcessingStats {
            total_chars_processed: 0,
            total_strings_processed: 0,
            total_processing_time_ns: 0,
            successful_operations: 0,
            failed_operations: 0,
            fallback_operations: 0,
            peak_processing_rate: 0,
        }
    }

    /// Statistics with every counter at zero.
    pub fn new() -> (r: ProcessingStats)
        ensures
            r == ProcessingStats::zero(),
    {
        ProcessingStats {
            total_chars_processed: 0,
            total_strings_processed: 0,
            total_processing_time_ns: 0,
            successful_operations: 0,
            failed_operations: 0,
            fallback_operations: 0,
            peak_processing_rate: 0,
        }
    }

    /// The mean processing time of a character in nanoseconds (rounded down),
    /// or zero when none was processed.
    pub fn avg_time_per_char_ns(&self) -> (r: u64)
        ensures
            r == if self.total_chars_processed > 0 {
                self.total_processing_time_ns / self.total_chars_processed
            } else {
                0
            },
    {
        if self.total_chars_processed > 0 {
            self.total_processing_time_ns / self.total_chars_processed
        } else {
            0
        }
    }
}

/// Builder of a configured processor.
pub struct ProcessorBuilder {
    /// The options gathered so far.
    pub config: ProcessorConfig,
}

impl ProcessorBuilder {
    /// A builder with the default options.
    pub fn new() -> (r: ProcessorBuilder)
        ensures
            r.config == ProcessorConfig::default_spec(),
    {
        ProcessorBuilder { config: ProcessorConfig::default() }
    }

    /// Turns statistics on or off.
    pub fn with_monitoring(self, enable: bool) -> (r: ProcessorBuilder)
        ensures
            r.config == (ProcessorConfig { enable_monitoring: enable, ..self.config }),
    {
        let mut b = self;
        b.config.enable_monitoring = enable;
        b
    }

    /// Sets the time budget of an operation, in milliseconds.
    pub fn with_timeout(self, timeout_ms: u64) -> (r: ProcessorBuilder)
        ensures
            r.config == (ProcessorConfig { operation_timeout_ms: timeout_ms, ..self.config }),
    {
        let mut b = self;
        b.config.operation_timeout_ms = timeout_ms;
        b
    }

    /// Turns the software fallback on or off.
    pub fn with_fallback(self, enable: bool) -> (r: ProcessorBuilder)
        ensures
            r.config == (ProcessorConfig { enable_fallback: enable, ..self.config }),
    {
        let mut b = self;
        b.config.enable_fallback = enable;
        b
    }

    /// Sets the number of retries of a failed operation.
    pub fn with_max_retries(self, max_retries: u32) -> (r: ProcessorBuilder)
        ensures
            r.config == (ProcessorConfig { max_retries, ..self.config }),
    {
        let mut b = self;
        b.config.max_retries = max_retries;
        b
    }

    /// Sets how the strategy is chosen.
    pub fn with_optimization_preference(self, preference: OptimizationPreference) -> (r:
        ProcessorBuilder)
        ensures
            r.config == (ProcessorConfig { optimization_preference: preference, ..self.config }),
    {
        let mut b = self;
        b.config.optimization_preference = preference;
        b
    }

    /// Uses the software kernel only.
    pub fn force_rust_only(self) -> (r: ProcessorBuilder)
        ensures
            r.config == (ProcessorConfig {
                optimization_preference: OptimizationPreference::ForceRustOnly,
                ..self.config
            }),
    {
        self.with_optimization_preference(OptimizationPreference::ForceRustOnly)
    }

    /// Uses a native kernel, failing to build when none is available.
    pub fn force_assembly(self) -> (r: ProcessorBuilder)
        ensures
            r.config == (ProcessorConfig {
                optimization_preference: OptimizationPreference::ForceAssembly,
                ..self.config
            }),
    {
        self.with_optimization_preference(OptimizationPreference::ForceAssembly)
    }

    /// Prefers the software kernel.
    pub fn prefer_rust(self) -> (r: ProcessorBuilder)
        ensures
            r.config == (ProcessorConfig {
                optimization_preference: OptimizationPreference::PreferRust,
                ..self.config
            }),
    {
        self.with_optimization_preference(OptimizationPreference::PreferRust)
    }

    /// Prefers a native kernel.
    pub fn prefer_assembly(self) -> (r: ProcessorBuilder)
        ensures
            r.config == (ProcessorConfig {
                optimization_preference: OptimizationPreference::PreferAssembly,
                ..self.config
            }),
    {
        self.with_optimization_preference(OptimizationPreference::PreferAssembly)
    }

    /// Uses exactly `strategy`, failing to build when it is unavailable.
    pub fn with_strategy(self, strategy: OptimizationStrategy) -> (r: ProcessorBuilder)
        ensures
            r.config == (ProcessorConfig {
                optimization_preference: OptimizationPreference::ForceSpecific(strategy),
                ..self.config
            }),
    {
        self.with_optimization_preference(OptimizationPreference::ForceSpecific(strategy))
    }

    /// The processor these options describe, over the strategies of `selector`.
    pub fn build(self, selector: &OptimizationSelector) -> (r: Result<
        VietnameseTextProcessor,
        AssemblyError,
    >)
        requires
            selector.wf(),
        ensures
            r is Ok <==> preference_satisfiable(self.config.optimization_preference, *selector),
            r matches Ok(p) ==> p.config == self.config && p.stats == ProcessingStats::zero()
                && p.processor.strategy() == chosen_strategy(
                self.config.optimization_preference,
                *selector,
            ),
    {
        VietnameseTextProcessor::with_config(self.config, selector)
    }
}

/// Some native strategy is available to `selector`.
pub open spec fn native_available(selector: OptimizationSelector) -> bool {
    exists|i: int| 0 <= i < 3 && #[trigger] selector.profiles_spec()[i].available
}

/// The first native strategy available to `selector`, in the order Apple
/// Silicon, generic ARM64, `x86_64`.
pub open spec fn first_native(selector: OptimizationSelector) -> OptimizationStrategy {
    if selector.profiles_spec()[0].available {
        strategy_at(0)
    } else if selector.profiles_spec()[1].available {
        strategy_at(1)
    } else {
        strategy_at(2)
    }
}

/// Whether a processor can be had for `preference` over `selector`.
pub open spec fn preference_satisfiable(
    preference: OptimizationPreference,
    selector: OptimizationSelector,
) -> bool {
    match preference {
        OptimizationPreference::ForceAssembly => native_available(selector),
        OptimizationPreference::ForceSpecific(s) => exists|i: int|
            0 <= i < 5 && selector.profiles_spec()[i].strategy == s
                && #[trigger] selector.profiles_spec()[i].available,
        _ => true,
    }
}

/// The strategy that `preference` picks over `selector`, when it can be had.
pub open spec fn chosen_strategy(
    preference: OptimizationPreference,
    selector: OptimizationSelector,
) -> OptimizationStrategy {
    match preference {
        OptimizationPreference::Auto => selector.selected_spec(),
        OptimizationPreference::ForceRustOnly => OptimizationStrategy::RustOptimized,
        OptimizationPreference::PreferRust => OptimizationStrategy::RustOptimized,
        OptimizationPreference::ForceAssembly => first_native(selector),
        OptimizationPreference::PreferAssembly => if native_available(selector) {
            first_native(selector)
        } else {
            OptimizationStrategy::RustOptimized
        },
        OptimizationPreference::ForceSpecific(s) => s,
    }
}

/// A processor that runs the strategy chosen by the user's preference, with
/// retries, a software fallback and statistics.
pub struct VietnameseTextProcessor {
    /// The processor of the chosen strategy.
    pub processor: StrategyProcessor,
    /// Statistics of the operations so far.
    pub stats: ProcessingStats,
    /// The options.
    pub config: ProcessorConfig,
}

/// The statistics after one operation on `chars` characters that took
/// `elapsed_ns` and succeeded when `ok`; `string` tells a string operation,
/// which also counts the string and may raise the peak rate.
pub open spec fn after_operation(
    s: ProcessingStats,
    chars: u64,
    string: bool,
    elapsed_ns: u64,
    ok: bool,
) -> ProcessingStats {
    ProcessingStats {
        total_chars_processed: add_sat(s.total_chars_processed, chars),
        total_strings_processed: if string {
            add_sat(s.total_strings_processed, 1)
        } else {
            s.total_strings_processed
        },
        total_processing_time_ns: add_sat(s.total_processing_time_ns, elapsed_ns),
        successful_operations: if ok {
            add_sat(s.successful_operations, 1)
        } else {
            s.successful_operations
        },
        failed_operations: if ok {
            s.failed_operations
        } else {
            add_sat(s.failed_operations, 1)
        },
        fallback_operations: s.fallback_operations,
        peak_processing_rate: if string && elapsed_ns > 0 && rate_of(chars, elapsed_ns)
            > s.peak_processing_rate {
            rate_of(chars, elapsed_ns)
        } else {
            s.peak_processing_rate
        },
    }
}

/// Characters per second for `chars` characters in `elapsed_ns` nanoseconds,
/// rounded down and capped at `u64::MAX`.
pub open spec fn rate_of(chars: u64, elapsed_ns: u64) -> u64 {
    let r = chars * 1_000_000_000int / elapsed_ns as int;
    if r > u64::MAX {
        u64::MAX
    } else {
        r as u64
    }
}

impl VietnameseTextProcessor {
    /// A processor with the default options over the strategies of `selector`.
    pub fn new(selector: &OptimizationSelector) -> (r: Result<VietnameseTextProcessor, AssemblyError>)
        requires
            selector.wf(),
        ensures
            r matches Ok(p) && p.config == ProcessorConfig::default_spec() && p.stats
                == ProcessingStats::zero() && p.processor.strategy() == selector.selected_spec(),
    {
        Self::with_config(ProcessorConfig::default(), selector)
    }

    /// A processor with the options `config`, running the strategy that its
    /// preference picks over `selector`; `ExecutionError` when that strategy
    /// cannot be had.
    pub fn with_config(config: ProcessorConfig, selector: &OptimizationSelector) -> (r: Result<
        VietnameseTextProcessor,
        AssemblyError,
    >)
        requires
            selector.wf(),
        ensures
            r is Ok <==> preference_satisfiable(config.optimization_preference, *selector),
            r matches Ok(p) ==> p.config == config && p.stats == ProcessingStats::zero()
                && p.processor.strategy() == chosen_strategy(
                config.optimization_preference,
                *selector,
            ),
            r matches Err(e) ==> e is ExecutionError,
    {
        let processor = match Self::create_processor_with_preference(
            config.optimization_preference,
            selector,
        ) {
            Ok(p) => p,
            Err(e) => {
                return Err(e);
            },
        };
        Ok(VietnameseTextProcessor { processor, stats: ProcessingStats::new(), config })
    }

    fn create_processor_with_preference(
        preference: OptimizationPreference,
        selector: &OptimizationSelector,
    ) -> (r: Result<StrategyProcessor, AssemblyError>)
        requires
            selector.wf(),
        ensures
            r is Ok <==> preference_satisfiable(preference, *selector),
            r matches Ok(p) ==> p.strategy() == chosen_strategy(preference, *selector),
            r matches Err(e) ==> e is ExecutionError,
    {
        match preference {
            OptimizationPreference::Auto => selector.create_processor(),
            OptimizationPreference::ForceRustOnly => Self::create_rust_processor(selector),
            OptimizationPreference::ForceAssembly => Self::create_assembly_processor(selector),
            OptimizationPreference::PreferRust => match Self::create_rust_processor(selector) {
                Ok(p) => Ok(p),
                Err(_) => selector.create_processor(),
            },
            OptimizationPreference::PreferAssembly => match Self::create_assembly_processor(
                selector,
            ) {
                Ok(p) => Ok(p),
                Err(_) => Self::create_rust_processor(selector),
            },
            OptimizationPreference::ForceSpecific(strategy) => Self::create_specific_processor(
                strategy,
                selector,
            ),
        }
    }

    fn create_rust_processor(selector: &OptimizationSelector) -> (r: Result<
        StrategyProcessor,
        AssemblyError,
    >)
        requires
            selector.wf(),
        ensures
            r matches Ok(p) && p.strategy() == OptimizationStrategy::RustOptimized,
    {
        assert(selector.profiles_spec()[3].strategy == strategy_at(3));
        StrategyProcessor::for_strategy(OptimizationStrategy::RustOptimized, selector)
    }

    fn create_assembly_processor(selector: &OptimizationSelector) -> (r: Result<
        StrategyProcessor,
        AssemblyError,
    >)
        requires
            selector.wf(),
        ensures
            r is Ok <==> native_available(*selector),
            r matches Ok(p) ==> p.strategy() == first_native(*selector),
            r matches Err(e) ==> e is ExecutionError,
    {
        let candidates = [
            OptimizationStrategy::AppleSiliconAssembly,
            OptimizationStrategy::GenericArm64Assembly,
            OptimizationStrategy::X86_64Assembly,
        ];
        let mut i: usize = 0;
        while i < 3
            invariant
                selector.wf(),
                candidates@ == seq![
                    OptimizationStrategy::AppleSiliconAssembly,
                    OptimizationStrategy::GenericArm64Assembly,
                    OptimizationStrategy::X86_64Assembly,
                ],
                i <= 3,
                forall|j: int| 0 <= j < i ==> !#[trigger] selector.profiles_spec()[j].available,
            decreases 3 - i,
        {
            let strategy = candidates[i];
            assert(selector.profiles_spec()[i as int].strategy == strategy_at(i as int));
            match selector.profile_of(strategy) {
                Some(profile) => {
                    if profile.available {
                        proof {
                            lemma_profile_position(*selector, strategy);
                        }
                        return Self::create_specific_processor(strategy, selector);
                    }
                    proof {
                        lemma_profile_position(*selector, strategy);
                    }
                },
                None => {},
            }
            i = i + 1;
        }
        Err(
            AssemblyError::ExecutionError(
                String::from_str("No assembly optimizations available on this platform"),
            ),
        )
    }

    fn create_specific_processor(
        strategy: OptimizationStrategy,
        selector: &OptimizationSelector,
    ) -> (r: Result<StrategyProcessor, AssemblyError>)
        requires
            selector.wf(),
        ensures
            r is Ok <==> exists|i: int|
                0 <= i < 5 && selector.profiles_spec()[i].strategy == strategy
                    && #[trigger] selector.profiles_spec()[i].available,
            r matches Ok(p) ==> p.strategy() == strategy,
            r matches Err(e) ==> e is ExecutionError,
    {
        StrategyProcessor::for_strategy(strategy, selector)
    }
}

proof fn lemma_profile_position(selector: OptimizationSelector, strategy: OptimizationStrategy)
    requires
        selector.wf(),
    ensures
        forall|i: int|
            0 <= i < 5 && #[trigger] selector.profiles_spec()[i].strategy == strategy ==> i
                == match strategy {
                OptimizationStrategy::AppleSiliconAssembly => 0int,
                OptimizationStrategy::GenericArm64Assembly => 1int,
                OptimizationStrategy::X86_64Assembly => 2int,
                OptimizationStrategy::RustOptimized => 3int,
                OptimizationStrategy::RustStandard => 4int,
            },
{
    assert forall|i: int| 0 <= i < 5 && #[trigger] selector.profiles_spec()[i].strategy == strategy implies i == match strategy {
        OptimizationStrategy::AppleSiliconAssembly => 0int,
        OptimizationStrategy::GenericArm64Assembly => 1int,
        OptimizationStrategy::X86_64Assembly => 2int,
        OptimizationStrategy::RustOptimized => 3int,
        OptimizationStrategy::RustStandard => 4int,
    } by {
        assert(selector.profiles_spec()[i].strategy == strategy_at(i));
    }
}


impl VietnameseTextProcessor {
    /// Strips the tone mark and modification from one character with the
    /// chosen strategy, retrying and falling back as configured, and records
    /// the operation in the statistics when monitoring is on.
    pub fn process_char(&mut self, ch: char) -> (r: Result<char, AssemblyError>)
        ensures
            r is Ok ==> r == Ok::<char, AssemblyError>(base_letter(ch)),
            r is Err ==> r == Err::<char, AssemblyError>(AssemblyError::Timeout),
            old(self).config.enable_fallback && old(self).config.max_retries > 0 ==> r is Ok,
            final(self).config == old(self).config,
            final(self).processor.strategy() == old(self).processor.strategy(),
            !old(self).config.enable_monitoring ==> final(self).stats.total_chars_processed
                == old(self).stats.total_chars_processed,
            old(self).config.enable_monitoring ==> {
                &&& final(self).stats.total_chars_processed == add_sat(
                    old(self).stats.total_chars_processed,
                    1,
                )
                &&& final(self).stats.successful_operations == if r is Ok {
                    add_sat(old(self).stats.successful_operations, 1)
                } else {
                    old(self).stats.successful_operations
                }
                &&& final(self).stats.failed_operations == if r is Ok {
                    old(self).stats.failed_operations
                } else {
                    add_sat(old(self).stats.failed_operations, 1)
                }
            },
    {
        let monitoring = self.config.enable_monitoring;
        let start_ns = if monitoring {
            wall_clock_ns()
        } else {
            0
        };
        let result = self.process_char_with_retry(ch, self.config.max_retries);
        if monitoring {
            self.update_stats(start_ns, 1, false, result.is_ok());
        }
        result
    }

    /// Strips tone marks and modifications from a string with the chosen
    /// strategy, retrying and falling back as configured, and records the
    /// operation in the statistics when monitoring is on. The empty string
    /// succeeds at once and is not recorded.
    pub fn process_string(&mut self, input: &str) -> (r: Result<String, AssemblyError>)
        ensures
            r is Ok ==> r->Ok_0@ == cleaned(input@),
            r is Err ==> r == Err::<String, AssemblyError>(AssemblyError::Timeout) || (r
                == Err::<String, AssemblyError>(AssemblyError::InvalidInput) && input@.len()
                > crate::kernel::MAX_INPUT_LEN),
            old(self).config.enable_fallback && old(self).config.max_retries > 0 && input@.len()
                <= crate::kernel::MAX_INPUT_LEN ==> r is Ok,
            input@.len() == 0 ==> *final(self) == *old(self),
            final(self).config == old(self).config,
            final(self).processor.strategy() == old(self).processor.strategy(),
            old(self).config.enable_monitoring && input@.len() > 0 ==> {
                &&& final(self).stats.total_strings_processed == add_sat(
                    old(self).stats.total_strings_processed,
                    1,
                )
                &&& final(self).stats.successful_operations == if r is Ok {
                    add_sat(old(self).stats.successful_operations, 1)
                } else {
                    old(self).stats.successful_operations
                }
            },
    {
        let chars = chars_of(input);
        if chars.len() == 0 {
            return Ok(String::new());
        }
        let monitoring = self.config.enable_monitoring;
        let start_ns = if monitoring {
            wall_clock_ns()
        } else {
            0
        };
        let result = self.process_string_with_retry(input, self.config.max_retries);
        if monitoring {
            let count = chars.len() as u64;
            self.update_stats(start_ns, count, true, result.is_ok());
        }
        result
    }

    fn process_char_with_retry(&mut self, ch: char, retries_left: u32) -> (r: Result<
        char,
        AssemblyError,
    >)
        ensures
            r is Ok ==> r == Ok::<char, AssemblyError>(base_letter(ch)),
            r is Err ==> r == Err::<char, AssemblyError>(AssemblyError::Timeout),
            old(self).config.enable_fallback && retries_left > 0 ==> r is Ok,
            final(self).config == old(self).config,
            final(self).processor.strategy() == old(self).processor.strategy(),
            final(self).stats == (ProcessingStats {
                fallback_operations: final(self).stats.fallback_operations,
                ..old(self).stats
            }),
        decreases retries_left,
    {
        match self.processor.process_char(ch) {
            Ok(c) => Ok(c),
            Err(e) => {
                if retries_left > 0 && self.config.enable_fallback {
                    match e {
                        AssemblyError::Timeout | AssemblyError::ExecutionError(_) => {
                            self.fallback_process_char(ch)
                        },
                        AssemblyError::Cancelled | AssemblyError::Panic => Err(e),
                        _ => self.process_char_with_retry(ch, retries_left - 1),
                    }
                } else {
                    Err(e)
                }
            },
        }
    }

    fn process_string_with_retry(&mut self, input: &str, retries_left: u32) -> (r: Result<
        String,
        AssemblyError,
    >)
        ensures
            r is Ok ==> r->Ok_0@ == cleaned(input@),
            r is Err ==> r == Err::<String, AssemblyError>(AssemblyError::Timeout) || (r
                == Err::<String, AssemblyError>(AssemblyError::InvalidInput) && input@.len()
                > crate::kernel::MAX_INPUT_LEN),
            old(self).config.enable_fallback && retries_left > 0 && input@.len()
                <= crate::kernel::MAX_INPUT_LEN ==> r is Ok,
            final(self).config == old(self).config,
            final(self).processor.strategy() == old(self).processor.strategy(),
            final(self).stats == (ProcessingStats {
                fallback_operations: final(self).stats.fallback_operations,
                ..old(self).stats
            }),
        decreases retries_left,
    {
        match self.processor.process_string(input) {
            Ok(s) => Ok(s),
            Err(e) => {
                if retries_left > 0 && self.config.enable_fallback {
                    match e {
                        AssemblyError::Timeout | AssemblyError::ExecutionError(_) => {
                            self.fallback_process_string(input)
                        },
                        AssemblyError::Cancelled | AssemblyError::Panic => Err(e),
                        _ => self.process_string_with_retry(input, retries_left - 1),
                    }
                } else {
                    Err(e)
                }
            },
        }
    }

    fn fallback_process_char(&mut self, ch: char) -> (r: Result<char, AssemblyError>)
        ensures
            r == Ok::<char, AssemblyError>(base_letter(ch)),
            final(self).config == old(self).config,
            final(self).processor == old(self).processor,
            final(self).stats == (ProcessingStats {
                fallback_operations: add_sat(old(self).stats.fallback_operations, 1),
                ..old(self).stats
            }),
    {
        self.stats.fallback_operations = self.stats.fallback_operations.saturating_add(1);
        Ok(clean_char(ch))
    }

    fn fallback_process_string(&mut self, input: &str) -> (r: Result<String, AssemblyError>)
        ensures
            r is Ok && r->Ok_0@ == cleaned(input@),
            final(self).config == old(self).config,
            final(self).processor == old(self).processor,
            final(self).stats == (ProcessingStats {
                fallback_operations: add_sat(old(self).stats.fallback_operations, 1),
                ..old(self).stats
            }),
    {
        self.stats.fallback_operations = self.stats.fallback_operations.saturating_add(1);
        Ok(clean_string(input))
    }

    fn update_stats(&mut self, start_ns: u64, chars: u64, string: bool, ok: bool)
        ensures
            final(self).config == old(self).config,
            final(self).processor == old(self).processor,
            exists|elapsed_ns: u64| final(self).stats == #[trigger] after_operation(
                old(self).stats,
                chars,
                string,
                elapsed_ns,
                ok,
            ),
    {
        let end_ns = wall_clock_ns();
        let elapsed_ns = if end_ns >= start_ns {
            end_ns - start_ns
        } else {
            0
        };
        let s = &mut self.stats;
        s.total_chars_processed = s.total_chars_processed.saturating_add(chars);
        if string {
            s.total_strings_processed = s.total_strings_processed.saturating_add(1);
        }
        s.total_processing_time_ns = s.total_processing_time_ns.saturating_add(elapsed_ns);
        if ok {
            s.successful_operations = s.successful_operations.saturating_add(1);
        } else {
            s.failed_operations = s.failed_operations.saturating_add(1);
        }
        if string && elapsed_ns > 0 {
            let wide = (chars as u128) * 1_000_000_000u128 / (elapsed_ns as u128);
            let rate = if wide > u64::MAX as u128 {
                u64::MAX
            } else {
                wide as u64
            };
            if rate > s.peak_processing_rate {
                s.peak_processing_rate = rate;
            }
        }
        assert(self.stats == after_operation(old(self).stats, chars, string, elapsed_ns, ok));
    }

    /// The statistics so far.
    pub fn stats(&self) -> (r: &ProcessingStats)
        ensures
            *r == self.stats,
    {
        &self.stats
    }

    /// The options.
    pub fn config(&self) -> (r: &ProcessorConfig)
        ensures
            *r == self.config,
    {
        &self.config
    }

    /// The strategy that runs.
    pub fn selected_strategy(&self) -> (r: OptimizationStrategy)
        ensures
            r == self.processor.strategy(),
    {
        self.processor.strategy_of()
    }

    /// How the strategy was chosen.
    pub fn optimization_preference(&self) -> (r: &OptimizationPreference)
        ensures
            *r == self.config.optimization_preference,
    {
        &self.config.optimization_preference
    }

    /// The name of the processor that runs, for diagnostics.
    pub fn processor_name(&self) -> &'static str {
        self.processor.processor_name()
    }

    /// Sets every statistic back to zero.
    pub fn reset_stats(&mut self)
        ensures
            final(self).stats == ProcessingStats::zero(),
            final(self).config == old(self).config,
            final(self).processor == old(self).processor,
    {
        self.stats = ProcessingStats::new();
    }

    /// Whether at least 95% of the operations succeeded and at most 5% went to
    /// the fallback; false before any operation.
    pub fn is_performing_optimally(&self) -> (r: bool)
        ensures
            r == {
                let total = self.stats.successful_operations + self.stats.failed_operations;
                total > 0 && 100 * self.stats.successful_operations >= 95 * total && 100
                    * self.stats.fallback_operations <= 5 * total
            },
    {
        let total = (self.stats.successful_operations as u128) + (self.stats.failed_operations as u128);
        total > 0 && 100 * (self.stats.successful_operations as u128) >= 95 * total && 100 * (
        self.stats.fallback_operations as u128) <= 5 * total
    }
}

} // verus!
