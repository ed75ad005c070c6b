//! Diacritic stripping for Vietnamese text, run under a supervisory safety
//! envelope: a control block that bounds every polling loop, a watchdog step
//! that detects timeouts and stalls, a chunked kernel gateway and a processor
//! facade that classifies each outcome and keeps metrics.

mod clock;
pub mod control;
pub mod error;
pub mod kernel;
pub mod memory_profiling;
pub mod metrics;
pub mod optimization_selector;
pub mod parsing;
pub mod runtime_detection;
pub mod safety;
pub mod util;
pub mod validation;
pub mod vietnamese_processor;
pub mod watchdog;

use vstd::prelude::*;

pub use error::AssemblyError;
pub use kernel::{get_assembly_info, is_assembly_available};
pub use memory_profiling::{MemoryProfiler, MemoryStats};
pub use optimization_selector::{OptimizationSelector, OptimizationStrategy, VietnameseProcessor};
pub use runtime_detection::{CpuArchitecture, CpuCapabilities, PerformanceTier};
pub use safety::SafeAssemblyProcessor;
pub use util::{clean_char, clean_string, is_vowel};
pub use vietnamese_processor::{
    OptimizationPreference, ProcessingStats, ProcessorBuilder, ProcessorConfig,
    VietnameseTextProcessor,
};
pub use watchdog::WatchdogConfig;

verus! {

/// Cleans one character through a fresh safe processor: the plain letter under
/// `ch`, or `Timeout` when the clock ran out first.
pub fn asm_clean_char(ch: char) -> (r: Result<char, AssemblyError>)
    ensures
        r is Ok ==> r == Ok::<char, AssemblyError>(util::base_letter(ch)),
        r is Err ==> r == Err::<char, AssemblyError>(AssemblyError::Timeout),
{
    let mut processor = SafeAssemblyProcessor::new();
    let chars = vec![ch];
    proof {
        assert(chars@ == seq![ch]);
    }
    match processor.process_chars_safe(chars.as_slice()) {
        Ok(v) => {
            assert(v@ =~= seq![util::base_letter(ch)]);
            Ok(v[0])
        },
        Err(e) => Err(e),
    }
}

/// Cleans a string through a fresh safe processor: the string with every
/// letter reduced to its plain form (at once for the empty string), `InvalidInput` when it is oversized, or
/// `Timeout` when the clock ran out first.
pub fn asm_clean_string(input: &str) -> (r: Result<String, AssemblyError>)
    ensures
        input@.len() == 0 ==> r is Ok && r->Ok_0@.len() == 0,
        r is Ok ==> r->Ok_0@ == util::cleaned(input@),
        input@.len() > kernel::MAX_INPUT_LEN ==> r == Err::<String, AssemblyError>(
            AssemblyError::InvalidInput,
        ),
        input@.len() <= kernel::MAX_INPUT_LEN && r is Err ==> r == Err::<String, AssemblyError>(
            AssemblyError::Timeout,
        ),
{
    let mut processor = SafeAssemblyProcessor::new();
    processor.process_string_safe(input)
}

/// Cleans one character with the best kernel, bypassing supervision.
pub fn asm_clean_char_unsafe(ch: char) -> (r: char)
    ensures
        r == util::base_letter(ch),
{
    kernel::process_char_unsafe(ch)
}

/// Cleans a string with the best kernel, bypassing supervision.
pub fn asm_clean_string_unsafe(input: &str) -> (r: String)
    ensures
        r@ == util::cleaned(input@),
{
    let chars = util::chars_of(input);
    let cleaned = kernel::process_chars_bulk_unsafe(chars.as_slice());
    util::string_of(cleaned.as_slice())
}

} // verus!
