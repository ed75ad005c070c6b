//! Choice of a processing strategy from the detected CPU capabilities, and the
//! processors that carry each strategy out.

use crate::error::AssemblyError;
use crate::kernel::MAX_INPUT_LEN;
use crate::runtime_detection::{CpuArchitecture, CpuCapabilities, PerformanceTier};
use crate::safety::SafeAssemblyProcessor;
use crate::util::{base_letter, clean_char, clean_string, cleaned};
use vstd::prelude::*;

verus! {

/// The processing strategies, in order of preference.
///
/// New strategies may be added without breaking callers.
#[derive(Debug, Clone, Copy, PartialEq, Eq, Structural)]
#[non_exhaustive]
pub enum OptimizationStrategy {
    /// Apple Silicon kernels.
    AppleSiliconAssembly,
    /// Generic ARM64 kernels with NEON.
    GenericArm64Assembly,
    /// `x86_64` kernels with SIMD.
    X86_64Assembly,
    /// The software kernel, tuned.
    RustOptimized,
    /// The software kernel.
    RustStandard,
}

/// The name of a strategy, as its variant is written.
pub open spec fn strategy_name(s: OptimizationStrategy) -> Seq<char> {
    match s {
        OptimizationStrategy::AppleSiliconAssembly => "AppleSiliconAssembly"@,
        OptimizationStrategy::GenericArm64Assembly => "GenericArm64Assembly"@,
        OptimizationStrategy::X86_64Assembly => "X86_64Assembly"@,
        OptimizationStrategy::RustOptimized => "RustOptimized"@,
        OptimizationStrategy::RustStandard => "RustStandard"@,
    }
}

impl OptimizationStrategy {
    /// The name of the strategy, as its variant is written.
    pub fn name(&self) -> (r: &'static str)
        ensures
            r@ == strategy_name(*self),
    {
        match self {
            OptimizationStrategy::AppleSiliconAssembly => "AppleSiliconAssembly",
            OptimizationStrategy::GenericArm64Assembly => "GenericArm64Assembly",
            OptimizationStrategy::X86_64Assembly => "X86_64Assembly",
            OptimizationStrategy::RustOptimized => "RustOptimized",
            OptimizationStrategy::RustStandard => "RustStandard",
        }
    }

    /// Whether the strategy runs a native kernel.
    pub open spec fn is_native(self) -> bool {
        match self {
            OptimizationStrategy::AppleSiliconAssembly
            | OptimizationStrategy::GenericArm64Assembly
            | OptimizationStrategy::X86_64Assembly => true,
            _ => false,
        }
    }
}

/// What a strategy is expected to deliver, and whether it can run here.
#[derive(Debug, Clone)]
pub struct OptimizationProfile {
    /// The strategy described.
    pub strategy: OptimizationStrategy,
    /// Its expected performance tier.
    pub performance_tier: PerformanceTier,
    /// Its estimated throughput in characters per second.
    pub estimated_throughput: u64,
    /// Its set-up cost in nanoseconds.
    pub init_overhead_ns: u64,
    /// Its cost per operation in nanoseconds.
    pub operation_overhead_ns: u64,
    /// Whether it can run on this platform.
    pub available: bool,
    /// Why it cannot run, when it cannot.
    pub unavailable_reason: Option<String>,
}

/// The text of an optional reason.
pub open spec fn reason_text(r: Option<String>) -> Option<Seq<char>> {
    match r {
        Some(s) => Some(s@),
        None => None,
    }
}

/// The order in which profiles are listed: position `i` describes the `i`-th strategy.
pub open spec fn strategy_at(i: int) -> OptimizationStrategy {
    if i == 0 {
        OptimizationStrategy::AppleSiliconAssembly
    } else if i == 1 {
        OptimizationStrategy::GenericArm64Assembly
    } else if i == 2 {
        OptimizationStrategy::X86_64Assembly
    } else if i == 3 {
        OptimizationStrategy::RustOptimized
    } else {
        OptimizationStrategy::RustStandard
    }
}

/// The estimated throughput of the `x86_64` kernels on `a`: 600M characters per
/// second, plus 100M with AVX2, 50M with BMI2 and 200M with AVX-512F.
pub open spec fn x86_throughput(a: CpuArchitecture) -> u64 {
    match a {
        CpuArchitecture::X86_64 { has_avx2, has_bmi2, has_avx512f, .. } => (600_000_000int + (
        if has_avx2 {
            100_000_000int
        } else {
            0
        }) + (if has_bmi2 {
            50_000_000int
        } else {
            0
        }) + (if has_avx512f {
            200_000_000int
        } else {
            0
        })) as u64,
        _ => 600_000_000,
    }
}

proof fn lemma_strategy_at_injective(i: int, j: int)
    requires
        0 <= i < 5,
        0 <= j < 5,
        strategy_at(i) == strategy_at(j),
    ensures
        i == j,
{
}

/// A copy of a profile, with its reason copied too.
fn copy_profile(p: &OptimizationProfile) -> (r: OptimizationProfile)
    ensures
        r.strategy == p.strategy,
        r.performance_tier == p.performance_tier,
        r.estimated_throughput == p.estimated_throughput,
        r.init_overhead_ns == p.init_overhead_ns,
        r.operation_overhead_ns == p.operation_overhead_ns,
        r.available == p.available,
        reason_text(r.unavailable_reason) == reason_text(p.unavailable_reason),
{
    OptimizationProfile {
        strategy: p.strategy,
        performance_tier: p.performance_tier,
        estimated_throughput: p.estimated_throughput,
        init_overhead_ns: p.init_overhead_ns,
        operation_overhead_ns: p.operation_overhead_ns,
        available: p.available,
        unavailable_reason: match &p.unavailable_reason {
            Some(s) => Some(s.clone()),
            None => None,
        },
    }
}

/// Among the first `n` profiles, the position of the available one with the
/// highest estimated throughput, the last of them on a tie.
pub open spec fn best_index(profiles: Seq<OptimizationProfile>, n: int) -> Option<int>
    decreases n,
{
    if n <= 0 {
        None
    } else {
        let before = best_index(profiles, n - 1);
        if profiles[n - 1].available && (before is None || profiles[n - 1].estimated_throughput
            >= profiles[before->0].estimated_throughput) {
            Some(n - 1)
        } else {
            before
        }
    }
}

proof fn lemma_best_index_bounds(profiles: Seq<OptimizationProfile>, n: int)
    ensures
        best_index(profiles, n) matches Some(k) ==> 0 <= k < n && profiles[k].available,
    decreases n,
{
    if n > 0 {
        lemma_best_index_bounds(profiles, n - 1);
    }
}

/// The strategy of the available profile with the highest estimated
/// throughput (the last of them on a tie), or `RustStandard` when none is available.
pub open spec fn best_strategy(profiles: Seq<OptimizationProfile>) -> OptimizationStrategy {
    match best_index(profiles, profiles.len() as int) {
        Some(k) => profiles[k].strategy,
        None => OptimizationStrategy::RustStandard,
    }
}

/// The strategy selection over the detected capabilities of this machine.
pub struct OptimizationSelector {
    profiles: Vec<OptimizationProfile>,
    selected_strategy: OptimizationStrategy,
    cpu_capabilities: CpuCapabilities,
}

impl OptimizationSelector {
    /// The profiles, one per strategy in the order of `strategy_at`.
    pub closed spec fn profiles_spec(&self) -> Seq<OptimizationProfile> {
        self.profiles@
    }

    /// The strategy selected.
    pub closed spec fn selected_spec(&self) -> OptimizationStrategy {
        self.selected_strategy
    }

    /// The capabilities the selection was made for.
    pub closed spec fn cpu_spec(&self) -> CpuCapabilities {
        self.cpu_capabilities
    }

    /// One profile per strategy, in order, the software ones available, and
    /// the best available one selected.
    pub open spec fn wf(&self) -> bool {
        &&& self.profiles_spec().len() == 5
        &&& forall|i: int| 0 <= i < 5 ==> #[trigger] self.profiles_spec()[i].strategy == strategy_at(i)
        &&& self.profiles_spec()[3].available && self.profiles_spec()[4].available
        &&& self.selected_spec() == best_strategy(self.profiles_spec())
    }

    /// Profiles every strategy for `cpu_capabilities` and selects the best
    /// available one. No native kernel is linked into this build, so only the
    /// software strategies are available.
    pub fn initialize(cpu_capabilities: CpuCapabilities) -> (r: OptimizationSelector)
        ensures
            r.wf(),
            r.cpu_spec() == cpu_capabilities,
            forall|i: int| 0 <= i < 5 ==> #[trigger] r.profiles_spec()[i].available == !strategy_at(i).is_native(),
            forall|i: int| 0 <= i < 5 ==> (#[trigger] r.profiles_spec()[i].unavailable_reason is None
                <==> r.profiles_spec()[i].available),
            r.selected_spec() == OptimizationStrategy::RustOptimized,
    {
        let profiles = Self::create_optimization_profiles(&cpu_capabilities);
        let selected_strategy = Self::select_best_strategy(profiles.as_slice());
        proof {
            reveal_with_fuel(best_index, 6);
        }
        OptimizationSelector { profiles, selected_strategy, cpu_capabilities }
    }

    fn create_optimization_profiles(cpu: &CpuCapabilities) -> (r: Vec<OptimizationProfile>)
        ensures
            r@.len() == 5,
            forall|i: int| 0 <= i < 5 ==> #[trigger] r@[i].strategy == strategy_at(i),
            forall|i: int| 0 <= i < 5 ==> #[trigger] r@[i].available == !strategy_at(i).is_native(),
            forall|i: int| 0 <= i < 5 ==> (#[trigger] r@[i].unavailable_reason is None <==> r@[i].available),
            r@[3].estimated_throughput == 500_000_000,
            r@[4].estimated_throughput == 200_000_000,
    {
        let mut v: Vec<OptimizationProfile> = Vec::new();
        v.push(Self::create_apple_silicon_profile(cpu));
        v.push(Self::create_generic_arm64_profile(cpu));
        v.push(Self::create_x86_64_profile(cpu));
        v.push(Self::create_rust_optimized_profile());
        v.push(Self::create_rust_standard_profile());
        v
    }

    /// The Apple Silicon profile: unavailable, as its kernels are not linked in.
    pub fn create_apple_silicon_profile(cpu: &CpuCapabilities) -> (r: OptimizationProfile)
        ensures
            r.strategy == OptimizationStrategy::AppleSiliconAssembly,
            r.performance_tier == PerformanceTier::Tier1UltraHigh,
            r.estimated_throughput == 1_200_000_000,
            r.init_overhead_ns == 1_000,
            r.operation_overhead_ns == 1,
            !r.available,
            reason_text(r.unavailable_reason) == Some(
                if cpu.architecture is AppleSilicon {
                    "Apple Silicon assembly not compiled"@
                } else {
                    "Not running on Apple Silicon"@
                },
            ),
    {
        let reason = match &cpu.architecture {
            CpuArchitecture::AppleSilicon { .. } => String::from_str("Apple Silicon assembly not compiled"),
            _ => String::from_str("Not running on Apple Silicon"),
        };
        OptimizationProfile {
            strategy: OptimizationStrategy::AppleSiliconAssembly,
            performance_tier: PerformanceTier::Tier1UltraHigh,
            estimated_throughput: 1_200_000_000,
            init_overhead_ns: 1_000,
            operation_overhead_ns: 1,
            available: false,
            unavailable_reason: Some(reason),
        }
    }

    /// The generic ARM64 profile: unavailable, as its kernels are not linked in.
    pub fn create_generic_arm64_profile(cpu: &CpuCapabilities) -> (r: OptimizationProfile)
        ensures
            r.strategy == OptimizationStrategy::GenericArm64Assembly,
            r.performance_tier == PerformanceTier::Tier2High,
            r.estimated_throughput == 800_000_000,
            r.init_overhead_ns == 2_000,
            r.operation_overhead_ns == 2,
            !r.available,
            reason_text(r.unavailable_reason) == Some(
                match cpu.architecture {
                    CpuArchitecture::GenericArm64 { has_neon, .. } => if has_neon {
                        "ARM64 assembly not compiled"@
                    } else {
                        "NEON not available"@
                    },
                    CpuArchitecture::AppleSilicon { .. } => "ARM64 assembly not compiled"@,
                    _ => "Not running on ARM64"@,
                },
            ),
    {
        let reason = match &cpu.architecture {
            CpuArchitecture::GenericArm64 { has_neon, .. } => if *has_neon {
                String::from_str("ARM64 assembly not compiled")
            } else {
                String::from_str("NEON not available")
            },
            CpuArchitecture::AppleSilicon { .. } => String::from_str("ARM64 assembly not compiled"),
            _ => String::from_str("Not running on ARM64"),
        };
        OptimizationProfile {
            strategy: OptimizationStrategy::GenericArm64Assembly,
            performance_tier: PerformanceTier::Tier2High,
            estimated_throughput: 800_000_000,
            init_overhead_ns: 2_000,
            operation_overhead_ns: 2,
            available: false,
            unavailable_reason: Some(reason),
        }
    }

    /// The `x86_64` profile: unavailable, as its kernels are not linked in; its
    /// throughput estimate grows with the SIMD extensions present.
    pub fn create_x86_64_profile(cpu: &CpuCapabilities) -> (r: OptimizationProfile)
        ensures
            r.strategy == OptimizationStrategy::X86_64Assembly,
            r.performance_tier == PerformanceTier::Tier2High,
            r.estimated_throughput == x86_throughput(cpu.architecture),
            r.init_overhead_ns == 3_000,
            r.operation_overhead_ns == 3,
            !r.available,
            reason_text(r.unavailable_reason) == Some(
                match cpu.architecture {
                    CpuArchitecture::X86_64 { has_avx2, .. } => if has_avx2 {
                        "x86_64 assembly not compiled"@
                    } else {
                        "AVX2 not available"@
                    },
                    _ => "Not running on x86_64"@,
                },
            ),
    {
        let reason = match &cpu.architecture {
            CpuArchitecture::X86_64 { has_avx2, .. } => if *has_avx2 {
                String::from_str("x86_64 assembly not compiled")
            } else {
                String::from_str("AVX2 not available")
            },
            _ => String::from_str("Not running on x86_64"),
        };
        let mut throughput: u64 = 600_000_000;
        match &cpu.architecture {
            CpuArchitecture::X86_64 { has_avx2, has_bmi2, has_avx512f, .. } => {
                if *has_avx2 {
                    throughput += 100_000_000;
                }
                if *has_bmi2 {
                    throughput += 50_000_000;
                }
                if *has_avx512f {
                    throughput += 200_000_000;
                }
            },
            _ => {},
        }
        OptimizationProfile {
            strategy: OptimizationStrategy::X86_64Assembly,
            performance_tier: PerformanceTier::Tier2High,
            estimated_throughput: throughput,
            init_overhead_ns: 3_000,
            operation_overhead_ns: 3,
            available: false,
            unavailable_reason: Some(reason),
        }
    }

    /// The tuned software profile, always available.
    pub fn create_rust_optimized_profile() -> (r: OptimizationProfile)
        ensures
            r.strategy == OptimizationStrategy::RustOptimized,
            r.performance_tier == PerformanceTier::Tier3Good,
            r.estimated_throughput == 500_000_000,
            r.init_overhead_ns == 100,
            r.operation_overhead_ns == 5,
            r.available,
            r.unavailable_reason is None,
    {
        OptimizationProfile {
            strategy: OptimizationStrategy::RustOptimized,
            performance_tier: PerformanceTier::Tier3Good,
            estimated_throughput: 500_000_000,
            init_overhead_ns: 100,
            operation_overhead_ns: 5,
            available: true,
            unavailable_reason: None,
        }
    }

    /// The plain software profile, always available.
    pub fn create_rust_standard_profile() -> (r: OptimizationProfile)
        ensures
            r.strategy == OptimizationStrategy::RustStandard,
            r.performance_tier == PerformanceTier::Tier4Basic,
            r.estimated_throughput == 200_000_000,
            r.init_overhead_ns == 50,
            r.operation_overhead_ns == 10,
            r.available,
            r.unavailable_reason is None,
    {
        OptimizationProfile {
            strategy: OptimizationStrategy::RustStandard,
            performance_tier: PerformanceTier::Tier4Basic,
            estimated_throughput: 200_000_000,
            init_overhead_ns: 50,
            operation_overhead_ns: 10,
            available: true,
            unavailable_reason: None,
        }
    }

    /// The strategy of the available profile with the highest estimated
    /// throughput (the last of them on a tie), or `RustStandard` when none is.
    pub fn select_best_strategy(profiles: &[OptimizationProfile]) -> (r: OptimizationStrategy)
        ensures
            r == best_strategy(profiles@),
    {
        let mut best: Option<usize> = None;
        let mut i: usize = 0;
        while i < profiles.len()
            invariant
                i <= profiles@.len(),
                match best {
                    Some(k) => best_index(profiles@, i as int) == Some(k as int),
                    None => best_index(profiles@, i as int) is None,
                },
            decreases profiles@.len() - i,
        {
            proof {
                lemma_best_index_bounds(profiles@, i as int);
            }
            let better = match best {
                Some(k) => profiles[i].estimated_throughput >= profiles[k].estimated_throughput,
                None => true,
            };
            if profiles[i].available && better {
                best = Some(i);
            }
            i = i + 1;
        }
        proof {
            lemma_best_index_bounds(profiles@, profiles@.len() as int);
        }
        match best {
            Some(k) => profiles[k].strategy,
            None => OptimizationStrategy::RustStandard,
        }
    }

    /// The strategy selected.
    pub fn selected_strategy(&self) -> (r: &OptimizationStrategy)
        ensures
            *r == self.selected_spec(),
    {
        &self.selected_strategy
    }

    /// The profiles, one per strategy.
    pub fn profiles(&self) -> (r: &[OptimizationProfile])
        ensures
            r@ == self.profiles_spec(),
    {
        self.profiles.as_slice()
    }

    /// The profile of a strategy, when one is listed.
    pub fn profile_of(&self, strategy: OptimizationStrategy) -> (r: Option<&OptimizationProfile>)
        ensures
            self.wf() ==> r is Some,
            r matches Some(p) ==> p.strategy == strategy && exists|i: int|
                0 <= i < self.profiles_spec().len() && self.profiles_spec()[i] == *p,
    {
        let mut i: usize = 0;
        while i < self.profiles.len()
            invariant
                i <= self.profiles@.len(),
                forall|j: int| 0 <= j < i ==> self.profiles@[j].strategy != strategy,
            decreases self.profiles@.len() - i,
        {
            if self.profiles[i].strategy == strategy {
                assert(self.profiles_spec()[i as int] == self.profiles@[i as int]);
                return Some(&self.profiles[i]);
            }
            i = i + 1;
        }
        proof {
            if self.wf() {
                let k: int = match strategy {
                    OptimizationStrategy::AppleSiliconAssembly => 0,
                    OptimizationStrategy::GenericArm64Assembly => 1,
                    OptimizationStrategy::X86_64Assembly => 2,
                    OptimizationStrategy::RustOptimized => 3,
                    OptimizationStrategy::RustStandard => 4,
                };
                assert(self.profiles_spec()[k].strategy == strategy_at(k));
            }
        }
        None
    }

    /// The profile of the selected strategy: the one among `profiles` with
    /// that strategy, which is available.
    pub fn selected_profile(&self) -> (r: Option<&OptimizationProfile>)
        ensures
            self.wf() ==> (r matches Some(p) && p.available),
            r matches Some(p) ==> p.strategy == self.selected_spec() && exists|i: int|
                0 <= i < self.profiles_spec().len() && self.profiles_spec()[i] == *p,
    {
        let r = self.profile_of(self.selected_strategy);
        proof {
            if self.wf() {
                lemma_selected_available(*self);
                let p = *r->0;
                let i = choose|i: int|
                    0 <= i < self.profiles_spec().len() && self.profiles_spec()[i] == p;
                let j = choose|j: int|
                    0 <= j < 5 && self.profiles_spec()[j].strategy == self.selected_spec()
                        && #[trigger] self.profiles_spec()[j].available;
                assert(self.profiles_spec()[i].strategy == strategy_at(i));
                assert(self.profiles_spec()[j].strategy == strategy_at(j));
                lemma_strategy_at_injective(i, j);
            }
        }
        r
    }

    /// The capabilities the selection was made for.
    pub fn cpu_capabilities(&self) -> (r: &CpuCapabilities)
        ensures
            *r == self.cpu_spec(),
    {
        &self.cpu_capabilities
    }

    /// A processor for the selected strategy.
    pub fn create_processor(&self) -> (r: Result<StrategyProcessor, AssemblyError>)
        requires
            self.wf(),
        ensures
            r matches Ok(p) && p.strategy() == self.selected_spec(),
    {
        proof {
            lemma_selected_available(*self);
        }
        StrategyProcessor::for_strategy(self.selected_strategy, self)
    }
}

proof fn lemma_selected_available(selector: OptimizationSelector)
    requires
        selector.wf(),
    ensures
        exists|i: int|
            0 <= i < 5 && selector.profiles_spec()[i].strategy == selector.selected_spec()
                && #[trigger] selector.profiles_spec()[i].available,
{
    let ps = selector.profiles_spec();
    lemma_best_index_bounds(ps, 5);
    match best_index(ps, 5) {
        Some(k) => {
            assert(ps[k].available);
        },
        None => {
            assert(ps[4].strategy == strategy_at(4));
            assert(ps[4].available);
        },
    }
}

/// A processor that carries out one strategy.
pub trait VietnameseProcessor {
    /// The strategy carried out.
    spec fn carried_strategy(&self) -> OptimizationStrategy;

    /// Strips the tone mark and modification from one character.
    fn process_char(&mut self, ch: char) -> (r: Result<char, AssemblyError>)
        ensures
            final(self).carried_strategy() == old(self).carried_strategy(),
            r is Ok ==> r == Ok::<char, AssemblyError>(base_letter(ch)),
            r is Err ==> r == Err::<char, AssemblyError>(AssemblyError::Timeout),
    ;

    /// Strips tone marks and modifications from a string.
    fn process_string(&mut self, input: &str) -> (r: Result<String, AssemblyError>)
        ensures
            final(self).carried_strategy() == old(self).carried_strategy(),
            r is Ok ==> r->Ok_0@ == cleaned(input@),
            r is Err ==> r == Err::<String, AssemblyError>(AssemblyError::Timeout) || (r
                == Err::<String, AssemblyError>(AssemblyError::InvalidInput) && input@.len()
                > MAX_INPUT_LEN),
    ;

    /// The name of the processor, for diagnostics.
    fn processor_name(&self) -> &'static str;

    /// The profile of the strategy carried out.
    fn performance_info(&self) -> &OptimizationProfile;
}

/// The processor of a native strategy, which runs its kernel under a safe processor.
pub struct NativeProcessor {
    safe_processor: SafeAssemblyProcessor,
    profile: OptimizationProfile,
    name: &'static str,
}

/// The Apple Silicon processor.
pub type AppleSiliconProcessor = NativeProcessor;

/// The generic ARM64 processor.
pub type GenericArm64Processor = NativeProcessor;

/// The `x86_64` processor.
pub type X86_64Processor = NativeProcessor;

impl NativeProcessor {
    /// The strategy carried out.
    pub closed spec fn strategy_spec(&self) -> OptimizationStrategy {
        self.profile.strategy
    }

    fn for_profile(profile: OptimizationProfile, name: &'static str) -> (r: NativeProcessor)
        ensures
            r.strategy_spec() == profile.strategy,
    {
        NativeProcessor { safe_processor: SafeAssemblyProcessor::new(), profile, name }
    }
}

impl VietnameseProcessor for NativeProcessor {
    open spec fn carried_strategy(&self) -> OptimizationStrategy {
        self.strategy_spec()
    }

    fn process_char(&mut self, ch: char) -> (r: Result<char, AssemblyError>) {
        let input = vec![ch];
        assert(input@ =~= seq![ch]);
        match self.safe_processor.process_chars_safe(input.as_slice()) {
            Ok(v) => {
                assert(v@ =~= seq![base_letter(ch)]);
                Ok(v[0])
            },
            Err(e) => Err(e),
        }
    }

    fn process_string(&mut self, input: &str) -> (r: Result<String, AssemblyError>) {
        self.safe_processor.process_string_safe(input)
    }

    fn processor_name(&self) -> &'static str {
        self.name
    }

    fn performance_info(&self) -> &OptimizationProfile {
        &self.profile
    }
}

/// The processor of the tuned software strategy.
pub struct RustOptimizedProcessor {
    profile: OptimizationProfile,
}

impl RustOptimizedProcessor {
    /// The strategy carried out.
    pub closed spec fn strategy_spec(&self) -> OptimizationStrategy {
        self.profile.strategy
    }

    /// A processor with the tuned software profile.
    pub fn new() -> (r: RustOptimizedProcessor)
        ensures
            r.strategy_spec() == OptimizationStrategy::RustOptimized,
    {
        RustOptimizedProcessor { profile: OptimizationSelector::create_rust_optimized_profile() }
    }
}

impl VietnameseProcessor for RustOptimizedProcessor {
    open spec fn carried_strategy(&self) -> OptimizationStrategy {
        self.strategy_spec()
    }

    fn process_char(&mut self, ch: char) -> (r: Result<char, AssemblyError>) {
        Ok(clean_char(ch))
    }

    fn process_string(&mut self, input: &str) -> (r: Result<String, AssemblyError>) {
        Ok(clean_string(input))
    }

    fn processor_name(&self) -> &'static str {
        "Rust Optimized"
    }

    fn performance_info(&self) -> &OptimizationProfile {
        &self.profile
    }
}

/// The processor of the plain software strategy.
pub struct RustStandardProcessor {
    profile: OptimizationProfile,
}

impl RustStandardProcessor {
    /// The strategy carried out.
    pub closed spec fn strategy_spec(&self) -> OptimizationStrategy {
        self.profile.strategy
    }

    /// A processor with the plain software profile.
    pub fn new() -> (r: RustStandardProcessor)
        ensures
            r.strategy_spec() == OptimizationStrategy::RustStandard,
    {
        RustStandardProcessor { profile: OptimizationSelector::create_rust_standard_profile() }
    }
}

impl VietnameseProcessor for RustStandardProcessor {
    open spec fn carried_strategy(&self) -> OptimizationStrategy {
        self.strategy_spec()
    }

    fn process_char(&mut self, ch: char) -> (r: Result<char, AssemblyError>) {
        Ok(clean_char(ch))
    }

    fn process_string(&mut self, input: &str) -> (r: Result<String, AssemblyError>) {
        Ok(clean_string(input))
    }

    fn processor_name(&self) -> &'static str {
        "Rust Standard"
    }

    fn performance_info(&self) -> &OptimizationProfile {
        &self.profile
    }
}

/// A processor for any strategy.
pub enum StrategyProcessor {
    /// A native strategy, run under supervision.
    Native(NativeProcessor),
    /// The tuned software strategy.
    Optimized(RustOptimizedProcessor),
    /// The plain software strategy.
    Standard(RustStandardProcessor),
}

impl StrategyProcessor {
    /// The strategy carried out.
    pub open spec fn strategy(&self) -> OptimizationStrategy {
        match self {
            StrategyProcessor::Native(p) => p.strategy_spec(),
            StrategyProcessor::Optimized(p) => p.strategy_spec(),
            StrategyProcessor::Standard(p) => p.strategy_spec(),
        }
    }

    /// The strategy carried out.
    pub fn strategy_of(&self) -> (r: OptimizationStrategy)
        ensures
            r == self.strategy(),
    {
        match self {
            StrategyProcessor::Native(p) => p.profile.strategy,
            StrategyProcessor::Optimized(p) => p.profile.strategy,
            StrategyProcessor::Standard(p) => p.profile.strategy,
        }
    }

    /// A processor for `strategy`, with its profile from `selector`. Only an
    /// available strategy gets one: otherwise `ExecutionError`.
    pub fn for_strategy(strategy: OptimizationStrategy, selector: &OptimizationSelector) -> (r: Result<
        StrategyProcessor,
        AssemblyError,
    >)
        requires
            selector.wf(),
        ensures
            r matches Ok(p) ==> p.strategy() == strategy,
            r matches Err(e) ==> e is ExecutionError,
            r is Ok <==> exists|i: int| 0 <= i < 5 && selector.profiles_spec()[i].strategy == strategy
                && #[trigger] selector.profiles_spec()[i].available,
    {
        let profile = match selector.profile_of(strategy) {
            Some(p) => p,
            None => {
                return Err(AssemblyError::ExecutionError(String::from_str("Strategy not profiled")));
            },
        };
        if !profile.available {
            proof {
                assert forall|i: int| 0 <= i < 5 && selector.profiles_spec()[i].strategy == strategy implies !#[trigger] selector.profiles_spec()[i].available by {
                    assert(selector.profiles_spec()[i].strategy == strategy_at(i));
                }
            }
            let mut message = String::from_str("Strategy ");
            message.append(strategy.name());
            message.append(" not available: ");
            match &profile.unavailable_reason {
                Some(reason) => message.append(reason.as_str()),
                None => message.append("Strategy not available on this platform"),
            }
            return Err(AssemblyError::ExecutionError(message));
        }
        let profile = copy_profile(profile);
        match strategy {
            OptimizationStrategy::AppleSiliconAssembly => Ok(
                StrategyProcessor::Native(NativeProcessor::for_profile(profile, "Apple Silicon Assembly")),
            ),
            OptimizationStrategy::GenericArm64Assembly => Ok(
                StrategyProcessor::Native(NativeProcessor::for_profile(profile, "Generic ARM64 Assembly")),
            ),
            OptimizationStrategy::X86_64Assembly => Ok(
                StrategyProcessor::Native(NativeProcessor::for_profile(profile, "x86_64 Assembly")),
            ),
            OptimizationStrategy::RustOptimized => Ok(
                StrategyProcessor::Optimized(RustOptimizedProcessor::new()),
            ),
            OptimizationStrategy::RustStandard => Ok(
                StrategyProcessor::Standard(RustStandardProcessor::new()),
            ),
        }
    }
}

impl VietnameseProcessor for StrategyProcessor {
    open spec fn carried_strategy(&self) -> OptimizationStrategy {
        self.strategy()
    }

    fn process_char(&mut self, ch: char) -> (r: Result<char, AssemblyError>) {
        match self {
            StrategyProcessor::Native(p) => p.process_char(ch),
            StrategyProcessor::Optimized(p) => p.process_char(ch),
            StrategyProcessor::Standard(p) => p.process_char(ch),
        }
    }

    fn process_string(&mut self, input: &str) -> (r: Result<String, AssemblyError>) {
        match self {
            StrategyProcessor::Native(p) => p.process_string(input),
            StrategyProcessor::Optimized(p) => p.process_string(input),
            StrategyProcessor::Standard(p) => p.process_string(input),
        }
    }

    fn processor_name(&self) -> &'static str {
        match self {
            StrategyProcessor::Native(p) => p.processor_name(),
            StrategyProcessor::Optimized(p) => p.processor_name(),
            StrategyProcessor::Standard(p) => p.processor_name(),
        }
    }

    fn performance_info(&self) -> &OptimizationProfile {
        match self {
            StrategyProcessor::Native(p) => p.performance_info(),
            StrategyProcessor::Optimized(p) => p.performance_info(),
            StrategyProcessor::Standard(p) => p.performance_info(),
        }
    }
}

} // verus!
