//! CPU capabilities as detected at run time, and the performance tier and
//! score that they earn.

use vstd::prelude::*;

verus! {

/// A CPU architecture and the capabilities that matter to the kernels.
///
/// New architectures may be added without breaking callers.
#[derive(Debug, Clone, PartialEq, Eq, Hash)]
#[non_exhaustive]
pub enum CpuArchitecture {
    /// Apple Silicon ARM64 with unified memory.
    AppleSilicon {
        /// Chip generation: 1 for M1, 2 for M2, and so on.
        generation: u8,
        /// Performance cores.
        performance_cores: u8,
        /// Efficiency cores.
        efficiency_cores: u8,
    },
    /// Generic ARM64.
    GenericArm64 {
        /// NEON SIMD instructions are available.
        has_neon: bool,
        /// Advanced SIMD instructions are available.
        has_advanced_simd: bool,
    },
    /// `x86_64`.
    X86_64 {
        /// AVX2 instructions are available.
        has_avx2: bool,
        /// BMI2 instructions are available.
        has_bmi2: bool,
        /// AVX-512F instructions are available.
        has_avx512f: bool,
        /// FMA instructions are available.
        has_fma: bool,
    },
    /// Any other architecture.
    Other {
        /// Name of the architecture.
        arch_name: String,
    },
}

/// Performance tiers, from the lowest to the highest.
///
/// New tiers may be added without breaking callers.
#[derive(Debug, Clone, Copy, PartialEq, Eq, PartialOrd, Ord, Structural)]
#[non_exhaustive]
pub enum PerformanceTier {
    /// Below 500M characters per second: fallback implementations.
    Tier4Basic,
    /// Above 500M characters per second: ARM64 with NEON.
    Tier3Good,
    /// Above 800M characters per second: `x86_64` with AVX-512.
    Tier2High,
    /// Above 1B characters per second: Apple Silicon.
    Tier1UltraHigh,
}

/// Score of an Apple Silicon chip before its generation bonus.
pub const APPLE_BASE_SCORE: u32 = 1000;
/// Score added per Apple Silicon generation.
pub const APPLE_GENERATION_BONUS: u32 = 100;
/// Score of an `x86_64` CPU before its extensions.
pub const X86_BASE_SCORE: u32 = 600;
/// Score of a generic ARM64 CPU before its extensions.
pub const ARM64_BASE_SCORE: u32 = 500;
/// Score of any other architecture.
pub const OTHER_SCORE: u32 = 100;

/// The tier and score that an architecture earns.
pub open spec fn performance_of(a: CpuArchitecture) -> (PerformanceTier, u32) {
    match a {
        CpuArchitecture::AppleSilicon { generation, .. } => (
            PerformanceTier::Tier1UltraHigh,
            (APPLE_BASE_SCORE + generation * APPLE_GENERATION_BONUS) as u32,
        ),
        CpuArchitecture::X86_64 { has_avx2, has_bmi2, has_avx512f, has_fma } => {
            let score = X86_BASE_SCORE + (if has_avx2 { 100int } else { 0 }) + (if has_bmi2 {
                50int
            } else {
                0
            }) + (if has_avx512f { 150int } else { 0 }) + (if has_fma { 75int } else { 0 });
            (
                if score >= 800 {
                    PerformanceTier::Tier2High
                } else {
                    PerformanceTier::Tier3Good
                },
                score as u32,
            )
        },
        CpuArchitecture::GenericArm64 { has_neon, has_advanced_simd } => {
            let score = ARM64_BASE_SCORE + (if has_neon { 100int } else { 0 }) + (
            if has_advanced_simd {
                50int
            } else {
                0
            });
            (
                if score >= 600 {
                    PerformanceTier::Tier2High
                } else {
                    PerformanceTier::Tier3Good
                },
                score as u32,
            )
        },
        CpuArchitecture::Other { .. } => (PerformanceTier::Tier4Basic, OTHER_SCORE),
    }
}

/// What was detected about the CPU, and the tier and score it earns.
#[derive(Debug, Clone)]
pub struct CpuCapabilities {
    /// The architecture and its capabilities.
    pub architecture: CpuArchitecture,
    /// The tier the architecture earns.
    pub performance_tier: PerformanceTier,
    /// Detected features by name, each with whether it is available.
    pub features: Vec<(String, bool)>,
    /// The score the architecture earns.
    pub performance_score: u32,
    /// When the detection ran, in seconds since the Unix epoch.
    pub detected_at: u64,
}

impl CpuCapabilities {
    /// The tier and score that an architecture earns: Apple Silicon scores
    /// 1000 plus 100 per generation; `x86_64` scores 600 plus 100 for AVX2, 50
    /// for BMI2, 150 for AVX-512F and 75 for FMA, and is high tier from 800 on;
    /// generic ARM64 scores 500 plus 100 for NEON and 50 for advanced SIMD,
    /// and is high tier from 600 on; anything else scores 100 at the basic tier.
    pub fn calculate_performance_metrics(architecture: &CpuArchitecture) -> (r: (
        PerformanceTier,
        u32,
    ))
        ensures
            r == performance_of(*architecture),
    {
        match architecture {
            CpuArchitecture::AppleSilicon { generation, .. } => {
                let bonus = (*generation as u32) * APPLE_GENERATION_BONUS;
                (PerformanceTier::Tier1UltraHigh, APPLE_BASE_SCORE + bonus)
            },
            CpuArchitecture::X86_64 { has_avx2, has_bmi2, has_avx512f, has_fma } => {
                let mut score: u32 = X86_BASE_SCORE;
                if *has_avx2 {
                    score += 100;
                }
                if *has_bmi2 {
                    score += 50;
                }
                if *has_avx512f {
                    score += 150;
                }
                if *has_fma {
                    score += 75;
                }
                let tier = if score >= 800 {
                    PerformanceTier::Tier2High
                } else {
                    PerformanceTier::Tier3Good
                };
                (tier, score)
            },
            CpuArchitecture::GenericArm64 { has_neon, has_advanced_simd } => {
                let mut score: u32 = ARM64_BASE_SCORE;
                if *has_neon {
                    score += 100;
                }
                if *has_advanced_simd {
                    score += 50;
                }
                let tier = if score >= 600 {
                    PerformanceTier::Tier2High
                } else {
                    PerformanceTier::Tier3Good
                };
                (tier, score)
            },
            CpuArchitecture::Other { .. } => (PerformanceTier::Tier4Basic, OTHER_SCORE),
        }
    }

    /// Each feature name is listed at most once.
    pub open spec fn wf(&self) -> bool {
        names_unique(self.features@)
    }

    /// Capabilities of a detected architecture with its detected features,
    /// at the tier and score the architecture earns. A feature listed more
    /// than once keeps its first entry, which is the one lookups read.
    pub fn from_detection(
        architecture: CpuArchitecture,
        features: Vec<(String, bool)>,
        detected_at: u64,
    ) -> (r: CpuCapabilities)
        ensures
            r.wf(),
            r.architecture == architecture,
            forall|name: Seq<char>| #[trigger] feature_available(r.features@, name)
                == feature_available(features@, name),
            (r.performance_tier, r.performance_score) == performance_of(architecture),
            r.detected_at == detected_at,
    {
        let (performance_tier, performance_score) = Self::calculate_performance_metrics(
            &architecture,
        );
        let features = first_entries(&features);
        CpuCapabilities {
            architecture,
            performance_tier,
            features,
            performance_score,
            detected_at,
        }
    }

    /// Whether the feature named `feature` was detected as available: the
    /// first entry of that name decides, and an unknown name is unavailable.
    pub fn has_feature(&self, feature: &str) -> (r: bool)
        ensures
            r == feature_available(self.features@, feature@),
    {
        let wanted = String::from_str(feature);
        let mut i: usize = 0;
        assert(self.features@.subrange(0, self.features@.len() as int) =~= self.features@);
        while i < self.features.len()
            invariant
                i <= self.features@.len(),
                wanted@ == feature@,
                feature_available(self.features@, feature@) == feature_available(
                    self.features@.subrange(i as int, self.features@.len() as int),
                    feature@,
                ),
            decreases self.features@.len() - i,
        {
            let ghost rest = self.features@.subrange(i as int, self.features@.len() as int);
            assert(rest.drop_first() =~= self.features@.subrange(
                i + 1,
                self.features@.len() as int,
            ));
            if self.features[i].0.eq(&wanted) {
                return self.features[i].1;
            }
            i = i + 1;
        }
        false
    }

    /// A human-readable description of the architecture.
    pub fn architecture_description(&self) -> (r: String)
        ensures
            r@ == architecture_text(self.architecture),
    {
        match &self.architecture {
            CpuArchitecture::AppleSilicon { generation, performance_cores, efficiency_cores } => {
                let mut s = String::from_str("Apple Silicon M");
                let g = decimal_of(*generation);
                s.append(g.as_str());
                s.append(" (");
                let p = decimal_of(*performance_cores);
                s.append(p.as_str());
                s.append(" performance + ");
                let e = decimal_of(*efficiency_cores);
                s.append(e.as_str());
                s.append(" efficiency cores)");
                s
            },
            CpuArchitecture::GenericArm64 { has_neon, .. } => {
                let mut s = String::from_str("Generic ARM64");
                if *has_neon {
                    s.append(" with NEON");
                }
                assert(s@ =~= architecture_text(self.architecture));
                s
            },
            CpuArchitecture::X86_64 { has_avx2, has_bmi2, has_avx512f, .. } => {
                let mut s = String::from_str("x86_64");
                if *has_avx2 || *has_bmi2 || *has_avx512f {
                    s.append(" with ");
                }
                if *has_avx2 {
                    s.append("AVX2");
                }
                if *has_bmi2 {
                    if *has_avx2 {
                        s.append(", ");
                    }
                    s.append("BMI2");
                }
                if *has_avx512f {
                    if *has_avx2 || *has_bmi2 {
                        s.append(", ");
                    }
                    s.append("AVX-512");
                }
                assert(s@ =~= architecture_text(self.architecture));
                s
            },
            CpuArchitecture::Other { arch_name } => {
                let mut s = String::from_str("Other (");
                s.append(arch_name.as_str());
                s.append(")");
                assert(s@ =~= architecture_text(self.architecture));
                s
            },
        }
    }

    /// A human-readable name of the performance tier.
    pub fn performance_description(&self) -> (r: &'static str)
        ensures
            r@ == tier_description(self.performance_tier),
    {
        match self.performance_tier {
            PerformanceTier::Tier1UltraHigh => "Ultra-High Performance (>1B chars/sec)",
            PerformanceTier::Tier2High => "High Performance (>800M chars/sec)",
            PerformanceTier::Tier3Good => "Good Performance (>500M chars/sec)",
            PerformanceTier::Tier4Basic => "Basic Performance (<500M chars/sec)",
        }
    }
}

/// No two entries of `features` share a name.
pub open spec fn names_unique(features: Seq<(String, bool)>) -> bool {
    forall|i: int, j: int|
        0 <= i < j < features.len() ==> #[trigger] features[i].0@ != #[trigger] features[j].0@
}

/// Some entry of `features` is named `name`.
pub open spec fn has_name(features: Seq<(String, bool)>, name: Seq<char>) -> bool {
    exists|i: int| 0 <= i < features.len() && #[trigger] features[i].0@ == name
}

proof fn lemma_available_push(s: Seq<(String, bool)>, e: (String, bool), name: Seq<char>)
    ensures
        feature_available(s.push(e), name) == if has_name(s, name) {
            feature_available(s, name)
        } else {
            e.0@ == name && e.1
        },
    decreases s.len(),
{
    let t = s.push(e);
    reveal_with_fuel(feature_available, 2);
    if s.len() == 0 {
        assert(t.drop_first() =~= Seq::<(String, bool)>::empty());
        assert(t[0] == e);
        assert(!has_name(s, name));
    } else {
        assert(t[0] == s[0]);
        assert(t.drop_first() =~= s.drop_first().push(e));
        lemma_available_push(s.drop_first(), e, name);
        if s[0].0@ == name {
            assert(has_name(s, name));
            assert(feature_available(t, name) == s[0].1);
            assert(feature_available(s, name) == s[0].1);
        } else {
            assert(feature_available(t, name) == feature_available(t.drop_first(), name));
            assert(feature_available(s, name) == feature_available(s.drop_first(), name));
            if has_name(s, name) {
                let k = choose|k: int| 0 <= k < s.len() && #[trigger] s[k].0@ == name;
                assert(s.drop_first()[k - 1].0@ == name);
                assert(has_name(s.drop_first(), name));
            }
            if has_name(s.drop_first(), name) {
                let k = choose|k: int|
                    0 <= k < s.drop_first().len() && #[trigger] s.drop_first()[k].0@ == name;
                assert(s[k + 1].0@ == name);
                assert(has_name(s, name));
            }
        }
    }
}

proof fn lemma_unavailable_without_name(s: Seq<(String, bool)>, name: Seq<char>)
    requires
        !has_name(s, name),
    ensures
        !feature_available(s, name),
    decreases s.len(),
{
    if s.len() > 0 {
        assert(s[0].0@ != name);
        if has_name(s.drop_first(), name) {
            let i = choose|i: int| 0 <= i < s.drop_first().len() && #[trigger] s.drop_first()[i].0@ == name;
            assert(s[i + 1].0@ == name);
        }
        lemma_unavailable_without_name(s.drop_first(), name);
    }
}

/// The entries of `features` whose name no earlier entry has.
fn first_entries(features: &Vec<(String, bool)>) -> (r: Vec<(String, bool)>)
    ensures
        names_unique(r@),
        forall|name: Seq<char>| #[trigger] feature_available(r@, name) == feature_available(
            features@,
            name,
        ),
{
    let mut out: Vec<(String, bool)> = Vec::new();
    let mut i: usize = 0;
    while i < features.len()
        invariant
            i <= features@.len(),
            names_unique(out@),
            forall|name: Seq<char>| #[trigger] has_name(out@, name) == has_name(
                features@.subrange(0, i as int),
                name,
            ),
            forall|name: Seq<char>| #[trigger] feature_available(out@, name) == feature_available(
                features@.subrange(0, i as int),
                name,
            ),
        decreases features@.len() - i,
    {
        let ghost prefix = features@.subrange(0, i as int);
        let ghost next = features@.subrange(0, i + 1);
        let ghost e = features@[i as int];
        assert(next =~= prefix.push(e));
        let mut seen = false;
        let mut j: usize = 0;
        while j < out.len()
            invariant
                i < features@.len(),
                j <= out@.len(),
                e == features@[i as int],
                seen ==> exists|k: int| 0 <= k < j && #[trigger] out@[k].0@ == e.0@,
                !seen ==> forall|k: int| 0 <= k < j ==> #[trigger] out@[k].0@ != e.0@,
            decreases out@.len() - j,
        {
            let ghost jj = j as int;
            if out[j].0.eq(&features[i].0) {
                seen = true;
                assert(out@[jj].0@ == e.0@);
            }
            j = j + 1;
        }
        let ghost old_out = out@;
        if !seen {
            let entry = (features[i].0.clone(), features[i].1);
            assert(entry == e);
            out.push(entry);
            proof {
                assert(!has_name(old_out, e.0@));
                assert forall|a: int, b: int|
                    0 <= a < b < out@.len() implies #[trigger] out@[a].0@ != #[trigger] out@[b].0@ by {
                    if b == old_out.len() {
                        assert(old_out[a].0@ == out@[a].0@);
                    }
                }
                assert forall|name: Seq<char>| #[trigger] has_name(out@, name) == has_name(next, name) by {
                    if has_name(out@, name) {
                        let k = choose|k: int| 0 <= k < out@.len() && #[trigger] out@[k].0@ == name;
                        if k < old_out.len() {
                            assert(old_out[k].0@ == name);
                            assert(has_name(old_out, name));
                            assert(has_name(old_out, name) == has_name(prefix, name));
                            let m = choose|m: int| 0 <= m < prefix.len() && #[trigger] prefix[m].0@ == name;
                            assert(next[m].0@ == name);
                        } else {
                            assert(next[i as int].0@ == name);
                        }
                    }
                    if has_name(next, name) {
                        let k = choose|k: int| 0 <= k < next.len() && #[trigger] next[k].0@ == name;
                        if k < prefix.len() {
                            assert(prefix[k].0@ == name);
                            assert(has_name(prefix, name));
                            assert(has_name(old_out, name) == has_name(prefix, name));
                            let m = choose|m: int| 0 <= m < old_out.len() && #[trigger] old_out[m].0@ == name;
                            assert(out@[m].0@ == name);
                        } else {
                            assert(out@[old_out.len() as int].0@ == name);
                        }
                    }
                }
                assert forall|name: Seq<char>| #[trigger] feature_available(out@, name)
                    == feature_available(next, name) by {
                    lemma_available_push(old_out, e, name);
                    lemma_available_push(prefix, e, name);
                }
            }
        } else {
            proof {
                let k = choose|k: int| 0 <= k < j && #[trigger] out@[k].0@ == e.0@;
                assert(has_name(out@, e.0@));
                assert(has_name(out@, e.0@) == has_name(prefix, e.0@));
                assert forall|name: Seq<char>| #[trigger] feature_available(out@, name)
                    == feature_available(next, name) by {
                    lemma_available_push(prefix, e, name);
                    assert(feature_available(out@, name) == feature_available(prefix, name));
                    if !has_name(prefix, name) {
                        lemma_unavailable_without_name(prefix, name);
                    }
                }
                assert forall|name: Seq<char>| #[trigger] has_name(out@, name) == has_name(next, name) by {
                    if has_name(next, name) {
                        let k2 = choose|k2: int| 0 <= k2 < next.len() && #[trigger] next[k2].0@ == name;
                        if k2 < prefix.len() {
                            assert(prefix[k2].0@ == name);
                        }
                        assert(has_name(prefix, name));
                    }
                    assert(has_name(out@, name) == has_name(prefix, name));
                    if has_name(prefix, name) {
                        let m = choose|m: int| 0 <= m < prefix.len() && #[trigger] prefix[m].0@ == name;
                        assert(next[m].0@ == name);
                    }
                }
            }
        }
        i = i + 1;
    }
    assert(features@.subrange(0, features@.len() as int) =~= features@);
    out
}

/// Whether the first entry named `name` in `features` says available; false
/// when there is none.
pub open spec fn feature_available(features: Seq<(String, bool)>, name: Seq<char>) -> bool
    decreases features.len(),
{
    if features.len() == 0 {
        false
    } else if features[0].0@ == name {
        features[0].1
    } else {
        feature_available(features.drop_first(), name)
    }
}

/// The character of the decimal digit `d`.
pub open spec fn digit_char(d: int) -> char {
    ((48 + d) as u8) as char
}

/// The decimal digits of `n`, without leading zeros.
pub open spec fn decimal_text(n: nat) -> Seq<char>
    decreases n,
{
    if n < 10 {
        seq![digit_char(n as int)]
    } else {
        decimal_text(n / 10) + seq![digit_char((n % 10) as int)]
    }
}

/// The decimal digits of `n`, without leading zeros.
pub fn decimal_of(n: u8) -> (r: String)
    ensures
        r@ == decimal_text(n as nat),
{
    let mut digits: Vec<char> = Vec::new();
    if n >= 100 {
        digits.push((48u8 + n / 100) as char);
    }
    if n >= 10 {
        digits.push((48u8 + (n / 10) % 10) as char);
    }
    digits.push((48u8 + n % 10) as char);
    proof {
        reveal_with_fuel(decimal_text, 3);
        if n >= 100 {
            assert((n / 10) as nat / 10 == n / 100);
            assert(decimal_text((n / 10) as nat) =~= seq![digit_char((n / 100) as int), digit_char(((n / 10) % 10) as int)]);
        }
        assert(digits@ =~= decimal_text(n as nat));
    }
    crate::util::string_of(digits.as_slice())
}

/// The description of an architecture.
pub open spec fn architecture_text(a: CpuArchitecture) -> Seq<char> {
    match a {
        CpuArchitecture::AppleSilicon { generation, performance_cores, efficiency_cores } =>
            "Apple Silicon M"@ + decimal_text(generation as nat) + " ("@ + decimal_text(
            performance_cores as nat,
        ) + " performance + "@ + decimal_text(efficiency_cores as nat) + " efficiency cores)"@,
        CpuArchitecture::GenericArm64 { has_neon, .. } => "Generic ARM64"@ + if has_neon {
            " with NEON"@
        } else {
            Seq::<char>::empty()
        },
        CpuArchitecture::X86_64 { has_avx2, has_bmi2, has_avx512f, .. } => "x86_64"@ + (
        if has_avx2 || has_bmi2 || has_avx512f {
            " with "@
        } else {
            Seq::<char>::empty()
        }) + (if has_avx2 {
            "AVX2"@
        } else {
            Seq::<char>::empty()
        }) + (if has_bmi2 {
            (if has_avx2 {
                ", "@
            } else {
                Seq::<char>::empty()
            }) + "BMI2"@
        } else {
            Seq::<char>::empty()
        }) + (if has_avx512f {
            (if has_avx2 || has_bmi2 {
                ", "@
            } else {
                Seq::<char>::empty()
            }) + "AVX-512"@
        } else {
            Seq::<char>::empty()
        }),
        CpuArchitecture::Other { arch_name } => "Other ("@ + arch_name@ + ")"@,
    }
}

/// The human-readable name of a performance tier.
pub open spec fn tier_description(t: PerformanceTier) -> Seq<char> {
    match t {
        PerformanceTier::Tier1UltraHigh => "Ultra-High Performance (>1B chars/sec)"@,
        PerformanceTier::Tier2High => "High Performance (>800M chars/sec)"@,
        PerformanceTier::Tier3Good => "Good Performance (>500M chars/sec)"@,
        PerformanceTier::Tier4Basic => "Basic Performance (<500M chars/sec)"@,
    }
}

} // verus!
