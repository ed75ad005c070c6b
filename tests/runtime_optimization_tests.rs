use vi::optimization_selector::{OptimizationSelector, OptimizationStrategy};
use vi::runtime_detection::{CpuArchitecture, CpuCapabilities, PerformanceTier};
use vi::vietnamese_processor::{
    OptimizationPreference, ProcessorBuilder, ProcessorConfig, VietnameseTextProcessor,
};
use vi::AssemblyError;

fn x86_capabilities() -> CpuCapabilities {
    CpuCapabilities::from_detection(
        CpuArchitecture::X86_64 { has_avx2: true, has_bmi2: true, has_avx512f: false, has_fma: true },
        vec![("avx2".to_string(), true), ("avx512f".to_string(), false)],
        0,
    )
}

fn selector() -> OptimizationSelector {
    OptimizationSelector::initialize(x86_capabilities())
}

fn success_rate(p: &VietnameseTextProcessor) -> f64 {
    let s = p.stats();
    let total = s.successful_operations + s.failed_operations;
    if total > 0 {
        (s.successful_operations as f64 / total as f64) * 100.0
    } else {
        0.0
    }
}

#[test]
fn runtime_detection_test_cpu_detection() {
    let capabilities = x86_capabilities();
    assert!(capabilities.performance_score > 0);
}

#[test]
fn performance_scores_follow_the_architecture() {
    let caps = x86_capabilities();
    assert_eq!(caps.performance_score, 825);
    assert_eq!(caps.performance_tier, PerformanceTier::Tier2High);
    assert!(caps.has_feature("avx2"));
    assert!(!caps.has_feature("avx512f"));
    assert!(!caps.has_feature("neon"));
    assert_eq!(caps.performance_description(), "High Performance (>800M chars/sec)");
    let apple = CpuArchitecture::AppleSilicon { generation: 2, performance_cores: 4, efficiency_cores: 4 };
    assert_eq!(
        CpuCapabilities::calculate_performance_metrics(&apple),
        (PerformanceTier::Tier1UltraHigh, 1200)
    );
    let arm = CpuArchitecture::GenericArm64 { has_neon: false, has_advanced_simd: false };
    assert_eq!(
        CpuCapabilities::calculate_performance_metrics(&arm),
        (PerformanceTier::Tier3Good, 500)
    );
    let other = CpuArchitecture::Other { arch_name: "riscv64".to_string() };
    assert_eq!(
        CpuCapabilities::calculate_performance_metrics(&other),
        (PerformanceTier::Tier4Basic, 100)
    );
    assert!(PerformanceTier::Tier1UltraHigh > PerformanceTier::Tier4Basic);
}

#[test]
fn test_optimization_selector() {
    let selector = selector();
    let strategy = selector.selected_strategy();
    assert!(matches!(
        strategy,
        OptimizationStrategy::AppleSiliconAssembly
            | OptimizationStrategy::GenericArm64Assembly
            | OptimizationStrategy::X86_64Assembly
            | OptimizationStrategy::RustOptimized
            | OptimizationStrategy::RustStandard
    ));
    let profiles = selector.profiles();
    assert_eq!(profiles.len(), 5);
    let available_count = profiles.iter().filter(|p| p.available).count();
    assert!(available_count >= 2);
    let selected_profile = selector.selected_profile().unwrap();
    assert!(selected_profile.available);
}

#[test]
fn selector_profiles_match_the_cpu() {
    let selector = selector();
    assert_eq!(*selector.selected_strategy(), OptimizationStrategy::RustOptimized);
    let x86 = &selector.profiles()[2];
    assert_eq!(x86.estimated_throughput, 750_000_000);
    assert_eq!(x86.unavailable_reason.as_deref(), Some("x86_64 assembly not compiled"));
    let apple = &selector.profiles()[0];
    assert_eq!(apple.unavailable_reason.as_deref(), Some("Not running on Apple Silicon"));
    assert_eq!(selector.cpu_capabilities().performance_score, 825);
}

#[test]
fn best_strategy_takes_the_last_of_equal_throughputs() {
    let mut a = OptimizationSelector::create_rust_optimized_profile();
    let mut b = OptimizationSelector::create_rust_standard_profile();
    a.estimated_throughput = 10;
    b.estimated_throughput = 10;
    assert_eq!(
        OptimizationSelector::select_best_strategy(&[a.clone(), b.clone()]),
        OptimizationStrategy::RustStandard
    );
    a.available = false;
    b.available = false;
    assert_eq!(
        OptimizationSelector::select_best_strategy(&[a, b]),
        OptimizationStrategy::RustStandard
    );
    let c = OptimizationSelector::create_rust_optimized_profile();
    let d = OptimizationSelector::create_rust_standard_profile();
    assert_eq!(
        OptimizationSelector::select_best_strategy(&[c, d]),
        OptimizationStrategy::RustOptimized
    );
}

#[test]
fn test_processor_creation() -> Result<(), AssemblyError> {
    let selector = selector();
    let processor = VietnameseTextProcessor::new(&selector)?;
    assert!(!processor.processor_name().is_empty());

    let processor = ProcessorBuilder::new()
        .with_timeout(1000)
        .with_monitoring(true)
        .with_fallback(true)
        .with_max_retries(1)
        .build(&selector)?;
    let config = processor.config();
    assert_eq!(config.operation_timeout_ms, 1000);
    assert!(config.enable_monitoring);
    assert!(config.enable_fallback);
    assert_eq!(config.max_retries, 1);
    Ok(())
}

#[test]
fn test_character_processing() -> Result<(), AssemblyError> {
    let selector = selector();
    let mut processor = VietnameseTextProcessor::new(&selector)?;
    let test_cases = vec![
        ('à', 'a'), ('á', 'a'), ('ả', 'a'), ('ã', 'a'), ('ạ', 'a'), ('ă', 'a'), ('ằ', 'a'),
        ('ắ', 'a'), ('ẳ', 'a'), ('ẵ', 'a'), ('ặ', 'a'), ('â', 'a'), ('ầ', 'a'), ('ấ', 'a'),
        ('ẩ', 'a'), ('ẫ', 'a'), ('ậ', 'a'), ('è', 'e'), ('é', 'e'), ('ẻ', 'e'), ('ẽ', 'e'),
        ('ẹ', 'e'), ('ê', 'e'), ('ề', 'e'), ('ế', 'e'), ('ể', 'e'), ('ễ', 'e'), ('ệ', 'e'),
    ];
    for (input, expected) in test_cases {
        let result = processor.process_char(input)?;
        assert_eq!(result, expected, "Failed for character '{input}'");
    }
    let non_vietnamese = vec!['x', 'y', 'z', '1', '2', '3', ' ', '.', '!'];
    for ch in non_vietnamese {
        let result = processor.process_char(ch)?;
        assert_eq!(result, ch);
    }
    Ok(())
}

#[test]
fn test_string_processing() -> Result<(), AssemblyError> {
    let selector = selector();
    let mut processor = VietnameseTextProcessor::new(&selector)?;
    let test_cases = vec![
        ("Tiếng Việt", "Tieng Viet"),
        ("Xin chào", "Xin chao"),
        ("Cảm ơn bạn", "Cam on ban"),
        ("Hẹn gặp lại", "Hen gap lai"),
        ("Chúc mừng năm mới", "Chuc mung nam moi"),
        ("", ""),
        ("Hello World", "Hello World"),
        ("123 ABC", "123 ABC"),
    ];
    for (input, expected) in test_cases {
        let result = processor.process_string(input)?;
        assert_eq!(result, expected, "Failed for string '{input}'");
    }
    Ok(())
}

#[test]
fn test_performance_monitoring() -> Result<(), AssemblyError> {
    let selector = selector();
    let mut processor = ProcessorBuilder::new().with_monitoring(true).build(&selector)?;
    let test_text = "Đây là một đoạn văn bản để kiểm tra thống kê hiệu suất";
    let _result = processor.process_string(test_text)?;
    let stats = processor.stats();
    assert!(stats.total_chars_processed > 0);
    assert!(stats.total_strings_processed > 0);
    assert!(stats.successful_operations > 0);
    assert_eq!(stats.failed_operations, 0);
    let success_rate = success_rate(&processor);
    assert!((0.0..=100.0).contains(&success_rate));
    let is_optimal = processor.is_performing_optimally();
    assert!(is_optimal);
    Ok(())
}

#[test]
fn test_error_handling() -> Result<(), AssemblyError> {
    let selector = selector();
    let mut processor = ProcessorBuilder::new()
        .with_fallback(true)
        .with_max_retries(1)
        .with_timeout(10000)
        .build(&selector)?;
    let result = processor.process_string("")?;
    assert_eq!(result, "");
    let long_string = "Tiếng Việt ".repeat(1000);
    let result = processor.process_string(&long_string)?;
    assert!(!result.is_empty());
    assert!(result.contains("Tieng Viet"));
    Ok(())
}

#[test]
fn test_stats_reset() -> Result<(), AssemblyError> {
    let selector = selector();
    let mut processor = ProcessorBuilder::new().with_monitoring(true).build(&selector)?;
    let _result = processor.process_string("Test text")?;
    assert!(processor.stats().total_chars_processed > 0);
    processor.reset_stats();
    let stats = processor.stats();
    assert_eq!(stats.total_chars_processed, 0);
    assert_eq!(stats.total_strings_processed, 0);
    assert_eq!(stats.successful_operations, 0);
    assert_eq!(stats.failed_operations, 0);
    Ok(())
}

#[test]
fn test_force_rust_only() -> Result<(), AssemblyError> {
    let selector = selector();
    let mut processor = ProcessorBuilder::new().force_rust_only().build(&selector)?;
    let result = processor.process_string("Tiếng Việt")?;
    assert_eq!(result, "Tieng Viet");
    let strategy = processor.selected_strategy();
    assert!(matches!(
        strategy,
        OptimizationStrategy::RustOptimized | OptimizationStrategy::RustStandard
    ));
    assert_eq!(*processor.optimization_preference(), OptimizationPreference::ForceRustOnly);
    Ok(())
}

#[test]
fn test_strategy_preferences() -> Result<(), AssemblyError> {
    let selector = selector();
    let preferences = vec![
        OptimizationPreference::Auto,
        OptimizationPreference::ForceRustOnly,
        OptimizationPreference::PreferRust,
        OptimizationPreference::PreferAssembly,
    ];
    for preference in preferences {
        let processor = ProcessorBuilder::new()
            .with_optimization_preference(preference.clone())
            .build(&selector)?;
        assert_eq!(*processor.optimization_preference(), preference);
    }
    Ok(())
}

#[test]
fn test_specific_strategy_selection() -> Result<(), AssemblyError> {
    let selector = selector();
    let processor = ProcessorBuilder::new()
        .with_strategy(OptimizationStrategy::RustOptimized)
        .build(&selector)?;
    assert_eq!(processor.selected_strategy(), OptimizationStrategy::RustOptimized);
    let processor = ProcessorBuilder::new()
        .with_strategy(OptimizationStrategy::RustStandard)
        .build(&selector)?;
    assert_eq!(processor.selected_strategy(), OptimizationStrategy::RustStandard);
    Ok(())
}

#[test]
fn test_unavailable_strategy_error() {
    let selector = selector();
    let strategies_to_test = vec![
        OptimizationStrategy::AppleSiliconAssembly,
        OptimizationStrategy::GenericArm64Assembly,
        OptimizationStrategy::X86_64Assembly,
    ];
    for strategy in strategies_to_test {
        let result = ProcessorBuilder::new().with_strategy(strategy.clone()).build(&selector);
        match result {
            Ok(processor) => assert_eq!(processor.selected_strategy(), strategy),
            Err(AssemblyError::ExecutionError(msg)) => {
                assert!(msg.contains("not available") || msg.contains("Strategy"));
            }
            Err(other) => panic!("Unexpected error type for unavailable strategy: {other:?}"),
        }
    }
}

#[test]
fn unavailable_strategy_error_names_the_reason() {
    let selector = selector();
    match ProcessorBuilder::new()
        .with_strategy(OptimizationStrategy::X86_64Assembly)
        .build(&selector)
    {
        Err(AssemblyError::ExecutionError(msg)) => assert_eq!(
            msg,
            "Strategy X86_64Assembly not available: x86_64 assembly not compiled"
        ),
        _ => panic!("a strategy without kernels must be refused"),
    }
}

#[test]
fn test_force_assembly_behavior() {
    let selector = selector();
    let result = ProcessorBuilder::new().force_assembly().build(&selector);
    match result {
        Ok(processor) => {
            let strategy = processor.selected_strategy();
            assert!(matches!(
                strategy,
                OptimizationStrategy::AppleSiliconAssembly
                    | OptimizationStrategy::GenericArm64Assembly
                    | OptimizationStrategy::X86_64Assembly
            ));
        }
        Err(AssemblyError::ExecutionError(msg)) => {
            assert!(msg.contains("No assembly optimizations available"));
        }
        Err(other) => panic!("Unexpected error type for force assembly: {other:?}"),
    }
}

#[test]
fn test_prefer_rust_fallback() -> Result<(), AssemblyError> {
    let selector = selector();
    let processor = ProcessorBuilder::new().prefer_rust().build(&selector)?;
    let mut processor = processor;
    let result = processor.process_string("Test")?;
    assert_eq!(result, "Test");
    assert_eq!(*processor.optimization_preference(), OptimizationPreference::PreferRust);
    Ok(())
}

#[test]
fn default_config_values() {
    let c = ProcessorConfig::default();
    assert!(c.enable_monitoring);
    assert!(c.enable_fallback);
    assert_eq!(c.operation_timeout_ms, 5000);
    assert_eq!(c.max_retries, 2);
    assert_eq!(c.optimization_preference, OptimizationPreference::Auto);
}

#[test]
fn monitoring_off_keeps_no_statistics() -> Result<(), AssemblyError> {
    let selector = selector();
    let mut processor = ProcessorBuilder::new().with_monitoring(false).build(&selector)?;
    assert_eq!(processor.process_char('ộ')?, 'o');
    assert_eq!(processor.stats().total_chars_processed, 0);
    assert!(!processor.is_performing_optimally());
    Ok(())
}

#[test]
fn architecture_descriptions() {
    let caps = x86_capabilities();
    assert_eq!(caps.architecture_description(), "x86_64 with AVX2, BMI2");
    let plain = CpuCapabilities::from_detection(
        CpuArchitecture::X86_64 { has_avx2: false, has_bmi2: false, has_avx512f: true, has_fma: false },
        vec![],
        0,
    );
    assert_eq!(plain.architecture_description(), "x86_64 with AVX-512");
    let apple = CpuCapabilities::from_detection(
        CpuArchitecture::AppleSilicon { generation: 3, performance_cores: 8, efficiency_cores: 4 },
        vec![],
        0,
    );
    assert_eq!(
        apple.architecture_description(),
        "Apple Silicon M3 (8 performance + 4 efficiency cores)"
    );
    let arm = CpuCapabilities::from_detection(
        CpuArchitecture::GenericArm64 { has_neon: true, has_advanced_simd: true },
        vec![],
        0,
    );
    assert_eq!(arm.architecture_description(), "Generic ARM64 with NEON");
    assert_eq!(arm.performance_score, 650);
    let other = CpuCapabilities::from_detection(
        CpuArchitecture::Other { arch_name: "riscv64".to_string() },
        vec![],
        0,
    );
    assert_eq!(other.architecture_description(), "Other (riscv64)");
}

#[test]
fn decimal_digits() {
    assert_eq!(vi::runtime_detection::decimal_of(0), "0");
    assert_eq!(vi::runtime_detection::decimal_of(7), "7");
    assert_eq!(vi::runtime_detection::decimal_of(42), "42");
    assert_eq!(vi::runtime_detection::decimal_of(105), "105");
    assert_eq!(vi::runtime_detection::decimal_of(255), "255");
}

#[test]
fn repeated_features_keep_their_first_entry() {
    let caps = CpuCapabilities::from_detection(
        CpuArchitecture::GenericArm64 { has_neon: true, has_advanced_simd: false },
        vec![
            ("neon".to_string(), true),
            ("neon".to_string(), false),
            ("sve".to_string(), false),
        ],
        0,
    );
    assert_eq!(caps.features.len(), 2);
    assert!(caps.has_feature("neon"));
    assert!(!caps.has_feature("sve"));
}

#[test]
fn profiles_give_reasons_exactly_when_unavailable() {
    let selector = selector();
    for p in selector.profiles() {
        assert_eq!(p.available, p.unavailable_reason.is_none());
    }
    let chosen = selector.selected_profile().unwrap();
    assert!(chosen.available);
    assert_eq!(chosen.strategy, *selector.selected_strategy());
}
