use vi::control::{iteration_budget_of, AssemblyControl};
use vi::metrics::SafetyMetrics;
use vi::{AssemblyError, SafeAssemblyProcessor, WatchdogConfig};

fn success_rate(metrics: &SafetyMetrics) -> f64 {
    if metrics.operations_started == 0 {
        1.0
    } else {
        metrics.operations_completed as f64 / metrics.operations_started as f64
    }
}

#[test]
fn test_safe_processor_creation() {
    let mut processor = SafeAssemblyProcessor::new();
    let input = "test";
    let result = processor.process_string_safe(input);
    assert!(result.is_ok());
    assert_eq!(result.unwrap(), "test");
}

#[test]
fn test_vietnamese_character_processing() {
    let mut processor = SafeAssemblyProcessor::new();
    let test_cases = vec![
        ("à", "a"),
        ("á", "a"),
        ("ả", "a"),
        ("ã", "a"),
        ("ạ", "a"),
        ("đ", "d"),
        ("Đ", "D"),
        ("Tiếng Việt", "Tieng Viet"),
        ("Xin chào", "Xin chao"),
    ];
    for (input, expected) in test_cases {
        let result = processor.process_string_safe(input).unwrap();
        assert_eq!(result, expected, "Failed for input: {input}");
    }
}

#[test]
fn test_empty_input_handling() {
    let mut processor = SafeAssemblyProcessor::new();
    let result = processor.process_string_safe("");
    assert!(result.is_ok());
    assert_eq!(result.unwrap(), "");

    let result = processor.process_chars_safe(&[]);
    assert!(result.is_ok());
    assert!(result.unwrap().is_empty());
}

#[test]
fn test_large_input_processing() {
    let mut processor = SafeAssemblyProcessor::new();
    let large_input = "à".repeat(10_000);
    let expected = "a".repeat(10_000);
    let result = processor.process_string_safe(&large_input);
    match result {
        Ok(output) => assert_eq!(output, expected),
        Err(e) => {
            println!("Large input test result: {}", e.message());
            assert!(matches!(e, AssemblyError::Cancelled | AssemblyError::Timeout));
        }
    }
}

#[test]
fn test_timeout_protection() {
    let mut processor = SafeAssemblyProcessor::with_timeout(50);
    let large_input: Vec<char> = "à".repeat(1_000_000).chars().collect();
    let result = processor.process_chars_safe(&large_input);
    match result {
        Ok(_) => println!("Large input processed successfully within timeout"),
        Err(AssemblyError::Timeout) => println!("Timeout protection working correctly"),
        Err(AssemblyError::Cancelled) => println!("Operation cancelled (acceptable for test)"),
        Err(e) => panic!("Unexpected error: {e:?}"),
    }
}

#[test]
fn test_metrics_collection() {
    let mut processor = SafeAssemblyProcessor::new();
    let _ = processor.process_string_safe("test");
    let _ = processor.process_string_safe("Tiếng Việt");
    let metrics = processor.get_metrics();
    assert!(metrics.operations_started >= 2);
    assert!(success_rate(metrics) > 0.0);
}

#[test]
fn test_global_control_integration() {
    let mut control = AssemblyControl::new();
    control.reset_for_operation(1000);
    assert!(!control.was_cancelled());
    assert!(control.should_continue());

    control.cancel_all();
    assert!(control.was_cancelled());
    assert!(!control.should_continue());
}

#[test]
fn test_iteration_limit_protection() {
    let mut processor = SafeAssemblyProcessor::new();
    processor.control.max_iterations = 100;
    let large_input: Vec<char> = "a".repeat(1000).chars().collect();
    let result = processor.process_chars_safe(&large_input);
    match result {
        Ok(output) => {
            assert!(!output.is_empty());
            println!("Completed with {} characters", output.len());
        }
        Err(AssemblyError::Cancelled) => println!("Iteration limit protection working correctly"),
        Err(e) => panic!("Unexpected error: {e:?}"),
    }
    processor.control.max_iterations = usize::MAX;
}

#[test]
fn test_error_display() {
    let errors = vec![
        AssemblyError::Cancelled,
        AssemblyError::Timeout,
        AssemblyError::IterationLimit,
        AssemblyError::Panic,
        AssemblyError::InvalidInput,
        AssemblyError::ExecutionError("test error".to_string()),
    ];
    for error in errors {
        let display = error.message();
        assert!(!display.is_empty());
        println!("Error display: {display}");
    }
}

#[test]
fn test_processor_drop_cleanup() {
    {
        let mut processor = SafeAssemblyProcessor::new();
        let _ = processor.process_string_safe("test");
    }
    println!("Processor cleanup test completed");
}

#[test]
fn test_watchdog_creation() {
    let processor = SafeAssemblyProcessor::new();
    assert!(processor.has_watchdog());
    let config = processor.watchdog_config().unwrap();
    assert!(config.enabled);
    assert_eq!(config.check_interval_ms, 100);
    assert_eq!(config.stall_timeout_ms, 2000);
}

#[test]
fn test_watchdog_disabled() {
    let processor = SafeAssemblyProcessor::without_watchdog();
    assert!(!processor.has_watchdog());
    assert!(processor.watchdog_config().is_none());
}

#[test]
fn test_watchdog_custom_config() {
    let config = WatchdogConfig {
        check_interval_ms: 50,
        stall_timeout_ms: 1000,
        enabled: true,
    };
    let processor = SafeAssemblyProcessor::with_watchdog_config(config);
    assert!(processor.has_watchdog());
    let actual_config = processor.watchdog_config().unwrap();
    assert_eq!(actual_config.check_interval_ms, 50);
    assert_eq!(actual_config.stall_timeout_ms, 1000);
    assert!(actual_config.enabled);
}

#[test]
fn error_messages_name_each_kind() {
    assert_eq!(AssemblyError::Timeout.message(), "Assembly operation timed out");
    assert_eq!(
        AssemblyError::ExecutionError("bad count".to_string()).message(),
        "Assembly execution error: bad count"
    );
}

#[test]
fn oversized_request_is_invalid_input() {
    let interface = vi::kernel::get_assembly_interface();
    let mut control = AssemblyControl::new();
    let input = vec![97u32; 3];
    let mut output = vec![0u32; 2];
    assert_eq!(
        interface.process_chars_bulk_safe(&input, &mut output, &mut control),
        Err(AssemblyError::InvalidInput)
    );
}

#[test]
fn bulk_gateway_cleans_and_replaces_invalid_code_points() {
    let interface = vi::kernel::get_assembly_interface();
    let mut control = AssemblyControl::new();
    let input = vec!['ế' as u32, 'b' as u32, 0xD800, 'Đ' as u32];
    let mut output = vec![0u32; 4];
    let n = interface
        .process_chars_bulk_safe(&input, &mut output, &mut control)
        .unwrap();
    assert_eq!(n, 4);
    assert_eq!(output, vec!['e' as u32, 'b' as u32, 0xFFFD, 'D' as u32]);
    assert_eq!(control.max_iterations, iteration_budget_of(4));
    assert!(control.heartbeat > 0);
}

#[test]
fn zero_timeout_always_completes() {
    let mut processor = SafeAssemblyProcessor::with_timeout(0);
    let input: Vec<char> = "ự".repeat(5000).chars().collect();
    let out = processor.process_chars_safe(&input).unwrap();
    assert_eq!(out.len(), 5000);
    assert!(out.iter().all(|&c| c == 'u'));
    assert_eq!(processor.metrics.operations_completed, 1);
    assert_eq!(processor.metrics.operations_cancelled, 0);
}

#[test]
fn process_char_safe_refuses_after_cancel() {
    let interface = vi::kernel::AssemblyInterface::new();
    let mut control = AssemblyControl::new();
    control.reset_for_operation(1);
    assert_eq!(interface.process_char_safe('ạ', &mut control), Ok('a'));
    control.cancel_all();
    assert_eq!(
        interface.process_char_safe('ạ', &mut control),
        Err(AssemblyError::Cancelled)
    );
}

#[test]
fn chunk_steps_cover_the_input() {
    let input: Vec<char> = "Đà Nẵng ".repeat(300).chars().collect();
    let mut control = AssemblyControl::new();
    control.reset_for_operation(input.len());
    let mut out = Vec::new();
    let mut next = 0;
    let mut steps = 0;
    while next < input.len() {
        next = vi::kernel::clean_next_chunk(&input, next, &mut out, &mut control).unwrap();
        steps += 1;
    }
    assert_eq!(steps, 3);
    assert_eq!(next, 2400);
    assert_eq!(out.iter().collect::<String>(), "Da Nang ".repeat(300));
    assert_eq!(control.heartbeat, 3);
    control.cancel_all();
    let mut more = Vec::new();
    assert_eq!(vi::kernel::clean_next_chunk(&input, 0, &mut more, &mut control), None);
    assert!(more.is_empty());
}

#[test]
fn timeouts_and_cancellations_are_counted_apart() {
    let mut processor = SafeAssemblyProcessor::without_watchdog();
    let input: Vec<char> = "ạ".repeat(3000).chars().collect();

    let start = processor.begin_operation(input.len());
    let mut out = Vec::new();
    let next = processor.process_next_chunk(&input, 0, &mut out).unwrap();
    assert_eq!(next, 1024);
    processor.control.signal_timeout();
    assert_eq!(processor.process_next_chunk(&input, next, &mut out), None);
    assert_eq!(processor.finish_operation(out, start), Err(AssemblyError::Timeout));
    assert_eq!(processor.metrics.operations_timed_out, 1);
    assert_eq!(processor.metrics.operations_cancelled, 0);

    let start = processor.begin_operation(input.len());
    let mut out = Vec::new();
    let next = processor.process_next_chunk(&input, 0, &mut out).unwrap();
    processor.cancel();
    assert_eq!(processor.process_next_chunk(&input, next, &mut out), None);
    assert_eq!(processor.finish_operation(out, start), Err(AssemblyError::Cancelled));
    assert_eq!(processor.metrics.operations_cancelled, 1);
    assert_eq!(processor.metrics.operations_timed_out, 1);

    let start = processor.begin_operation(input.len());
    let mut out = Vec::new();
    let mut next = 0;
    while next < input.len() {
        next = processor.process_next_chunk(&input, next, &mut out).unwrap();
    }
    let done = processor.finish_operation(out, start).unwrap();
    assert_eq!(done, vec!['a'; 3000]);
    assert_eq!(processor.metrics.operations_started, 3);
    assert_eq!(processor.metrics.operations_completed, 1);
    assert_eq!(processor.control.heartbeat, 3);
}

#[test]
fn bulk_gateway_polls_once_per_chunk() {
    let interface = vi::kernel::get_assembly_interface();
    let mut control = AssemblyControl::new();
    let input = vec!['ư' as u32; 2500];
    let mut output = vec![7u32; 2500];
    let n = interface.process_chars_bulk_safe(&input, &mut output, &mut control).unwrap();
    assert_eq!(n, 2500);
    assert_eq!(control.current_iteration, 3);
    assert_eq!(control.heartbeat, 3);
    assert!(output.iter().all(|&c| c == 'u' as u32));
}

#[test]
fn empty_string_is_cleaned_at_once() {
    assert_eq!(vi::asm_clean_string(""), Ok(String::new()));
}
