use vi::{
    asm_clean_char, asm_clean_char_unsafe, asm_clean_string, asm_clean_string_unsafe, clean_char,
    clean_string, get_assembly_info, is_assembly_available,
};

const VIETNAMESE_TEST_CHARS: &[char] = &[
    'á', 'à', 'ả', 'ã', 'ạ', 'ă', 'ắ', 'ằ', 'ẳ', 'ẵ', 'ặ', 'â', 'ấ', 'ầ', 'ẩ', 'ẫ', 'ậ', 'é', 'è',
    'ẻ', 'ẽ', 'ẹ', 'ê', 'ế', 'ề', 'ể', 'ễ', 'ệ', 'í', 'ì', 'ỉ', 'ĩ', 'ị', 'ó', 'ò', 'ỏ', 'õ', 'ọ',
    'ô', 'ố', 'ồ', 'ổ', 'ỗ', 'ộ', 'ơ', 'ớ', 'ờ', 'ở', 'ỡ', 'ợ', 'ú', 'ù', 'ủ', 'ũ', 'ụ', 'ư', 'ứ',
    'ừ', 'ử', 'ữ', 'ự', 'ý', 'ỳ', 'ỷ', 'ỹ', 'ỵ', 'Á', 'À', 'Ả', 'Ã', 'Ạ', 'Ă', 'Ắ', 'Ằ', 'Ẳ', 'Ẵ',
    'Ặ', 'Â', 'Ấ', 'Ầ', 'Ẩ', 'Ẫ', 'Ậ', 'É', 'È', 'Ẻ', 'Ẽ', 'Ẹ', 'Ê', 'Ế', 'Ề', 'Ể', 'Ễ', 'Ệ', 'Í',
    'Ì', 'Ỉ', 'Ĩ', 'Ị', 'Ó', 'Ò', 'Ỏ', 'Õ', 'Ọ', 'Ô', 'Ố', 'Ồ', 'Ổ', 'Ỗ', 'Ộ', 'Ơ', 'Ớ', 'Ờ', 'Ở',
    'Ỡ', 'Ợ', 'Ú', 'Ù', 'Ủ', 'Ũ', 'Ụ', 'Ư', 'Ứ', 'Ừ', 'Ử', 'Ữ', 'Ự', 'Ý', 'Ỳ', 'Ỷ', 'Ỹ', 'Ỵ', 'đ',
    'Đ',
];

const VIETNAMESE_TEST_STRINGS: &[&str] = &[
    "Tiếng Việt",
    "Xin chào thế giới",
    "Hà Nội - thủ đô của Việt Nam",
    "Đà Nẵng - thành phố đáng sống",
    "Hồ Chí Minh - thành phố năng động",
    "Phở bò tái chín",
    "Bánh mì thịt nướng",
    "Cà phê sữa đá",
    "Bún bò Huế",
    "Gỏi cuốn tôm thịt",
];

#[test]
fn test_assembly_availability() {
    println!("Assembly Info: {}", get_assembly_info());
    println!("Assembly Available: {}", is_assembly_available());
    assert_eq!(get_assembly_info(), "Platform: Rust Fallback (Available: false)");
}

#[test]
fn test_character_correctness() {
    for &ch in VIETNAMESE_TEST_CHARS {
        let rust_result = clean_char(ch);
        match asm_clean_char(ch) {
            Ok(assembly_result) => assert_eq!(
                rust_result, assembly_result,
                "Rust and Assembly results should match for character '{}' (U+{:04X})",
                ch, ch as u32
            ),
            Err(_) => println!(
                "Assembly operation cancelled for character '{}' (U+{:04X})",
                ch, ch as u32
            ),
        }
        let is_vietnamese = ch as u32 > 127;
        if is_vietnamese {
            let is_properly_cleaned = rust_result as u32 <= 127 || rust_result.is_ascii_alphabetic();
            assert!(
                is_properly_cleaned,
                "Vietnamese character '{}' should be cleaned to basic Latin, got '{}'",
                ch, rust_result
            );
        }
    }
}

#[test]
fn test_string_correctness() {
    for &test_string in VIETNAMESE_TEST_STRINGS {
        let rust_result = clean_string(test_string);
        match asm_clean_string(test_string) {
            Ok(assembly_result) => assert_eq!(
                rust_result, assembly_result,
                "Rust and Assembly results should match for string '{}'",
                test_string
            ),
            Err(_) => println!("Assembly operation cancelled for string: '{}'", test_string),
        }
        for ch in rust_result.chars() {
            let is_basic_latin = ch as u32 <= 127 || ch.is_ascii_alphabetic();
            assert!(
                is_basic_latin || ch.is_whitespace() || ch.is_ascii_punctuation(),
                "Cleaned string should not contain Vietnamese diacritics, found '{}' in result '{}'",
                ch,
                rust_result
            );
        }
    }
}

#[test]
fn test_edge_cases() {
    assert_eq!(clean_string(""), "");
    match asm_clean_string("") {
        Ok(result) => assert_eq!(result, ""),
        Err(_) => println!("Assembly operation cancelled for empty string"),
    }

    let ascii_string = "Hello World 123!";
    assert_eq!(clean_string(ascii_string), ascii_string);
    match asm_clean_string(ascii_string) {
        Ok(result) => assert_eq!(result, ascii_string),
        Err(_) => println!("Assembly operation cancelled for ASCII string"),
    }

    let mixed_string = "Hello Tiếng Việt 123!";
    let expected = "Hello Tieng Viet 123!";
    assert_eq!(clean_string(mixed_string), expected);
    match asm_clean_string(mixed_string) {
        Ok(result) => assert_eq!(result, expected),
        Err(_) => println!("Assembly operation cancelled for mixed string"),
    }

    let long_string = "Tiếng Việt ".repeat(10000);
    let long_result = clean_string(&long_string);
    assert!(long_result.contains("Tieng Viet"));
    assert!(!long_result.contains("ế"));
    assert!(!long_result.contains("ệ"));
    match asm_clean_string(&long_string) {
        Ok(assembly_long_result) => assert_eq!(long_result, assembly_long_result),
        Err(_) => println!("Assembly operation cancelled for long string"),
    }
}

#[test]
fn test_unicode_edge_cases() {
    let unicode_chars = ['€', '中', '🚀', '😀'];
    for ch in unicode_chars {
        let rust_result = clean_char(ch);
        assert_eq!(rust_result, ch, "Non-Vietnamese Unicode should pass through unchanged");
        match asm_clean_char(ch) {
            Ok(assembly_result) => assert_eq!(
                assembly_result, ch,
                "Assembly should handle non-Vietnamese Unicode correctly"
            ),
            Err(_) => println!("Assembly operation cancelled for Unicode char: {}", ch),
        }
    }
}

#[test]
fn test_memory_safety() {
    let sizes = [0, 1, 10, 100, 1000, 10000];
    for size in sizes {
        let test_string = "Tiếng Việt ".chars().cycle().take(size).collect::<String>();
        let rust_result = clean_string(&test_string);
        match asm_clean_string(&test_string) {
            Ok(assembly_result) => assert_eq!(rust_result, assembly_result),
            Err(_) => println!("Assembly operation cancelled for size {} - safety timeout", size),
        }
    }
}

#[test]
fn unsupervised_cleaning_matches() {
    assert_eq!(asm_clean_char_unsafe('Ự'), 'U');
    assert_eq!(asm_clean_string_unsafe("Cà phê sữa đá"), "Ca phe sua da");
    assert_eq!(
        vi::kernel::process_chars_bulk_unsafe(&['ơ', 'x', 'Ỹ']),
        vec!['o', 'x', 'Y']
    );
}

#[test]
fn test_performance_regression() -> Result<(), Box<dyn std::error::Error>> {
    let test_data = VIETNAMESE_TEST_STRINGS.join(" ").repeat(100);
    let iterations = 100;

    let rust_start = std::time::Instant::now();
    for _ in 0..iterations {
        let _ = clean_string(&test_data);
    }
    let rust_duration = rust_start.elapsed();
    let rust_throughput = (test_data.len() * iterations) as f64 / rust_duration.as_secs_f64();
    println!("Rust throughput: {:.2} M chars/sec", rust_throughput / 1_000_000.0);

    if is_assembly_available() {
        let assembly_start = std::time::Instant::now();
        for _ in 0..iterations {
            match asm_clean_string(&test_data) {
                Ok(_) => {}
                Err(_) => {
                    println!("Warning: Assembly operation cancelled, skipping assembly performance test");
                    return Ok(());
                }
            }
        }
        let assembly_duration = assembly_start.elapsed();
        let assembly_throughput =
            (test_data.len() * iterations) as f64 / assembly_duration.as_secs_f64();
        println!("Assembly throughput: {:.2} M chars/sec", assembly_throughput / 1_000_000.0);
        let speedup = assembly_throughput / rust_throughput;
        println!("Assembly speedup: {:.2}x", speedup);
        assert!(
            speedup >= 0.005,
            "Assembly implementation is too slow. Speedup: {:.3}x (expected >= 0.005x)",
            speedup
        );
    }
    Ok(())
}

#[test]
fn test_performance_characteristics() {
    if !is_assembly_available() {
        println!("Skipping performance test - assembly not available");
        return;
    }
    let base_string = "Tiếng Việt rất đẹp ";
    let sizes = [100, 1000, 10000];
    for &size in &sizes {
        let test_string = base_string.repeat(size / base_string.len());
        for _ in 0..10 {
            if asm_clean_string(&test_string).is_err() {
                println!("Skipping assembly performance comparison - all operations cancelled");
                return;
            }
        }
    }
}
