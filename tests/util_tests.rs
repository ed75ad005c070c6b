use vi::clean_char;

fn test_char_mappings(test_cases: &[(char, char)]) {
    for &(input, expected) in test_cases {
        assert_eq!(clean_char(input), expected, "Failed for input '{input}'");
    }
}

#[test]
fn test_clean_char_a_family() {
    let test_cases = [
        // Lowercase a family
        ('a', 'a'), ('à', 'a'), ('ả', 'a'), ('ã', 'a'), ('á', 'a'), ('ạ', 'a'),
        ('ă', 'a'), ('ằ', 'a'), ('ẳ', 'a'), ('ẵ', 'a'), ('ắ', 'a'), ('ặ', 'a'),
        ('â', 'a'), ('ầ', 'a'), ('ẩ', 'a'), ('ẫ', 'a'), ('ấ', 'a'), ('ậ', 'a'),
        // Uppercase A family
        ('A', 'A'), ('À', 'A'), ('Ả', 'A'), ('Ã', 'A'), ('Á', 'A'), ('Ạ', 'A'),
        ('Ă', 'A'), ('Ằ', 'A'), ('Ẳ', 'A'), ('Ẵ', 'A'), ('Ắ', 'A'), ('Ặ', 'A'),
        ('Â', 'A'), ('Ầ', 'A'), ('Ẩ', 'A'), ('Ẫ', 'A'), ('Ấ', 'A'), ('Ậ', 'A'),
    ];
    test_char_mappings(&test_cases);
}

#[test]
fn test_clean_char_a_breve_bug_fix() {
    // Specific test for the 'Ă' character bug that was fixed
    // This test ensures the bug doesn't regress
    assert_eq!(
        clean_char('Ă'),
        'A',
        "Latin Capital Letter A with Breve should convert to A"
    );
    assert_eq!(
        clean_char('ă'),
        'a',
        "Latin Small Letter A with Breve should convert to a"
    );
}

#[test]
fn test_clean_char_d_family() {
    let test_cases = [
        ('d', 'd'), ('đ', 'd'),
        ('D', 'D'), ('Đ', 'D'),
    ];
    test_char_mappings(&test_cases);
}

#[test]
fn test_clean_char_e_family() {
    let test_cases = [
        // Lowercase e family
        ('e', 'e'), ('è', 'e'), ('ẻ', 'e'), ('ẽ', 'e'), ('é', 'e'), ('ẹ', 'e'),
        ('ê', 'e'), ('ề', 'e'), ('ể', 'e'), ('ễ', 'e'), ('ế', 'e'), ('ệ', 'e'),
        // Uppercase E family
        ('E', 'E'), ('È', 'E'), ('Ẻ', 'E'), ('Ẽ', 'E'), ('É', 'E'), ('Ẹ', 'E'),
        ('Ê', 'E'), ('Ề', 'E'), ('Ể', 'E'), ('Ễ', 'E'), ('Ế', 'E'), ('Ệ', 'E'),
    ];
    test_char_mappings(&test_cases);
}

#[test]
fn test_clean_char_i_family() {
    let test_cases = [
        // Lowercase i family
        ('i', 'i'), ('ì', 'i'), ('ỉ', 'i'), ('ĩ', 'i'), ('í', 'i'), ('ị', 'i'),
        // Uppercase I family
        ('I', 'I'), ('Ì', 'I'), ('Ỉ', 'I'), ('Ĩ', 'I'), ('Í', 'I'), ('Ị', 'I'),
    ];
    test_char_mappings(&test_cases);
}

#[test]
fn test_clean_char_o_family() {
    let test_cases = [
        // Lowercase o family
        ('o', 'o'), ('ò', 'o'), ('ỏ', 'o'), ('õ', 'o'), ('ó', 'o'), ('ọ', 'o'),
        ('ô', 'o'), ('ồ', 'o'), ('ổ', 'o'), ('ỗ', 'o'), ('ố', 'o'), ('ộ', 'o'),
        ('ơ', 'o'), ('ờ', 'o'), ('ở', 'o'), ('ỡ', 'o'), ('ớ', 'o'), ('ợ', 'o'),
        // Uppercase O family
        ('O', 'O'), ('Ò', 'O'), ('Ỏ', 'O'), ('Õ', 'O'), ('Ó', 'O'), ('Ọ', 'O'),
        ('Ô', 'O'), ('Ồ', 'O'), ('Ổ', 'O'), ('Ỗ', 'O'), ('Ố', 'O'), ('Ộ', 'O'),
        ('Ơ', 'O'), ('Ờ', 'O'), ('Ở', 'O'), ('Ỡ', 'O'), ('Ớ', 'O'), ('Ợ', 'O'),
    ];
    test_char_mappings(&test_cases);
}

#[test]
fn test_clean_char_u_family() {
    let test_cases = [
        // Lowercase u family
        ('u', 'u'), ('ù', 'u'), ('ủ', 'u'), ('ũ', 'u'), ('ú', 'u'), ('ụ', 'u'),
        ('ư', 'u'), ('ừ', 'u'), ('ử', 'u'), ('ữ', 'u'), ('ứ', 'u'), ('ự', 'u'),
        // Uppercase U family
        ('U', 'U'), ('Ù', 'U'), ('Ủ', 'U'), ('Ũ', 'U'), ('Ú', 'U'), ('Ụ', 'U'),
        ('Ư', 'U'), ('Ừ', 'U'), ('Ử', 'U'), ('Ữ', 'U'), ('Ứ', 'U'), ('Ự', 'U'),
    ];
    test_char_mappings(&test_cases);
}

#[test]
fn test_clean_char_y_family() {
    let test_cases = [
        // Lowercase y family
        ('y', 'y'), ('ỳ', 'y'), ('ỷ', 'y'), ('ỹ', 'y'), ('ý', 'y'), ('ỵ', 'y'),
        // Uppercase Y family
        ('Y', 'Y'), ('Ỳ', 'Y'), ('Ỷ', 'Y'), ('Ỹ', 'Y'), ('Ý', 'Y'), ('Ỵ', 'Y'),
    ];
    test_char_mappings(&test_cases);
}

#[test]
fn test_clean_char_non_vietnamese() {
    let test_cases = [
        // Non-Vietnamese characters should remain unchanged
        ('b', 'b'), ('B', 'B'), ('c', 'c'), ('C', 'C'), ('f', 'f'), ('F', 'F'),
        ('g', 'g'), ('G', 'G'), ('h', 'h'), ('H', 'H'), ('j', 'j'), ('J', 'J'),
        ('k', 'k'), ('K', 'K'), ('l', 'l'), ('L', 'L'), ('m', 'm'), ('M', 'M'),
        ('n', 'n'), ('N', 'N'), ('p', 'p'), ('P', 'P'), ('q', 'q'), ('Q', 'Q'),
        ('r', 'r'), ('R', 'R'), ('s', 's'), ('S', 'S'), ('t', 't'), ('T', 'T'),
        ('v', 'v'), ('V', 'V'), ('w', 'w'), ('W', 'W'), ('x', 'x'), ('X', 'X'),
        ('z', 'z'), ('Z', 'Z'),
    ];
    test_char_mappings(&test_cases);
}

#[test]
fn test_clean_char_special_characters() {
    let test_cases = [
        // Special characters and numbers should remain unchanged
        ('0', '0'), ('1', '1'), ('9', '9'), (' ', ' '), ('.', '.'), (',', ','),
        ('!', '!'), ('?', '?'), ('-', '-'), ('_', '_'), ('(', '('), (')', ')'),
    ];
    test_char_mappings(&test_cases);
}

#[test]
fn test_clean_char_const_fn() {
    let cleaned_a: char = clean_char('á');
    let cleaned_e: char = clean_char('Ế');
    let cleaned_u: char = clean_char('ự');

    assert_eq!(cleaned_a, 'a');
    assert_eq!(cleaned_e, 'E');
    assert_eq!(cleaned_u, 'u');
}

#[test]
fn is_vowel_covers_marked_vowels_only() {
    assert!(vi::is_vowel('a'));
    assert!(vi::is_vowel('ế'));
    assert!(vi::is_vowel('Ư'));
    assert!(!vi::is_vowel('b'));
    assert!(!vi::is_vowel('đ'));
}

#[test]
fn clean_string_strips_every_letter() {
    assert_eq!(vi::clean_string("Tiếng Việt"), "Tieng Viet");
    assert_eq!(vi::clean_string("Xin chào"), "Xin chao");
    assert_eq!(vi::clean_string("Hà Nội"), "Ha Noi");
    assert_eq!(vi::clean_string(""), "");
}
