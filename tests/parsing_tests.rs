use vi::parsing::{parse_syllable, parse_syllable_lowered, parse_vowel};
use vi::validation::{
    is_final_consonant_lowercase, is_initial_consonant_lowercase, is_valid_final_consonant,
    is_valid_initial_consonant, is_valid_syllable,
};

#[test]
fn get_vowel_normal() {
    let result = parse_vowel("viet");
    let expected = Ok(("t", "ie"));
    assert_eq!(result, expected);
}

#[test]
fn get_vowel_empty() {
    let result = parse_vowel("vt");
    let expected = Ok(("", ""));
    assert_eq!(result, expected);
}

#[test]
fn get_vowel_double_start_tone() {
    let result = parse_vowel("quai");
    let expected = Ok(("", "ai"));
    assert_eq!(result, expected);
}

#[test]
fn get_vowel_double_start_tone_2() {
    let result = parse_vowel("gia");
    let expected = Ok(("", "a"));
    assert_eq!(result, expected);
}

#[test]
fn syllable_parts() {
    let (rest, c) = parse_syllable("Nghiêng").unwrap();
    assert_eq!(c.initial_consonant, "Ngh");
    assert_eq!(c.vowel, "iê");
    assert_eq!(c.final_consonant, "ng");
    assert_eq!(rest, "ng");
    let (_, c) = parse_syllable("gìn").unwrap();
    assert_eq!(c.initial_consonant, "g");
    assert_eq!(c.vowel, "ì");
    let (_, c) = parse_syllable("giữ").unwrap();
    assert_eq!(c.initial_consonant, "gi");
    assert_eq!(c.vowel, "ữ");
}

#[test]
fn lone_g_needs_a_g() {
    assert!(parse_syllable_lowered("xin", "gin").is_err());
    let (_, c) = parse_syllable_lowered("Gin", "gin").unwrap();
    assert_eq!(c.initial_consonant, "G");
    assert_eq!(c.vowel, "i");
}

#[test]
fn consonant_inventory() {
    assert!(is_valid_initial_consonant("Ngh"));
    assert!(is_valid_initial_consonant("TR"));
    assert!(is_valid_initial_consonant("đ"));
    assert!(is_valid_initial_consonant("Đ"));
    assert!(!is_valid_initial_consonant("f"));
    assert!(!is_valid_initial_consonant("ngg"));
    assert!(is_initial_consonant_lowercase("qu"));
    assert!(!is_initial_consonant_lowercase("QU"));
    assert!(is_valid_final_consonant("NG"));
    assert!(!is_valid_final_consonant("b"));
    assert!(is_final_consonant_lowercase("ch"));
    assert!(!is_final_consonant_lowercase("Ch"));
}

#[test]
fn syllable_validity() {
    assert!(is_valid_syllable("Việt"));
    assert!(is_valid_syllable("nghiêng"));
    assert!(is_valid_syllable("khuya"));
    assert!(!is_valid_syllable("vt"));
    assert!(is_valid_syllable("ng"));
    assert!(!is_valid_syllable("fa"));
    assert!(!is_valid_syllable("aab"));
    assert!(!is_valid_syllable("tab"));
}
