//! Letter tables of Vietnamese: the families of letters that carry a tone
//! mark or a modification, and the plain letter that each family is written on.

use vstd::prelude::*;

verus! {

/// `c` is `a` or one of its lower case forms with a tone mark or a modification.
pub open spec fn small_a_family(c: char) -> bool {
    c == 'a' || c == 'à' || c == 'ả' || c == 'ã' || c == 'á' || c == 'ạ'
    || c == 'ă' || c == 'ằ' || c == 'ẳ' || c == 'ẵ' || c == 'ắ' || c == 'ặ'
    || c == 'â' || c == 'ầ' || c == 'ẩ' || c == 'ẫ' || c == 'ấ' || c == 'ậ'
}

/// `c` is `A` or one of its upper case forms with a tone mark or a modification.
pub open spec fn capital_a_family(c: char) -> bool {
    c == 'A' || c == 'À' || c == 'Ả' || c == 'Ã' || c == 'Á' || c == 'Ạ'
    || c == 'Ă' || c == 'Ằ' || c == 'Ẳ' || c == 'Ẵ' || c == 'Ắ' || c == 'Ặ'
    || c == 'Â' || c == 'Ầ' || c == 'Ẩ' || c == 'Ẫ' || c == 'Ấ' || c == 'Ậ'
}

/// `c` is `d` or one of its lower case forms with a tone mark or a modification.
pub open spec fn small_d_family(c: char) -> bool {
    c == 'd' || c == 'đ'
}

/// `c` is `D` or one of its upper case forms with a tone mark or a modification.
pub open spec fn capital_d_family(c: char) -> bool {
    c == 'D' || c == 'Đ'
}

/// `c` is `e` or one of its lower case forms with a tone mark or a modification.
pub open spec fn small_e_family(c: char) -> bool {
    c == 'e' || c == 'è' || c == 'ẻ' || c == 'ẽ' || c == 'é' || c == 'ẹ'
    || c == 'ê' || c == 'ề' || c == 'ể' || c == 'ễ' || c == 'ế' || c == 'ệ'
}

/// `c` is `E` or one of its upper case forms with a tone mark or a modification.
pub open spec fn capital_e_family(c: char) -> bool {
    c == 'E' || c == 'È' || c == 'Ẻ' || c == 'Ẽ' || c == 'É' || c == 'Ẹ'
    || c == 'Ê' || c == 'Ề' || c == 'Ể' || c == 'Ễ' || c == 'Ế' || c == 'Ệ'
}

/// `c` is `i` or one of its lower case forms with a tone mark or a modification.
pub open spec fn small_i_family(c: char) -> bool {
    c == 'i' || c == 'ì' || c == 'ỉ' || c == 'ĩ' || c == 'í' || c == 'ị'
}

/// `c` is `I` or one of its upper case forms with a tone mark or a modification.
pub open spec fn capital_i_family(c: char) -> bool {
    c == 'I' || c == 'Ì' || c == 'Ỉ' || c == 'Ĩ' || c == 'Í' || c == 'Ị'
}

/// `c` is `o` or one of its lower case forms with a tone mark or a modification.
pub open spec fn small_o_family(c: char) -> bool {
    c == 'o' || c == 'ò' || c == 'ỏ' || c == 'õ' || c == 'ó' || c == 'ọ'
    || c == 'ô' || c == 'ồ' || c == 'ổ' || c == 'ỗ' || c == 'ố' || c == 'ộ'
    || c == 'ơ' || c == 'ờ' || c == 'ở' || c == 'ỡ' || c == 'ớ' || c == 'ợ'
}

/// `c` is `O` or one of its upper case forms with a tone mark or a modification.
pub open spec fn capital_o_family(c: char) -> bool {
    c == 'O' || c == 'Ò' || c == 'Ỏ' || c == 'Õ' || c == 'Ó' || c == 'Ọ'
    || c == 'Ô' || c == 'Ồ' || c == 'Ổ' || c == 'Ỗ' || c == 'Ố' || c == 'Ộ'
    || c == 'Ơ' || c == 'Ờ' || c == 'Ở' || c == 'Ỡ' || c == 'Ớ' || c == 'Ợ'
}

/// `c` is `u` or one of its lower case forms with a tone mark or a modification.
pub open spec fn small_u_family(c: char) -> bool {
    c == 'u' || c == 'ù' || c == 'ủ' || c == 'ũ' || c == 'ú' || c == 'ụ'
    || c == 'ư' || c == 'ừ' || c == 'ử' || c == 'ữ' || c == 'ứ' || c == 'ự'
}

/// `c` is `U` or one of its upper case forms with a tone mark or a modification.
pub open spec fn capital_u_family(c: char) -> bool {
    c == 'U' || c == 'Ù' || c == 'Ủ' || c == 'Ũ' || c == 'Ú' || c == 'Ụ'
    || c == 'Ư' || c == 'Ừ' || c == 'Ử' || c == 'Ữ' || c == 'Ứ' || c == 'Ự'
}

/// `c` is `y` or one of its lower case forms with a tone mark or a modification.
pub open spec fn small_y_family(c: char) -> bool {
    c == 'y' || c == 'ỳ' || c == 'ỷ' || c == 'ỹ' || c == 'ý' || c == 'ỵ'
}

/// `c` is `Y` or one of its upper case forms with a tone mark or a modification.
pub open spec fn capital_y_family(c: char) -> bool {
    c == 'Y' || c == 'Ỳ' || c == 'Ỷ' || c == 'Ỹ' || c == 'Ý' || c == 'Ỵ'
}

/// The plain letter under `c`: the base of its family, or `c` itself when it
/// belongs to none of them.
pub open spec fn base_letter(c: char) -> char {
    if small_a_family(c) {
        'a'
    }     else if capital_a_family(c) {
        'A'
    }     else if small_d_family(c) {
        'd'
    }     else if capital_d_family(c) {
        'D'
    }     else if small_e_family(c) {
        'e'
    }     else if capital_e_family(c) {
        'E'
    }     else if small_i_family(c) {
        'i'
    }     else if capital_i_family(c) {
        'I'
    }     else if small_o_family(c) {
        'o'
    }     else if capital_o_family(c) {
        'O'
    }     else if small_u_family(c) {
        'u'
    }     else if capital_u_family(c) {
        'U'
    }     else if small_y_family(c) {
        'y'
    }     else if capital_y_family(c) {
        'Y'
    } else {
        c
    }
}

/// `c` is a vowel letter: `a e i o u y` in either case, with or without marks.
pub open spec fn vowel_letter(c: char) -> bool {
    small_a_family(c)
        || capital_a_family(c)
        || small_e_family(c)
        || capital_e_family(c)
        || small_i_family(c)
        || capital_i_family(c)
        || small_o_family(c)
        || capital_o_family(c)
        || small_u_family(c)
        || capital_u_family(c)
        || small_y_family(c)
        || capital_y_family(c)
}

/// The characters of `s` with every letter reduced to its plain form.
pub open spec fn cleaned(s: Seq<char>) -> Seq<char> {
    s.map_values(|c: char| base_letter(c))
}

/// Strips the tone mark and the modification from a character, keeping its case.
/// Any character outside the Vietnamese letter families is returned unchanged.
pub fn clean_char(ch: char) -> (r: char)
    ensures
        r == base_letter(ch),
{
    match ch {
        'a' | 'à' | 'ả' | 'ã' | 'á' | 'ạ' | 'ă' | 'ằ' | 'ẳ'
        | 'ẵ' | 'ắ' | 'ặ' | 'â' | 'ầ' | 'ẩ' | 'ẫ' | 'ấ' | 'ậ' => 'a',
        'A' | 'À' | 'Ả' | 'Ã' | 'Á' | 'Ạ' | 'Ă' | 'Ằ' | 'Ẳ'
        | 'Ẵ' | 'Ắ' | 'Ặ' | 'Â' | 'Ầ' | 'Ẩ' | 'Ẫ' | 'Ấ' | 'Ậ' => 'A',
        'd' | 'đ' => 'd',
        'D' | 'Đ' => 'D',
        'e' | 'è' | 'ẻ' | 'ẽ' | 'é' | 'ẹ' | 'ê' | 'ề' | 'ể'
        | 'ễ' | 'ế' | 'ệ' => 'e',
        'E' | 'È' | 'Ẻ' | 'Ẽ' | 'É' | 'Ẹ' | 'Ê' | 'Ề' | 'Ể'
        | 'Ễ' | 'Ế' | 'Ệ' => 'E',
        'i' | 'ì' | 'ỉ' | 'ĩ' | 'í' | 'ị' => 'i',
        'I' | 'Ì' | 'Ỉ' | 'Ĩ' | 'Í' | 'Ị' => 'I',
        'o' | 'ò' | 'ỏ' | 'õ' | 'ó' | 'ọ' | 'ô' | 'ồ' | 'ổ'
        | 'ỗ' | 'ố' | 'ộ' | 'ơ' | 'ờ' | 'ở' | 'ỡ' | 'ớ' | 'ợ' => 'o',
        'O' | 'Ò' | 'Ỏ' | 'Õ' | 'Ó' | 'Ọ' | 'Ô' | 'Ồ' | 'Ổ'
        | 'Ỗ' | 'Ố' | 'Ộ' | 'Ơ' | 'Ờ' | 'Ở' | 'Ỡ' | 'Ớ' | 'Ợ' => 'O',
        'u' | 'ù' | 'ủ' | 'ũ' | 'ú' | 'ụ' | 'ư' | 'ừ' | 'ử'
        | 'ữ' | 'ứ' | 'ự' => 'u',
        'U' | 'Ù' | 'Ủ' | 'Ũ' | 'Ú' | 'Ụ' | 'Ư' | 'Ừ' | 'Ử'
        | 'Ữ' | 'Ứ' | 'Ự' => 'U',
        'y' | 'ỳ' | 'ỷ' | 'ỹ' | 'ý' | 'ỵ' => 'y',
        'Y' | 'Ỳ' | 'Ỷ' | 'Ỹ' | 'Ý' | 'Ỵ' => 'Y',
        _ => ch,
    }
}

/// Whether a character is a Vietnamese vowel, with or without tone mark and
/// modification.
pub fn is_vowel(c: char) -> (r: bool)
    ensures
        r == vowel_letter(c),
{
    matches!(
        c,
        'a' | 'à' | 'ả' | 'ã' | 'á' | 'ạ' | 'ă' | 'ằ'
        | 'ẳ' | 'ẵ' | 'ắ' | 'ặ' | 'â' | 'ầ' | 'ẩ' | 'ẫ'
        | 'ấ' | 'ậ' | 'e' | 'è' | 'ẻ' | 'ẽ' | 'é' | 'ẹ'
        | 'ê' | 'ề' | 'ể' | 'ễ' | 'ế' | 'ệ' | 'i' | 'ì'
        | 'ỉ' | 'ĩ' | 'í' | 'ị' | 'o' | 'ò' | 'ỏ' | 'õ'
        | 'ó' | 'ọ' | 'ô' | 'ồ' | 'ổ' | 'ỗ' | 'ố' | 'ộ'
        | 'ơ' | 'ờ' | 'ở' | 'ỡ' | 'ớ' | 'ợ' | 'u' | 'ù'
        | 'ủ' | 'ũ' | 'ú' | 'ụ' | 'ư' | 'ừ' | 'ử' | 'ữ'
        | 'ứ' | 'ự' | 'y' | 'ỳ' | 'ỷ' | 'ỹ' | 'ý' | 'ỵ'
        | 'A' | 'À' | 'Ả' | 'Ã' | 'Á' | 'Ạ' | 'Ă' | 'Ằ'
        | 'Ẳ' | 'Ẵ' | 'Ắ' | 'Ặ' | 'Â' | 'Ầ' | 'Ẩ' | 'Ẫ'
        | 'Ấ' | 'Ậ' | 'E' | 'È' | 'Ẻ' | 'Ẽ' | 'É' | 'Ẹ'
        | 'Ê' | 'Ề' | 'Ể' | 'Ễ' | 'Ế' | 'Ệ' | 'I' | 'Ì'
        | 'Ỉ' | 'Ĩ' | 'Í' | 'Ị' | 'O' | 'Ò' | 'Ỏ' | 'Õ'
        | 'Ó' | 'Ọ' | 'Ô' | 'Ồ' | 'Ổ' | 'Ỗ' | 'Ố' | 'Ộ'
        | 'Ơ' | 'Ờ' | 'Ở' | 'Ỡ' | 'Ớ' | 'Ợ' | 'U' | 'Ù'
        | 'Ủ' | 'Ũ' | 'Ú' | 'Ụ' | 'Ư' | 'Ừ' | 'Ử' | 'Ữ'
        | 'Ứ' | 'Ự' | 'Y' | 'Ỳ' | 'Ỷ' | 'Ỹ' | 'Ý' | 'Ỵ'
    )
}

/// Strips tone marks and modifications from every character of a string.
pub fn clean_string(input: &str) -> (r: String)
    ensures
        r@ == cleaned(input@),
{
    let chars = chars_of(input);
    let out = clean_chars(&chars);
    string_of(&out)
}

/// Strips tone marks and modifications from every character of a slice.
pub fn clean_chars(input: &[char]) -> (r: Vec<char>)
    ensures
        r@ == cleaned(input@),
{
    let mut out: Vec<char> = Vec::with_capacity(input.len());
    let mut i: usize = 0;
    while i < input.len()
        invariant
            i <= input@.len(),
            out@ == cleaned(input@.subrange(0, i as int)),
        decreases input@.len() - i,
    {
        out.push(clean_char(input[i]));
        i = i + 1;
        assert(cleaned(input@.subrange(0, i as int)) =~= cleaned(input@.subrange(0, i - 1)).push(
            base_letter(input@[i - 1]),
        ));
    }
    assert(input@.subrange(0, input@.len() as int) =~= input@);
    out
}

/// Relies on `str::chars`, collected into a `Vec`: the characters of `s`, in order.
#[verifier::external_body]
pub(crate) fn chars_of(s: &str) -> (r: Vec<char>)
    ensures
        r@ == s@,
{
    s.chars().collect()
}

/// Relies on `String`'s `FromIterator<char>`: a string of the characters of `v`, in order.
#[verifier::external_body]
pub(crate) fn string_of(v: &[char]) -> (r: String)
    ensures
        r@ == v@,
{
    v.iter().collect()
}

} // verus!
