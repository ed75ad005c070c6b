//! Whether a string is a valid Vietnamese syllable: an optional initial
//! consonant, a vowel cluster, and an optional final consonant, each drawn
//! from the inventory of the language.

use crate::parsing::{initial_len, lower_of, lowercase, parse_syllable, run_len};
use crate::util::{base_letter, chars_of, clean_char};
use vstd::prelude::*;
use vstd::string::*;

verus! {

/// `c` can open a syllable on its own.
pub open spec fn single_initial(c: char) -> bool {
    c == 'b' || c == 'c' || c == 'd' || c == 'đ' || c == 'g' || c == 'h' || c == 'k' || c == 'l' || c == 'm' || c == 'n' || c == 'p' || c == 'q' || c == 'r' || c == 's' || c == 't' || c == 'v' || c == 'x'
}

/// `s` is a two-letter initial consonant.
pub open spec fn initial_digraph(s: Seq<char>) -> bool {
    s == "ch"@ || s == "gh"@ || s == "gi"@ || s == "kh"@
    || s == "nh"@ || s == "ng"@ || s == "ph"@ || s == "th"@
    || s == "tr"@ || s == "qu"@
}

/// `s` is a final consonant.
pub open spec fn final_consonant(s: Seq<char>) -> bool {
    s == "c"@ || s == "ch"@ || s == "m"@ || s == "n"@
    || s == "nh"@ || s == "ng"@ || s == "p"@ || s == "t"@
}

/// `s` is a vowel cluster, written in plain lowercase letters.
pub open spec fn vowel_cluster(s: Seq<char>) -> bool {
    s == "ia"@ || s == "ai"@ || s == "ieu"@ || s == "io"@
    || s == "ua"@ || s == "ao"@ || s == "au"@ || s == "oi"@
    || s == "a"@ || s == "i"@ || s == "o"@ || s == "e"@
    || s == "u"@ || s == "oai"@ || s == "uou"@ || s == "uo"@
    || s == "uu"@ || s == "ie"@ || s == "ay"@ || s == "oa"@
    || s == "eo"@ || s == "oeo"@ || s == "iu"@ || s == "oao"@
    || s == "oay"@ || s == "oe"@ || s == "oo"@ || s == "ui"@
    || s == "uy"@ || s == "uya"@ || s == "uyu"@ || s == "uye"@
    || s == "uoi"@ || s == "ye"@ || s == "yeu"@ || s == "y"@
    || s == "eu"@ || s == "ue"@ || s == "uay"@
}

/// `lower` is an initial consonant: one letter that can open a syllable, a
/// digraph, or `ngh`.
pub open spec fn initial_consonant_ok(lower: Seq<char>) -> bool {
    (lower.len() == 1 && single_initial(lower[0])) || (lower.len() == 2 && initial_digraph(lower))
        || (lower.len() == 3 && lower == "ngh"@)
}

/// The ASCII lowercase form of `c`.
pub open spec fn ascii_lower(c: char) -> char {
    if 'A' <= c <= 'Z' {
        ((c as u8) + 32) as u8 as char
    } else {
        c
    }
}

/// The vowel cluster `v` with marks stripped and letters in lowercase.
pub open spec fn folded_vowel(v: Seq<char>) -> Seq<char> {
    v.map_values(|c: char| ascii_lower(base_letter(c)))
}

/// `s` is a valid syllable: it parses, its initial consonant (if any) is one,
/// and its vowel cluster is either empty or a cluster followed by nothing or
/// by a final consonant. Consonants are compared in lowercase.
pub open spec fn syllable_valid(s: Seq<char>) -> bool {
    match initial_len(s, lower_of(s)) {
        None => false,
        Some(i) => {
            let v = run_len(s, i, true);
            let initial = s.subrange(0, i);
            let vowel = s.subrange(i, i + v);
            let fin = s.subrange(i + v, s.len() as int);
            &&& initial.len() == 0 || initial_consonant_ok(lower_of(initial))
            &&& vowel.len() > 0 ==> {
                &&& vowel_cluster(folded_vowel(vowel))
                &&& fin.len() == 0 || final_consonant(lower_of(fin))
            }
        },
    }
}

/// Whether the characters of `s` are those of `lit`.
fn chars_equal(s: &[char], lit: &str) -> (r: bool)
    ensures
        r == (s@ == lit@),
{
    let n = lit.unicode_len();
    if s.len() != n {
        return false;
    }
    let mut i: usize = 0;
    while i < n
        invariant
            i <= n == s@.len() == lit@.len(),
            forall|j: int| 0 <= j < i ==> s@[j] == lit@[j],
        decreases n - i,
    {
        if s[i] != lit.get_char(i) {
            return false;
        }
        i = i + 1;
    }
    assert(s@ =~= lit@);
    true
}

/// The ASCII lowercase form of a character.
fn ascii_lowercase(c: char) -> (r: char)
    ensures
        r == ascii_lower(c),
{
    if 'A' <= c && c <= 'Z' {
        ((c as u8) + 32) as char
    } else {
        c
    }
}

/// Whether `consonant`, already in lowercase, is an initial consonant.
pub fn is_initial_consonant_lowercase(consonant: &str) -> (r: bool)
    ensures
        r == initial_consonant_ok(consonant@),
{
    let s = chars_of(consonant);
    let s = s.as_slice();
    if s.len() == 1 {
        return match s[0] {
            'b' | 'c' | 'd' | 'đ' | 'g' | 'h' | 'k' | 'l' | 'm' | 'n' | 'p' | 'q' | 'r' | 's' | 't' | 'v' | 'x' => true,
            _ => false,
        };
    }
    if s.len() == 2 {
        return chars_equal(s, "ch") || chars_equal(s, "gh") || chars_equal(s, "gi")
        || chars_equal(s, "kh") || chars_equal(s, "nh") || chars_equal(s, "ng")
        || chars_equal(s, "ph") || chars_equal(s, "th") || chars_equal(s, "tr")
        || chars_equal(s, "qu");
    }
    if s.len() == 3 {
        return chars_equal(s, "ngh");
    }
    false
}

/// Whether `consonant`, already in lowercase, is a final consonant.
pub fn is_final_consonant_lowercase(consonant: &str) -> (r: bool)
    ensures
        r == final_consonant(consonant@),
{
    let chars = chars_of(consonant);
    let s = chars.as_slice();
    chars_equal(s, "c") || chars_equal(s, "ch") || chars_equal(s, "m")
    || chars_equal(s, "n") || chars_equal(s, "nh") || chars_equal(s, "ng")
    || chars_equal(s, "p") || chars_equal(s, "t")
}

/// Whether `consonant` is an initial consonant, in any case.
pub fn is_valid_initial_consonant(consonant: &str) -> (r: bool)
    ensures
        r == initial_consonant_ok(lower_of(consonant@)),
{
    let lowered = lowercase(consonant);
    is_initial_consonant_lowercase(lowered.as_str())
}

/// Whether `consonant` is a final consonant, in any case.
pub fn is_valid_final_consonant(consonant: &str) -> (r: bool)
    ensures
        r == final_consonant(lower_of(consonant@)),
{
    let lowered = lowercase(consonant);
    is_final_consonant_lowercase(lowered.as_str())
}

/// Whether the characters of `v`, marks stripped and in lowercase, form a vowel cluster.
fn is_vowel_cluster(v: &str) -> (r: bool)
    ensures
        r == vowel_cluster(folded_vowel(v@)),
{
    let chars = chars_of(v);
    let mut folded: Vec<char> = Vec::with_capacity(chars.len());
    let mut i: usize = 0;
    while i < chars.len()
        invariant
            i <= chars@.len(),
            chars@ == v@,
            folded@ == folded_vowel(v@.subrange(0, i as int)),
        decreases chars@.len() - i,
    {
        folded.push(ascii_lowercase(clean_char(chars[i])));
        i = i + 1;
        assert(folded_vowel(v@.subrange(0, i as int)) =~= folded_vowel(v@.subrange(0, i - 1)).push(
            ascii_lower(base_letter(v@[i - 1])),
        ));
    }
    assert(v@.subrange(0, v@.len() as int) =~= v@);
    let s = folded.as_slice();
    chars_equal(s, "ia") || chars_equal(s, "ai") || chars_equal(s, "ieu")
    || chars_equal(s, "io") || chars_equal(s, "ua") || chars_equal(s, "ao")
    || chars_equal(s, "au") || chars_equal(s, "oi") || chars_equal(s, "a")
    || chars_equal(s, "i") || chars_equal(s, "o") || chars_equal(s, "e")
    || chars_equal(s, "u") || chars_equal(s, "oai") || chars_equal(s, "uou")
    || chars_equal(s, "uo") || chars_equal(s, "uu") || chars_equal(s, "ie")
    || chars_equal(s, "ay") || chars_equal(s, "oa") || chars_equal(s, "eo")
    || chars_equal(s, "oeo") || chars_equal(s, "iu") || chars_equal(s, "oao")
    || chars_equal(s, "oay") || chars_equal(s, "oe") || chars_equal(s, "oo")
    || chars_equal(s, "ui") || chars_equal(s, "uy") || chars_equal(s, "uya")
    || chars_equal(s, "uyu") || chars_equal(s, "uye") || chars_equal(s, "uoi")
    || chars_equal(s, "ye") || chars_equal(s, "yeu") || chars_equal(s, "y")
    || chars_equal(s, "eu") || chars_equal(s, "ue") || chars_equal(s, "uay")
}

/// Whether `input` is a valid Vietnamese syllable.
pub fn is_valid_syllable(input: &str) -> (r: bool)
    ensures
        r == syllable_valid(input@),
{
    let components = match parse_syllable(input) {
        Ok((_, c)) => c,
        Err(_) => {
            return false;
        },
    };
    if components.initial_consonant.unicode_len() != 0 && !is_valid_initial_consonant(
        components.initial_consonant,
    ) {
        return false;
    }
    if components.vowel.unicode_len() == 0 {
        return true;
    }
    if !is_vowel_cluster(components.vowel) {
        return false;
    }
    if components.final_consonant.unicode_len() != 0 && !is_valid_final_consonant(
        components.final_consonant,
    ) {
        return false;
    }
    true
}

} // verus!
