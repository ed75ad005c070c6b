//! Splitting a Vietnamese syllable into its initial consonant, its vowel
//! cluster and its final consonant.

use crate::util::{chars_of, is_vowel, vowel_letter};
use vstd::prelude::*;
use vstd::string::*;

verus! {

/// What `str::to_lowercase` returns for the characters `s`.
pub uninterp spec fn lower_of(s: Seq<char>) -> Seq<char>;

/// Relies on `str::to_lowercase`: the lowercase mapping of Unicode, which
/// depends on the characters of `s` alone.
#[verifier::external_body]
pub(crate) fn lowercase(s: &str) -> (r: String)
    ensures
        r@ == lower_of(s@),
{
    s.to_lowercase()
}

/// The parts of a syllable, as slices of the input.
pub struct SyllableComponents<'a> {
    /// The initial consonant; may be empty.
    pub initial_consonant: &'a str,
    /// The vowel cluster; may be empty.
    pub vowel: &'a str,
    /// The final consonant: everything after the vowel cluster.
    pub final_consonant: &'a str,
}

/// How many characters from position `from` on are, in a row, vowels (when
/// `vowels`) or not vowels (otherwise).
pub open spec fn run_len(s: Seq<char>, from: int, vowels: bool) -> int
    decreases s.len() - from,
{
    if from < 0 || from >= s.len() || vowel_letter(s[from]) != vowels {
        0
    } else {
        1 + run_len(s, from + 1, vowels)
    }
}

/// `c` is the ASCII letter `lower` in either case.
pub open spec fn letter_no_case(c: char, lower: char, upper: char) -> bool {
    c == lower || c == upper
}

/// The length of the initial consonant of `s`, whose lowercase form is
/// `lower`: a lone `g` where the lowercase form starts with `gi` and no vowel
/// follows the `i`; otherwise `gi` or `qu` in any case; otherwise every
/// character before the first vowel. `None` when the lone `g` is missing.
pub open spec fn initial_len(s: Seq<char>, lower: Seq<char>) -> Option<int> {
    if lower.len() >= 2 && lower[0] == 'g' && lower[1] == 'i' && !(s.len() > 2 && vowel_letter(
        s[2],
    )) {
        if s.len() >= 1 && letter_no_case(s[0], 'g', 'G') {
            Some(1)
        } else {
            None
        }
    } else if s.len() >= 2 && letter_no_case(s[0], 'g', 'G') && letter_no_case(s[1], 'i', 'I') {
        Some(2)
    } else if s.len() >= 2 && letter_no_case(s[0], 'q', 'Q') && letter_no_case(s[1], 'u', 'U') {
        Some(2)
    } else {
        Some(run_len(s, 0, false))
    }
}

proof fn lemma_run_len_bounds(s: Seq<char>, from: int, vowels: bool)
    requires
        0 <= from <= s.len(),
    ensures
        0 <= run_len(s, from, vowels) <= s.len() - from,
    decreases s.len() - from,
{
    if from < s.len() && vowel_letter(s[from]) == vowels {
        lemma_run_len_bounds(s, from + 1, vowels);
    }
}

/// Counts the characters from `from` on that are, in a row, vowels (when
/// `vowels`) or not vowels (otherwise).
fn count_run(s: &Vec<char>, from: usize, vowels: bool) -> (r: usize)
    requires
        from <= s@.len(),
    ensures
        r == run_len(s@, from as int, vowels),
        from + r <= s@.len(),
{
    let mut end = from;
    proof {
        lemma_run_len_bounds(s@, from as int, vowels);
    }
    while end < s.len() && is_vowel(s[end]) == vowels
        invariant
            from <= end <= s@.len(),
            run_len(s@, from as int, vowels) == (end - from) + run_len(s@, end as int, vowels),
        decreases s@.len() - end,
    {
        end = end + 1;
    }
    end - from
}

/// Splits `input` into its parts, given `lowered`, the lowercase form of
/// `input`: the initial consonant as `initial_len` measures it, then the
/// vowel cluster, then the rest. Also returns the rest, which is the final
/// consonant.
pub fn parse_syllable_lowered<'a>(input: &'a str, lowered: &str) -> (r: Result<
    (&'a str, SyllableComponents<'a>),
    (),
>)
    ensures
        r is Err <==> initial_len(input@, lowered@) is None,
        r matches Ok((rest, c)) ==> {
            let i = initial_len(input@, lowered@)->0;
            let v = run_len(input@, i, true);
            &&& c.initial_consonant@ == input@.subrange(0, i)
            &&& c.vowel@ == input@.subrange(i, i + v)
            &&& c.final_consonant@ == input@.subrange(i + v, input@.len() as int)
            &&& rest@ == c.final_consonant@
        },
{
    let s = chars_of(input);
    let lower = chars_of(lowered);
    let n = s.len();
    let gi_prefix = lower.len() >= 2 && lower[0] == 'g' && lower[1] == 'i';
    let vowel_third = n > 2 && is_vowel(s[2]);
    let initial: usize = if gi_prefix && !vowel_third {
        if n >= 1 && (s[0] == 'g' || s[0] == 'G') {
            1
        } else {
            return Err(());
        }
    } else if n >= 2 && (s[0] == 'g' || s[0] == 'G') && (s[1] == 'i' || s[1] == 'I') {
        2
    } else if n >= 2 && (s[0] == 'q' || s[0] == 'Q') && (s[1] == 'u' || s[1] == 'U') {
        2
    } else {
        count_run(&s, 0, false)
    };
    let v = count_run(&s, initial, true);
    let initial_consonant = input.substring_char(0, initial);
    let vowel = input.substring_char(initial, initial + v);
    let final_consonant = input.substring_char(initial + v, n);
    let rest = input.substring_char(initial + v, n);
    Ok((rest, SyllableComponents { initial_consonant, vowel, final_consonant }))
}

/// Splits a syllable into its initial consonant, vowel cluster and final
/// consonant, as `parse_syllable_lowered` does with the lowercase form of `input`.
pub fn parse_syllable<'a>(input: &'a str) -> (r: Result<(&'a str, SyllableComponents<'a>), ()>)
    ensures
        r is Err <==> initial_len(input@, lower_of(input@)) is None,
        r matches Ok((rest, c)) ==> {
            let i = initial_len(input@, lower_of(input@))->0;
            let v = run_len(input@, i, true);
            &&& c.initial_consonant@ == input@.subrange(0, i)
            &&& c.vowel@ == input@.subrange(i, i + v)
            &&& c.final_consonant@ == input@.subrange(i + v, input@.len() as int)
            &&& rest@ == c.final_consonant@
        },
{
    let lowered = lowercase(input);
    parse_syllable_lowered(input, lowered.as_str())
}

/// The vowel cluster of a syllable, with what follows it.
pub fn parse_vowel<'a>(input: &'a str) -> (r: Result<(&'a str, &'a str), ()>)
    ensures
        r is Err <==> initial_len(input@, lower_of(input@)) is None,
        r matches Ok((rest, vowel)) ==> {
            let i = initial_len(input@, lower_of(input@))->0;
            let v = run_len(input@, i, true);
            &&& vowel@ == input@.subrange(i, i + v)
            &&& rest@ == input@.subrange(i + v, input@.len() as int)
        },
{
    match parse_syllable(input) {
        Ok((rest, c)) => Ok((rest, c.vowel)),
        Err(e) => Err(e),
    }
}

} // verus!
