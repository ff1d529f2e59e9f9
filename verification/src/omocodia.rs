//! Omocodia substitution: the letter-for-digit table used to disambiguate
//! colliding codes, and the 7-bit mask that records which digit-eligible
//! positions of a code currently carry a substituted letter.

use vstd::prelude::*;
use crate::parsers::is_ascii_letter;
use crate::parsers::is_ascii_digit;

verus! {

/// Substitution letter of a digit character: `0..9` map to
/// `L,M,N,P,Q,R,S,T,U,V`; anything else yields the null sentinel.
pub open spec fn subst_letter(c: char) -> char {
    if c == '0' {
        'L'
    } else if c == '1' {
        'M'
    } else if c == '2' {
        'N'
    } else if c == '3' {
        'P'
    } else if c == '4' {
        'Q'
    } else if c == '5' {
        'R'
    } else if c == '6' {
        'S'
    } else if c == '7' {
        'T'
    } else if c == '8' {
        'U'
    } else if c == '9' {
        'V'
    } else {
        '\0'
    }
}

/// Digit character of a substitution letter: the exact inverse of
/// [`subst_letter`]; letters outside the ten yield the null sentinel.
pub open spec fn subst_digit(c: char) -> char {
    if c == 'L' {
        '0'
    } else if c == 'M' {
        '1'
    } else if c == 'N' {
        '2'
    } else if c == 'P' {
        '3'
    } else if c == 'Q' {
        '4'
    } else if c == 'R' {
        '5'
    } else if c == 'S' {
        '6'
    } else if c == 'T' {
        '7'
    } else if c == 'U' {
        '8'
    } else if c == 'V' {
        '9'
    } else {
        '\0'
    }
}

/// True when `c` is one of the ten substitution letters.
pub open spec fn is_subst_letter(c: char) -> bool {
    c == 'L' || c == 'M' || c == 'N' || c == 'P' || c == 'Q' || c == 'R' || c == 'S' || c == 'T'
        || c == 'U' || c == 'V'
}

/// 1 when the character is an ASCII letter (a substituted digit), else 0.
pub open spec fn alpha_bit(c: char) -> u8 {
    if is_ascii_letter(c) {
        1
    } else {
        0
    }
}

/// The 7-bit omocodia mask of a 16-character code: one bit per
/// digit-eligible position, most-significant bit first in string order —
/// positions 6 and 7 (year), 9 and 10 (day), 12, 13 and 14 (municipality
/// number). A set bit means the position holds a letter.
pub open spec fn mask_of(s: Seq<char>) -> u8 {
    (alpha_bit(s[6]) * 64 + alpha_bit(s[7]) * 32 + alpha_bit(s[9]) * 16 + alpha_bit(s[10]) * 8
        + alpha_bit(s[12]) * 4 + alpha_bit(s[13]) * 2 + alpha_bit(s[14])) as u8
}

/// A substitution letter reverses to a digit and substitutes back to itself.
pub proof fn lemma_subst_round_trip(c: char)
    requires
        is_subst_letter(c),
    ensures
        is_ascii_digit(subst_digit(c)),
        subst_letter(subst_digit(c)) == c,
        is_ascii_letter(c),
{
}

/// A digit substitutes to a letter and reverses back to itself.
pub proof fn lemma_subst_forward(c: char)
    requires
        is_ascii_digit(c),
    ensures
        is_subst_letter(subst_letter(c)),
        is_ascii_letter(subst_letter(c)),
        subst_digit(subst_letter(c)) == c,
{
    vstd::utf8::char_u32_cast(c, c as u32);
    assert(c == '0' || c == '1' || c == '2' || c == '3' || c == '4' || c == '5' || c == '6'
        || c == '7' || c == '8' || c == '9') by {
        let u = c as u32;
        assert(48 <= u <= 57);
        assert(u == 48 || u == 49 || u == 50 || u == 51 || u == 52 || u == 53 || u == 54 || u == 55
            || u == 56 || u == 57);
    }
}

/// The mask depends only on whether the seven eligible positions hold a
/// letter; the content of every other position is irrelevant.
pub proof fn lemma_mask_depends_only_on_eligible(s: Seq<char>, t: Seq<char>)
    requires
        s.len() == 16,
        t.len() == 16,
        forall|i: int|
            (i == 6 || i == 7 || i == 9 || i == 10 || i == 12 || i == 13 || i == 14) ==> (
            is_ascii_letter(#[trigger] s[i]) <==> is_ascii_letter(t[i])),
    ensures
        mask_of(s) == mask_of(t),
{
    assert(is_ascii_letter(s[6]) <==> is_ascii_letter(t[6]));
    assert(is_ascii_letter(s[7]) <==> is_ascii_letter(t[7]));
    assert(is_ascii_letter(s[9]) <==> is_ascii_letter(t[9]));
    assert(is_ascii_letter(s[10]) <==> is_ascii_letter(t[10]));
    assert(is_ascii_letter(s[12]) <==> is_ascii_letter(t[12]));
    assert(is_ascii_letter(s[13]) <==> is_ascii_letter(t[13]));
    assert(is_ascii_letter(s[14]) <==> is_ascii_letter(t[14]));
}

/// Forward substitution: digit character to its substitution letter; other
/// characters yield the null sentinel.
pub fn omocodia(c: char) -> (r: char)
    ensures
        r == subst_letter(c),
{
    if c == '0' {
        'L'
    } else if c == '1' {
        'M'
    } else if c == '2' {
        'N'
    } else if c == '3' {
        'P'
    } else if c == '4' {
        'Q'
    } else if c == '5' {
        'R'
    } else if c == '6' {
        'S'
    } else if c == '7' {
        'T'
    } else if c == '8' {
        'U'
    } else if c == '9' {
        'V'
    } else {
        '\0'
    }
}

/// Reverse substitution: substitution letter back to its digit character;
/// other characters yield the null sentinel.
pub fn rev_omocodia(c: char) -> (r: char)
    ensures
        r == subst_digit(c),
{
    if c == 'L' {
        '0'
    } else if c == 'M' {
        '1'
    } else if c == 'N' {
        '2'
    } else if c == 'P' {
        '3'
    } else if c == 'Q' {
        '4'
    } else if c == 'R' {
        '5'
    } else if c == 'S' {
        '6'
    } else if c == 'T' {
        '7'
    } else if c == 'U' {
        '8'
    } else if c == 'V' {
        '9'
    } else {
        '\0'
    }
}

/// True when the character is an ASCII letter; the mask counts such a
/// character as a substituted digit.
fn is_alpha(c: char) -> (r: bool)
    ensures
        r == is_ascii_letter(c),
{
    let u = c as u32;
    (65 <= u && u <= 90) || (97 <= u && u <= 122)
}

/// Omocodia mask of a 16-character code string; see [`mask_of`].
pub fn omocodia_bitmask(s: &str) -> (m: u8)
    requires
        s@.len() == 16,
    ensures
        m == mask_of(s@),
        m < 128,
{
    let a6: u8 = if is_alpha(s.get_char(6)) {
        1
    } else {
        0
    };
    let a7: u8 = if is_alpha(s.get_char(7)) {
        1
    } else {
        0
    };
    let a9: u8 = if is_alpha(s.get_char(9)) {
        1
    } else {
        0
    };
    let a10: u8 = if is_alpha(s.get_char(10)) {
        1
    } else {
        0
    };
    let a12: u8 = if is_alpha(s.get_char(12)) {
        1
    } else {
        0
    };
    let a13: u8 = if is_alpha(s.get_char(13)) {
        1
    } else {
        0
    };
    let a14: u8 = if is_alpha(s.get_char(14)) {
        1
    } else {
        0
    };
    a6 * 64 + a7 * 32 + a9 * 16 + a10 * 8 + a12 * 4 + a13 * 2 + a14
}

} // verus!
