//! Alphabet tables: letter/index conversion and the month alphabet.
//!
//! All tables are total: unrecognized input is absorbed into a sentinel
//! value (0, the null character, or the fallback letter `a`) instead of
//! failing, so error detection is left to call sites that care.

use vstd::prelude::*;

verus! {

/// True when `c` is an ASCII decimal digit.
pub open spec fn is_ascii_digit(c: char) -> bool {
    48 <= c as u32 <= 57
}

/// True when `c` is an ASCII uppercase letter.
pub open spec fn is_ascii_uppercase(c: char) -> bool {
    65 <= c as u32 <= 90
}

/// True when `c` is an ASCII lowercase letter.
pub open spec fn is_ascii_lowercase(c: char) -> bool {
    97 <= c as u32 <= 122
}

/// True when `c` is an ASCII letter of either case.
pub open spec fn is_ascii_letter(c: char) -> bool {
    is_ascii_uppercase(c) || is_ascii_lowercase(c)
}

/// True when `c` is an ASCII letter or digit.
pub open spec fn is_ascii_alphanumeric(c: char) -> bool {
    is_ascii_letter(c) || is_ascii_digit(c)
}

/// Index of a letter in the alphabet: `A`/`a` is 0 through `Z`/`z` at 25.
/// Any other character falls back to 0.
pub open spec fn letter_index(c: char) -> u8 {
    if is_ascii_uppercase(c) {
        (c as u32 - 65) as u8
    } else if is_ascii_lowercase(c) {
        (c as u32 - 97) as u8
    } else {
        0
    }
}

/// Uppercase letter with index `n` (0 is `A`); indices above 25 yield the
/// fallback character `a`, which signals a corrupted field without failing.
pub open spec fn letter_of_index(n: u8) -> char {
    if n > 25 {
        'a'
    } else {
        ((n + 65) as u8) as char
    }
}

/// Decimal digit character with value `d` (meaningful for `d <= 9`).
pub open spec fn digit_char(d: int) -> char {
    ((d + 48) as u8) as char
}

/// Numeric value of a digit character (meaningful when `is_ascii_digit(c)`).
pub open spec fn digit_val(c: char) -> int {
    c as u32 - 48
}

/// Month number of a month-alphabet letter, case-insensitive: the fixed
/// non-sequential sequence `A,B,C,D,E,H,L,M,P,R,S,T` maps to 1 through 12;
/// any other character yields the invalid-month sentinel 0.
pub open spec fn month_code(c: char) -> u8 {
    if c == 'A' || c == 'a' {
        1
    } else if c == 'B' || c == 'b' {
        2
    } else if c == 'C' || c == 'c' {
        3
    } else if c == 'D' || c == 'd' {
        4
    } else if c == 'E' || c == 'e' {
        5
    } else if c == 'H' || c == 'h' {
        6
    } else if c == 'L' || c == 'l' {
        7
    } else if c == 'M' || c == 'm' {
        8
    } else if c == 'P' || c == 'p' {
        9
    } else if c == 'R' || c == 'r' {
        10
    } else if c == 'S' || c == 's' {
        11
    } else if c == 'T' || c == 't' {
        12
    } else {
        0
    }
}

/// Letter of a month number 1 through 12; anything else yields the null
/// sentinel character.
pub open spec fn month_letter(n: u8) -> char {
    if n == 1 {
        'A'
    } else if n == 2 {
        'B'
    } else if n == 3 {
        'C'
    } else if n == 4 {
        'D'
    } else if n == 5 {
        'E'
    } else if n == 6 {
        'H'
    } else if n == 7 {
        'L'
    } else if n == 8 {
        'M'
    } else if n == 9 {
        'P'
    } else if n == 10 {
        'R'
    } else if n == 11 {
        'S'
    } else if n == 12 {
        'T'
    } else {
        '\0'
    }
}

/// True when `c` is one of the twelve uppercase month letters.
pub open spec fn is_month_letter(c: char) -> bool {
    c == 'A' || c == 'B' || c == 'C' || c == 'D' || c == 'E' || c == 'H' || c == 'L' || c == 'M'
        || c == 'P' || c == 'R' || c == 'S' || c == 'T'
}

/// An uppercase letter converts to an index at most 25 and back to itself.
pub proof fn lemma_letter_round_trip(c: char)
    requires
        is_ascii_uppercase(c),
    ensures
        letter_index(c) <= 25,
        letter_of_index(letter_index(c)) == c,
{
    vstd::utf8::char_u32_cast(c, c as u32);
}

/// An index at most 25 converts to an uppercase letter and back to itself.
pub proof fn lemma_index_round_trip(n: u8)
    requires
        n <= 25,
    ensures
        is_ascii_uppercase(letter_of_index(n)),
        letter_index(letter_of_index(n)) == n,
{
}

/// A digit character converts to a value at most 9 and back to itself;
/// digit characters are not letters.
pub proof fn lemma_digit_round_trip(c: char)
    requires
        is_ascii_digit(c),
    ensures
        0 <= digit_val(c) <= 9,
        digit_char(digit_val(c)) == c,
        !is_ascii_letter(c),
{
    vstd::utf8::char_u32_cast(c, c as u32);
}

/// A value at most 9 converts to a digit character and back to itself.
pub proof fn lemma_digit_val_round_trip(d: int)
    requires
        0 <= d <= 9,
    ensures
        is_ascii_digit(digit_char(d)),
        !is_ascii_letter(digit_char(d)),
        digit_val(digit_char(d)) == d,
{
}

/// The month table is a bijection between 1..12 and its twelve letters:
/// decoding the letter of a month gives that month back.
pub proof fn lemma_month_round_trip(n: u8)
    requires
        1 <= n <= 12,
    ensures
        is_month_letter(month_letter(n)),
        month_code(month_letter(n)) == n,
{
}

/// The other direction of the month bijection: a month letter's code is in
/// 1..12 and maps back to the letter itself.
pub proof fn lemma_month_letter_round_trip(c: char)
    requires
        is_month_letter(c),
    ensures
        1 <= month_code(c) <= 12,
        month_letter(month_code(c)) == c,
        is_ascii_uppercase(c),
{
}

/// Letter-to-index conversion, case-insensitive; non-alphabetic input
/// silently maps to index 0 rather than failing.
pub fn alphabet_to_number(c: char) -> (n: u8)
    ensures
        n == letter_index(c),
        n <= 25,
{
    let u = c as u32;
    if 65 <= u && u <= 90 {
        (u - 65) as u8
    } else if 97 <= u && u <= 122 {
        (u - 97) as u8
    } else {
        0
    }
}

/// Index-to-letter conversion; indices above 25 yield the fallback `a`.
pub fn number_to_alphabet(n: u8) -> (c: char)
    ensures
        c == letter_of_index(n),
{
    if n > 25 {
        'a'
    } else {
        (n + 65) as char
    }
}

/// Month letter to month number 1..12, case-insensitive; other characters
/// yield the sentinel 0.
pub fn alphabet_to_month(c: char) -> (n: u8)
    ensures
        n == month_code(c),
        n <= 12,
{
    if c == 'A' || c == 'a' {
        1
    } else if c == 'B' || c == 'b' {
        2
    } else if c == 'C' || c == 'c' {
        3
    } else if c == 'D' || c == 'd' {
        4
    } else if c == 'E' || c == 'e' {
        5
    } else if c == 'H' || c == 'h' {
        6
    } else if c == 'L' || c == 'l' {
        7
    } else if c == 'M' || c == 'm' {
        8
    } else if c == 'P' || c == 'p' {
        9
    } else if c == 'R' || c == 'r' {
        10
    } else if c == 'S' || c == 's' {
        11
    } else if c == 'T' || c == 't' {
        12
    } else {
        0
    }
}

/// Month number 1..12 to its letter; other numbers yield the null sentinel.
pub fn month_to_alphabet(n: u8) -> (c: char)
    ensures
        c == month_letter(n),
{
    if n == 1 {
        'A'
    } else if n == 2 {
        'B'
    } else if n == 3 {
        'C'
    } else if n == 4 {
        'D'
    } else if n == 5 {
        'E'
    } else if n == 6 {
        'H'
    } else if n == 7 {
        'L'
    } else if n == 8 {
        'M'
    } else if n == 9 {
        'P'
    } else if n == 10 {
        'R'
    } else if n == 11 {
        'S'
    } else if n == 12 {
        'T'
    } else {
        '\0'
    }
}

} // verus!
