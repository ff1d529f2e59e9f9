//! Codec for the Italian fiscal-code string: a 16-character identifier
//! packed into a 74-bit record, with omocodia letter-for-digit
//! substitution recorded in a 7-bit mask.
//!
//! [`CF::parse`] turns a code string into a packed [`CF`] record,
//! [`CF::format_code`] renders a record back into its 16 characters, and
//! the accessors project single fields out of the packed bits. The bit
//! layout lives in [`layout`], the character tables in [`parsers`] and
//! [`omocodia`], and the string-level meaning of both conversions, with
//! the round-trip laws, in [`model`].

pub mod layout;
pub mod model;
pub mod omocodia;
pub mod parsers;

use vstd::prelude::*;
use crate::layout::check_of;
use crate::layout::day_of;
use crate::layout::gender_of;
use crate::layout::lemma_extract_bounds;
use crate::layout::month_of;
use crate::layout::year_of;
use crate::model::decode_char;
use crate::model::fdig;
use crate::model::formatted;
use crate::model::lemma_split_three;
use crate::model::lemma_split_two;
use crate::model::muni_chars;
use crate::model::name_chars;
use crate::model::pair_val;
use crate::model::parsed_bits;
use crate::model::triple_val;
use crate::model::valid_code;
use crate::omocodia::omocodia_bitmask;
use crate::omocodia::rev_omocodia;
use crate::parsers::alphabet_to_month;
use crate::parsers::alphabet_to_number;
use crate::parsers::digit_char;
use crate::parsers::is_ascii_alphanumeric;
use crate::parsers::letter_of_index;
use crate::parsers::month_to_alphabet;
use crate::parsers::number_to_alphabet;
use vstd::string::StrSliceExecFns;

verus! {

/// A packed fiscal-code record: 74 significant bits inside an 80-bit
/// value, laid out as documented in [`layout`]. Its view is that value.
pub struct CF {
    bits: u128,
}

/// The single hard failure of the codec: the input string is not 16
/// ASCII alphanumeric characters.
#[derive(Debug)]
pub struct CFParseStringError;

impl View for CF {
    type V = u128;

    closed spec fn view(&self) -> u128 {
        self.bits
    }
}

/// Relies on String::push: appends the character to the end of the string.
#[verifier::external_body]
fn push_char(s: &mut String, c: char)
    ensures
        final(s)@ == old(s)@.push(c),
{
    s.push(c);
}

/// Digit value 0..9 to its decimal character.
fn digit_to_char(d: u8) -> (c: char)
    requires
        d <= 9,
    ensures
        c == digit_char(d as int),
{
    (d + 48) as char
}

/// One character of a digit position as parsing sees it: a letter is
/// reverse-substituted, anything else is kept.
fn decode_one(c: char) -> (d: char)
    ensures
        d == decode_char(c),
{
    let u = c as u32;
    if (65 <= u && u <= 90) || (97 <= u && u <= 122) {
        rev_omocodia(c)
    } else {
        c
    }
}

/// Two-digit group value; any character that does not decode to a digit
/// silently turns the whole group into 0.
fn decoded_pair(c1: char, c0: char) -> (v: u8)
    ensures
        v == pair_val(c1, c0),
        v <= 99,
{
    let d1 = decode_one(c1) as u32;
    let d0 = decode_one(c0) as u32;
    if 48 <= d1 && d1 <= 57 && 48 <= d0 && d0 <= 57 {
        ((d1 - 48) * 10 + (d0 - 48)) as u8
    } else {
        0
    }
}

/// Three-digit group value; any character that does not decode to a digit
/// silently turns the whole group into 0.
fn decoded_triple(c2: char, c1: char, c0: char) -> (v: u16)
    ensures
        v == triple_val(c2, c1, c0),
        v <= 999,
{
    let d2 = decode_one(c2) as u32;
    let d1 = decode_one(c1) as u32;
    let d0 = decode_one(c0) as u32;
    if 48 <= d2 && d2 <= 57 && 48 <= d1 && d1 <= 57 && 48 <= d0 && d0 <= 57 {
        ((d2 - 48) * 100 + (d1 - 48) * 10 + (d0 - 48)) as u16
    } else {
        0
    }
}

/// A rendered digit, substituted with its omocodia letter where asked.
fn subst_or_plain(d: u8, sub: bool) -> (c: char)
    requires
        d <= 9,
    ensures
        c == fdig(d as int, sub),
{
    let ch = digit_to_char(d);
    if sub {
        crate::omocodia::omocodia(ch)
    } else {
        ch
    }
}

impl CF {
    /// Builds a record from a raw integer, keeping its low 80 bits.
    pub fn new(unpacked: u128) -> (r: CF)
        ensures
            r@ == unpacked % 0x100000000000000000000,
    {
        proof {
            assert(unpacked & 0xffffffffffffffffffff == unpacked % 0x100000000000000000000)
                by (bit_vector);
        }
        CF { bits: unpacked & 0xffffffffffffffffffff }
    }

    /// The raw 80-bit value of the record.
    pub fn unpack(&self) -> (r: u128)
        ensures
            r == self@,
    {
        self.bits
    }

    /// The all-zero record.
    pub fn empty() -> (r: CF)
        ensures
            r@ == 0,
    {
        CF { bits: 0 }
    }

    /// Parses a 16-character code string into a packed record. Fails with
    /// [`CFParseStringError`] exactly when the input is not 16 ASCII
    /// alphanumeric characters; any in-field oddity short of that parses
    /// into sentinel values instead of failing.
    pub fn parse(s: &str) -> (r: Result<CF, CFParseStringError>)
        ensures
            valid_code(s@) ==> (r matches Ok(cf) && cf@ == parsed_bits(s@)),
            !valid_code(s@) ==> r is Err,
    {
        if s.unicode_len() != 16 {
            return Err(CFParseStringError);
        }
        let mut i: usize = 0;
        while i < 16
            invariant
                s@.len() == 16,
                i <= 16,
                forall|j: int| 0 <= j < i ==> is_ascii_alphanumeric(#[trigger] s@[j]),
            decreases 16 - i,
        {
            let u = s.get_char(i) as u32;
            if !((48 <= u && u <= 57) || (65 <= u && u <= 90) || (97 <= u && u <= 122)) {
                return Err(CFParseStringError);
            }
            i += 1;
        }
        let m = omocodia_bitmask(s);
        let i0 = alphabet_to_number(s.get_char(0));
        let i1 = alphabet_to_number(s.get_char(1));
        let i2 = alphabet_to_number(s.get_char(2));
        let i3 = alphabet_to_number(s.get_char(3));
        let i4 = alphabet_to_number(s.get_char(4));
        let i5 = alphabet_to_number(s.get_char(5));
        let y = decoded_pair(s.get_char(6), s.get_char(7));
        let mo = alphabet_to_month(s.get_char(8));
        let v = decoded_pair(s.get_char(9), s.get_char(10));
        let (day, male) = if v > 39 {
            (v - 40, false)
        } else {
            (v, true)
        };
        let dayf = day % 32;
        let ml = alphabet_to_number(s.get_char(11));
        let mn = decoded_triple(s.get_char(12), s.get_char(13), s.get_char(14));
        let ck = alphabet_to_number(s.get_char(15));
        let bits: u128 = ((m as u128) << 67) | ((i0 as u128) << 62) | ((i1 as u128) << 57) | ((
        i2 as u128) << 52) | ((i3 as u128) << 47) | ((i4 as u128) << 42) | ((i5 as u128) << 37) | ((
        y as u128) << 30) | ((mo as u128) << 26) | ((dayf as u128) << 21) | (if male {
            0x100000u128
        } else {
            0u128
        }) | ((ml as u128) << 15) | ((mn as u128) << 5) | (ck as u128);
        Ok(CF { bits })
    }

    /// Renders the record as its 16-character code string, applying the
    /// stored omocodia mask to each digit position.
    #[verifier::rlimit(100)]
    #[verifier::spinoff_prover]
    pub fn format_code(&self) -> (r: String)
        ensures
            r@ == formatted(self@),
    {
        let b = self.bits;
        proof {
            lemma_extract_bounds(b);
        }
        let ghost t = formatted(self@);
        let mut out = String::new();
        push_char(&mut out, number_to_alphabet(((b >> 62) & 0x1f) as u8));
        proof {
            assert(out@ =~= t.subrange(0, 1));
        }
        push_char(&mut out, number_to_alphabet(((b >> 57) & 0x1f) as u8));
        proof {
            assert(out@ =~= t.subrange(0, 2));
        }
        push_char(&mut out, number_to_alphabet(((b >> 52) & 0x1f) as u8));
        proof {
            assert(out@ =~= t.subrange(0, 3));
        }
        push_char(&mut out, number_to_alphabet(((b >> 47) & 0x1f) as u8));
        proof {
            assert(out@ =~= t.subrange(0, 4));
        }
        push_char(&mut out, number_to_alphabet(((b >> 42) & 0x1f) as u8));
        proof {
            assert(out@ =~= t.subrange(0, 5));
        }
        push_char(&mut out, number_to_alphabet(((b >> 37) & 0x1f) as u8));
        proof {
            assert(out@ =~= t.subrange(0, 6));
        }
        let y = (((b >> 30) & 0x7f) as u8) % 100;
        proof {
            lemma_split_two(y as int);
        }
        push_char(&mut out, subst_or_plain(y / 10, (b >> 73) & 1 == 1));
        proof {
            assert(out@ =~= t.subrange(0, 7));
        }
        push_char(&mut out, subst_or_plain(y % 10, (b >> 72) & 1 == 1));
        proof {
            assert(out@ =~= t.subrange(0, 8));
        }
        push_char(&mut out, month_to_alphabet(((b >> 26) & 0xf) as u8));
        proof {
            assert(out@ =~= t.subrange(0, 9));
        }
        let day = ((b >> 21) & 0x1f) as u8;
        let male = (b >> 20) & 1 == 1;
        let v = if male {
            day
        } else {
            day + 40
        };
        proof {
            lemma_split_two(v as int);
        }
        push_char(&mut out, subst_or_plain(v / 10, (b >> 71) & 1 == 1));
        proof {
            assert(out@ =~= t.subrange(0, 10));
        }
        push_char(&mut out, subst_or_plain(v % 10, (b >> 70) & 1 == 1));
        proof {
            assert(out@ =~= t.subrange(0, 11));
        }
        push_char(&mut out, number_to_alphabet(((b >> 15) & 0x1f) as u8));
        proof {
            assert(out@ =~= t.subrange(0, 12));
        }
        let n = (((b >> 5) & 0x3ff) as u16) % 1000;
        proof {
            lemma_split_three(n as int);
        }
        push_char(&mut out, subst_or_plain((n / 100) as u8, (b >> 69) & 1 == 1));
        proof {
            assert(out@ =~= t.subrange(0, 13));
        }
        push_char(&mut out, subst_or_plain((n / 10 % 10) as u8, (b >> 68) & 1 == 1));
        proof {
            assert(out@ =~= t.subrange(0, 14));
        }
        push_char(&mut out, subst_or_plain((n % 10) as u8, (b >> 67) & 1 == 1));
        proof {
            assert(out@ =~= t.subrange(0, 15));
        }
        push_char(&mut out, number_to_alphabet((b & 0x1f) as u8));
        proof {
            assert(out@ =~= t.subrange(0, 16));
            assert(out@ =~= t);
        }
        out
    }

    /// The six name/surname letters as a string, leftmost letter first.
    pub fn get_name_surname_block(&self) -> (r: String)
        ensures
            r@ == name_chars(self@),
    {
        let b = self.bits;
        let mut out = String::new();
        push_char(&mut out, number_to_alphabet(((b >> 62) & 0x1f) as u8));
        push_char(&mut out, number_to_alphabet(((b >> 57) & 0x1f) as u8));
        push_char(&mut out, number_to_alphabet(((b >> 52) & 0x1f) as u8));
        push_char(&mut out, number_to_alphabet(((b >> 47) & 0x1f) as u8));
        push_char(&mut out, number_to_alphabet(((b >> 42) & 0x1f) as u8));
        push_char(&mut out, number_to_alphabet(((b >> 37) & 0x1f) as u8));
        proof {
            assert(out@ =~= name_chars(self@));
        }
        out
    }

    /// The two-digit year field.
    pub fn get_year(&self) -> (r: u8)
        ensures
            r == year_of(self@),
    {
        ((self.bits >> 30) & 0x7f) as u8
    }

    /// The month code, 1 through 12 for a well-formed record.
    pub fn get_month(&self) -> (r: u8)
        ensures
            r == month_of(self@),
    {
        ((self.bits >> 26) & 0xf) as u8
    }

    /// The day of birth, already normalized: the +40 female offset of the
    /// surface string is never stored.
    pub fn get_day(&self) -> (r: u8)
        ensures
            r == day_of(self@),
    {
        ((self.bits >> 21) & 0x1f) as u8
    }

    /// The gender marker: true is male, false is female.
    pub fn get_gender(&self) -> (r: bool)
        ensures
            r == gender_of(self@),
    {
        (self.bits >> 20) & 1 == 1
    }

    /// The municipality code: its letter followed by the number as three
    /// plain decimal digits.
    pub fn get_municipality(&self) -> (r: String)
        ensures
            r@ == muni_chars(self@),
    {
        let b = self.bits;
        let mut out = String::new();
        push_char(&mut out, number_to_alphabet(((b >> 15) & 0x1f) as u8));
        let n = (((b >> 5) & 0x3ff) as u16) % 1000;
        proof {
            lemma_split_three(n as int);
        }
        push_char(&mut out, digit_to_char((n / 100) as u8));
        push_char(&mut out, digit_to_char((n / 10 % 10) as u8));
        push_char(&mut out, digit_to_char((n % 10) as u8));
        proof {
            assert(out@ =~= muni_chars(self@));
        }
        out
    }

    /// The check letter as a one-character string.
    pub fn get_check_letter(&self) -> (r: String)
        ensures
            r@ == seq![letter_of_index(check_of(self@))],
    {
        let mut out = String::new();
        push_char(&mut out, number_to_alphabet((self.bits & 0x1f) as u8));
        proof {
            assert(out@ =~= seq![letter_of_index(check_of(self@))]);
        }
        out
    }
}

} // verus!
