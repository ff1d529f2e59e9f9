//! Mathematical model of the codec: what parsing reads out of a
//! 16-character code string and what formatting renders from a packed
//! record, stated over sequences of characters.
//!
//! The positions of a code string are: 0-5 name/surname letters, 6-7 year
//! digits, 8 month letter, 9-10 day digits, 11 municipality letter, 12-14
//! municipality number digits, 15 check letter. Each digit position may
//! instead carry an omocodia substitution letter.

use vstd::prelude::*;
use crate::layout::check_of;
use crate::layout::day_hi_subst;
use crate::layout::day_lo_subst;
use crate::layout::day_of;
use crate::layout::gender_of;
use crate::layout::mask_bits_of;
use crate::layout::month_of;
use crate::layout::muni_hi_subst;
use crate::layout::muni_letter_of;
use crate::layout::muni_lo_subst;
use crate::layout::muni_mid_subst;
use crate::layout::muni_num_of;
use crate::layout::name0_of;
use crate::layout::name1_of;
use crate::layout::name2_of;
use crate::layout::name3_of;
use crate::layout::name4_of;
use crate::layout::name5_of;
use crate::layout::pack;
use crate::layout::year_hi_subst;
use crate::layout::year_lo_subst;
use crate::layout::year_of;
use crate::layout::lemma_extract_bounds;
use crate::layout::lemma_extract_pack;
use crate::layout::lemma_mask_recompose;
use crate::layout::lemma_mask_bits;
use crate::layout::lemma_pack_extract;
use crate::omocodia::alpha_bit;
use crate::omocodia::is_subst_letter;
use crate::omocodia::lemma_subst_forward;
use crate::omocodia::lemma_subst_round_trip;
use crate::omocodia::mask_of;
use crate::omocodia::subst_digit;
use crate::omocodia::subst_letter;
use crate::parsers::digit_char;
use crate::parsers::digit_val;
use crate::parsers::is_ascii_alphanumeric;
use crate::parsers::is_ascii_digit;
use crate::parsers::is_ascii_letter;
use crate::parsers::is_ascii_uppercase;
use crate::parsers::is_month_letter;
use crate::parsers::lemma_digit_round_trip;
use crate::parsers::lemma_digit_val_round_trip;
use crate::parsers::lemma_index_round_trip;
use crate::parsers::lemma_letter_round_trip;
use crate::parsers::lemma_month_letter_round_trip;
use crate::parsers::lemma_month_round_trip;
use crate::parsers::letter_index;
use crate::parsers::letter_of_index;
use crate::parsers::month_code;
use crate::parsers::month_letter;

verus! {

/// A parseable code: exactly 16 characters, all ASCII letters or digits.
pub open spec fn valid_code(s: Seq<char>) -> bool {
    s.len() == 16 && (forall|i: int| 0 <= i < 16 ==> is_ascii_alphanumeric(#[trigger] s[i]))
}

/// What parsing makes of one character of a digit position: a letter is
/// reverse-substituted, a digit is kept.
pub open spec fn decode_char(c: char) -> char {
    if is_ascii_letter(c) {
        subst_digit(c)
    } else {
        c
    }
}

/// Two-digit decimal value of a digit-position pair; if either character
/// decodes to something other than a digit, the whole group silently
/// yields 0.
pub open spec fn pair_val(c1: char, c0: char) -> u8 {
    if is_ascii_digit(decode_char(c1)) && is_ascii_digit(decode_char(c0)) {
        (digit_val(decode_char(c1)) * 10 + digit_val(decode_char(c0))) as u8
    } else {
        0
    }
}

/// Three-digit decimal value of a digit-position triple; any unmappable
/// character silently yields 0 for the whole group.
pub open spec fn triple_val(c2: char, c1: char, c0: char) -> u16 {
    if is_ascii_digit(decode_char(c2)) && is_ascii_digit(decode_char(c1)) && is_ascii_digit(
        decode_char(c0),
    ) {
        (digit_val(decode_char(c2)) * 100 + digit_val(decode_char(c1)) * 10 + digit_val(
            decode_char(c0),
        )) as u16
    } else {
        0
    }
}

/// Splits a raw two-digit day-and-gender value: 40 and above means a
/// female birth day offset by 40, below means a male birth day as is.
/// The boolean is the gender marker, true for male.
pub open spec fn split_day_gender(v: u8) -> (u8, bool) {
    if v > 39 {
        ((v - 40) as u8, false)
    } else {
        (v, true)
    }
}

/// Rebuilds the raw two-digit value from a stored day and gender marker.
pub open spec fn join_day_gender(day: u8, male: bool) -> u8 {
    if male {
        day
    } else {
        (day + 40) as u8
    }
}

/// Year read from positions 6 and 7.
pub open spec fn year_src(s: Seq<char>) -> u8 {
    pair_val(s[6], s[7])
}

/// Month code read from position 8.
pub open spec fn month_src(s: Seq<char>) -> u8 {
    month_code(s[8])
}

/// Raw day-and-gender value read from positions 9 and 10.
pub open spec fn dayg_src(s: Seq<char>) -> u8 {
    pair_val(s[9], s[10])
}

/// Day stored in the record: the normalized day reduced to the five-bit
/// day field.
pub open spec fn day_field_src(s: Seq<char>) -> u8 {
    (split_day_gender(dayg_src(s)).0 % 32) as u8
}

/// Gender marker read from the day value, true for male.
pub open spec fn gender_src(s: Seq<char>) -> bool {
    split_day_gender(dayg_src(s)).1
}

/// Municipality letter index read from position 11.
pub open spec fn muni_letter_src(s: Seq<char>) -> u8 {
    letter_index(s[11])
}

/// Municipality number read from positions 12 to 14.
pub open spec fn muni_num_src(s: Seq<char>) -> u16 {
    triple_val(s[12], s[13], s[14])
}

/// Check letter index read from position 15.
pub open spec fn check_src(s: Seq<char>) -> u8 {
    letter_index(s[15])
}

/// The packed record that parsing a valid code produces.
pub open spec fn parsed_bits(s: Seq<char>) -> u128 {
    pack(
        mask_of(s),
        letter_index(s[0]),
        letter_index(s[1]),
        letter_index(s[2]),
        letter_index(s[3]),
        letter_index(s[4]),
        letter_index(s[5]),
        year_src(s),
        month_src(s),
        day_field_src(s),
        gender_src(s),
        muni_letter_src(s),
        muni_num_src(s),
        check_src(s),
    )
}

/// One rendered character of a digit position: the digit itself, or its
/// substitution letter where the omocodia mask asks for one.
pub open spec fn fdig(d: int, sub: bool) -> char {
    if sub {
        subst_letter(digit_char(d))
    } else {
        digit_char(d)
    }
}

/// The 16 characters that formatting a record produces. The year and the
/// municipality number are reduced to their two- and three-digit decimal
/// ranges; a month outside 1..12 renders as the null sentinel and a letter
/// index above 25 as the fallback letter, surfacing a corrupt field
/// without failing.
pub open spec fn formatted(b: u128) -> Seq<char> {
    let y = (year_of(b) as int) % 100;
    let v = join_day_gender(day_of(b), gender_of(b)) as int;
    let n = (muni_num_of(b) as int) % 1000;
    seq![
        letter_of_index(name0_of(b)),
        letter_of_index(name1_of(b)),
        letter_of_index(name2_of(b)),
        letter_of_index(name3_of(b)),
        letter_of_index(name4_of(b)),
        letter_of_index(name5_of(b)),
        fdig(y / 10, year_hi_subst(b)),
        fdig(y % 10, year_lo_subst(b)),
        month_letter(month_of(b)),
        fdig(v / 10, day_hi_subst(b)),
        fdig(v % 10, day_lo_subst(b)),
        letter_of_index(muni_letter_of(b)),
        fdig(n / 100, muni_hi_subst(b)),
        fdig(n / 10 % 10, muni_mid_subst(b)),
        fdig(n % 10, muni_lo_subst(b)),
        letter_of_index(check_of(b)),
    ]
}

/// The six name/surname letters of a record, leftmost first.
pub open spec fn name_chars(b: u128) -> Seq<char> {
    seq![
        letter_of_index(name0_of(b)),
        letter_of_index(name1_of(b)),
        letter_of_index(name2_of(b)),
        letter_of_index(name3_of(b)),
        letter_of_index(name4_of(b)),
        letter_of_index(name5_of(b)),
    ]
}

/// The municipality code of a record: its letter followed by its number
/// as three plain decimal digits, never substitution letters.
pub open spec fn muni_chars(b: u128) -> Seq<char> {
    let n = (muni_num_of(b) as int) % 1000;
    seq![
        letter_of_index(muni_letter_of(b)),
        digit_char(n / 100),
        digit_char(n / 10 % 10),
        digit_char(n % 10),
    ]
}

/// True when a digit position carries what it may legally carry: a digit
/// or a substitution letter.
pub open spec fn digit_or_subst(c: char) -> bool {
    is_ascii_digit(c) || is_subst_letter(c)
}

/// A code whose every position uses the alphabet of its field, and whose
/// day value fits the five-bit day field once normalized. Such codes are
/// reproduced exactly by formatting their parsed record.
pub open spec fn canonical_code(s: Seq<char>) -> bool {
    &&& s.len() == 16
    &&& is_ascii_uppercase(s[0])
    &&& is_ascii_uppercase(s[1])
    &&& is_ascii_uppercase(s[2])
    &&& is_ascii_uppercase(s[3])
    &&& is_ascii_uppercase(s[4])
    &&& is_ascii_uppercase(s[5])
    &&& digit_or_subst(s[6])
    &&& digit_or_subst(s[7])
    &&& is_month_letter(s[8])
    &&& digit_or_subst(s[9])
    &&& digit_or_subst(s[10])
    &&& is_ascii_uppercase(s[11])
    &&& digit_or_subst(s[12])
    &&& digit_or_subst(s[13])
    &&& digit_or_subst(s[14])
    &&& is_ascii_uppercase(s[15])
    &&& (dayg_src(s) <= 31 || (40 <= dayg_src(s) <= 71))
}

/// A record whose fields lie in their semantic ranges: letter indices at
/// most 25, month 1..12, year at most 99 and municipality number at most
/// 999. Formatting such a record yields a valid code that parses back to
/// the record's significant bits.
pub open spec fn wf_record(b: u128) -> bool {
    &&& name0_of(b) <= 25
    &&& name1_of(b) <= 25
    &&& name2_of(b) <= 25
    &&& name3_of(b) <= 25
    &&& name4_of(b) <= 25
    &&& name5_of(b) <= 25
    &&& muni_letter_of(b) <= 25
    &&& check_of(b) <= 25
    &&& 1 <= month_of(b) <= 12
    &&& year_of(b) <= 99
    &&& muni_num_of(b) <= 999
}

/// Splitting a raw day-and-gender value at most 99 and joining the parts
/// gives the value back: days up to 39 are male days as given, 40 and
/// above are female days offset by 40.
pub proof fn lemma_day_gender_round_trip(v: u8)
    requires
        v <= 99,
    ensures
        split_day_gender(v).1 <==> v <= 39,
        v <= 39 ==> split_day_gender(v).0 == v,
        v > 39 ==> split_day_gender(v).0 == v - 40,
        join_day_gender(split_day_gender(v).0, split_day_gender(v).1) == v,
{
}

pub(crate) proof fn lemma_split_two(v: int)
    by (nonlinear_arith)
    requires
        0 <= v <= 99,
    ensures
        0 <= v / 10 <= 9,
        0 <= v % 10 <= 9,
        (v / 10) * 10 + v % 10 == v,
{
}

pub(crate) proof fn lemma_split_three(v: int)
    by (nonlinear_arith)
    requires
        0 <= v <= 999,
    ensures
        0 <= v / 100 <= 9,
        0 <= v / 10 % 10 <= 9,
        0 <= v % 10 <= 9,
        (v / 100) * 100 + (v / 10 % 10) * 10 + v % 10 == v,
{
}

proof fn lemma_two_digits(a: int, b: int)
    by (nonlinear_arith)
    requires
        0 <= a <= 9,
        0 <= b <= 9,
    ensures
        (a * 10 + b) / 10 == a,
        (a * 10 + b) % 10 == b,
{
}

proof fn lemma_three_digits(a: int, b: int, c: int)
    by (nonlinear_arith)
    requires
        0 <= a <= 9,
        0 <= b <= 9,
        0 <= c <= 9,
    ensures
        (a * 100 + b * 10 + c) / 100 == a,
        (a * 100 + b * 10 + c) / 10 % 10 == b,
        (a * 100 + b * 10 + c) % 10 == c,
{
}

/// A digit position of a canonical code decodes to a digit, and rendering
/// that digit back under the same substitution flag reproduces the very
/// character the code held.
proof fn lemma_digit_position_round_trip(c: char)
    requires
        digit_or_subst(c),
    ensures
        is_ascii_digit(decode_char(c)),
        0 <= digit_val(decode_char(c)) <= 9,
        fdig(digit_val(decode_char(c)), is_ascii_letter(c)) == c,
        is_ascii_alphanumeric(c),
        is_subst_letter(c) ==> is_ascii_letter(c),
        is_ascii_digit(c) ==> !is_ascii_letter(c),
{
    if is_ascii_letter(c) {
        assert(is_subst_letter(c));
        lemma_subst_round_trip(c);
        lemma_digit_round_trip(subst_digit(c));
    } else {
        assert(is_ascii_digit(c));
        lemma_digit_round_trip(c);
    }
}

/// Round-trip law: a canonical code is a valid code, and formatting the
/// record parsed out of it reproduces the code exactly.
#[verifier::rlimit(100)]
#[verifier::spinoff_prover]
pub proof fn lemma_parse_format_round_trip(s: Seq<char>)
    requires
        canonical_code(s),
    ensures
        valid_code(s),
        formatted(parsed_bits(s)) == s,
{
    lemma_letter_round_trip(s[0]);
    lemma_letter_round_trip(s[1]);
    lemma_letter_round_trip(s[2]);
    lemma_letter_round_trip(s[3]);
    lemma_letter_round_trip(s[4]);
    lemma_letter_round_trip(s[5]);
    lemma_letter_round_trip(s[11]);
    lemma_letter_round_trip(s[15]);
    lemma_month_letter_round_trip(s[8]);
    lemma_digit_position_round_trip(s[6]);
    lemma_digit_position_round_trip(s[7]);
    lemma_digit_position_round_trip(s[9]);
    lemma_digit_position_round_trip(s[10]);
    lemma_digit_position_round_trip(s[12]);
    lemma_digit_position_round_trip(s[13]);
    lemma_digit_position_round_trip(s[14]);
    assert forall|i: int| 0 <= i < 16 implies is_ascii_alphanumeric(#[trigger] s[i]) by {
        assert(i == 0 || i == 1 || i == 2 || i == 3 || i == 4 || i == 5 || i == 6 || i == 7 || i
            == 8 || i == 9 || i == 10 || i == 11 || i == 12 || i == 13 || i == 14 || i == 15);
    }
    let m = mask_of(s);
    lemma_mask_bits(
        m,
        alpha_bit(s[6]),
        alpha_bit(s[7]),
        alpha_bit(s[9]),
        alpha_bit(s[10]),
        alpha_bit(s[12]),
        alpha_bit(s[13]),
        alpha_bit(s[14]),
    );
    let d6 = digit_val(decode_char(s[6]));
    let d7 = digit_val(decode_char(s[7]));
    let d9 = digit_val(decode_char(s[9]));
    let d10 = digit_val(decode_char(s[10]));
    let d12 = digit_val(decode_char(s[12]));
    let d13 = digit_val(decode_char(s[13]));
    let d14 = digit_val(decode_char(s[14]));
    let y = year_src(s);
    assert(y == d6 * 10 + d7 && y <= 99);
    lemma_two_digits(d6, d7);
    let v = dayg_src(s);
    assert(v == d9 * 10 + d10 && v <= 99);
    lemma_two_digits(d9, d10);
    let day = split_day_gender(v).0;
    let male = split_day_gender(v).1;
    assert(day <= 31);
    assert(day_field_src(s) == day);
    assert(join_day_gender(day, male) == v);
    let mn = muni_num_src(s);
    assert(mn == d12 * 100 + d13 * 10 + d14 && mn <= 999);
    lemma_three_digits(d12, d13, d14);
    lemma_pack_extract(
        m,
        letter_index(s[0]),
        letter_index(s[1]),
        letter_index(s[2]),
        letter_index(s[3]),
        letter_index(s[4]),
        letter_index(s[5]),
        y,
        month_src(s),
        day_field_src(s),
        male,
        muni_letter_src(s),
        mn,
        check_src(s),
    );
    let b = parsed_bits(s);
    assert(formatted(b)[0] == s[0]);
    assert(formatted(b)[1] == s[1]);
    assert(formatted(b)[2] == s[2]);
    assert(formatted(b)[3] == s[3]);
    assert(formatted(b)[4] == s[4]);
    assert(formatted(b)[5] == s[5]);
    assert(formatted(b)[6] == s[6]);
    assert(formatted(b)[7] == s[7]);
    assert(formatted(b)[8] == s[8]);
    assert(formatted(b)[9] == s[9]);
    assert(formatted(b)[10] == s[10]);
    assert(formatted(b)[11] == s[11]);
    assert(formatted(b)[12] == s[12]);
    assert(formatted(b)[13] == s[13]);
    assert(formatted(b)[14] == s[14]);
    assert(formatted(b)[15] == s[15]);
    assert(formatted(b) =~= s);
}

/// Every field of a parsed record reads back as the value parsing took
/// from the code string, and the padding above bit 73 is zero.
pub proof fn lemma_parsed_fields(s: Seq<char>)
    ensures
        check_of(parsed_bits(s)) == check_src(s),
        muni_num_of(parsed_bits(s)) == muni_num_src(s),
        muni_letter_of(parsed_bits(s)) == muni_letter_src(s),
        gender_of(parsed_bits(s)) == gender_src(s),
        day_of(parsed_bits(s)) == day_field_src(s),
        month_of(parsed_bits(s)) == month_src(s),
        year_of(parsed_bits(s)) == year_src(s),
        name0_of(parsed_bits(s)) == letter_index(s[0]),
        name1_of(parsed_bits(s)) == letter_index(s[1]),
        name2_of(parsed_bits(s)) == letter_index(s[2]),
        name3_of(parsed_bits(s)) == letter_index(s[3]),
        name4_of(parsed_bits(s)) == letter_index(s[4]),
        name5_of(parsed_bits(s)) == letter_index(s[5]),
        mask_bits_of(parsed_bits(s)) == mask_of(s),
        parsed_bits(s) < 0x4000000000000000000,
{
    lemma_pack_extract(
        mask_of(s),
        letter_index(s[0]),
        letter_index(s[1]),
        letter_index(s[2]),
        letter_index(s[3]),
        letter_index(s[4]),
        letter_index(s[5]),
        year_src(s),
        month_src(s),
        day_field_src(s),
        gender_src(s),
        muni_letter_src(s),
        muni_num_src(s),
        check_src(s),
    );
}

/// A rendered digit position carries a digit or a substitution letter; it
/// is a letter exactly when the substitution flag was set, and it decodes
/// back to the digit it was rendered from.
proof fn lemma_fdig_decode(d: int, sub: bool)
    requires
        0 <= d <= 9,
    ensures
        digit_or_subst(fdig(d, sub)),
        is_ascii_letter(fdig(d, sub)) == sub,
        is_ascii_digit(decode_char(fdig(d, sub))),
        digit_val(decode_char(fdig(d, sub))) == d,
{
    lemma_digit_val_round_trip(d);
    if sub {
        lemma_subst_forward(digit_char(d));
    }
}

/// Reverse round-trip law: formatting a record whose fields lie in their
/// semantic ranges yields a canonical (hence valid) code; parsing that
/// code back recovers the record's 74 significant bits, and formatting
/// the re-parsed record renders the same code again.
#[verifier::rlimit(100)]
#[verifier::spinoff_prover]
pub proof fn lemma_format_parse_round_trip(b: u128)
    requires
        wf_record(b),
    ensures
        canonical_code(formatted(b)),
        valid_code(formatted(b)),
        parsed_bits(formatted(b)) == b % 0x4000000000000000000,
        formatted(parsed_bits(formatted(b))) == formatted(b),
{
    lemma_extract_bounds(b);
    let f = formatted(b);
    let y = year_of(b) as int;
    let v = join_day_gender(day_of(b), gender_of(b)) as int;
    let n = muni_num_of(b) as int;
    assert(y % 100 == y && n % 1000 == n);
    lemma_split_two(y);
    lemma_split_two(v);
    lemma_split_three(n);
    lemma_index_round_trip(name0_of(b));
    lemma_index_round_trip(name1_of(b));
    lemma_index_round_trip(name2_of(b));
    lemma_index_round_trip(name3_of(b));
    lemma_index_round_trip(name4_of(b));
    lemma_index_round_trip(name5_of(b));
    lemma_index_round_trip(muni_letter_of(b));
    lemma_index_round_trip(check_of(b));
    lemma_month_round_trip(month_of(b));
    lemma_fdig_decode(y / 10, year_hi_subst(b));
    lemma_fdig_decode(y % 10, year_lo_subst(b));
    lemma_fdig_decode(v / 10, day_hi_subst(b));
    lemma_fdig_decode(v % 10, day_lo_subst(b));
    lemma_fdig_decode(n / 100, muni_hi_subst(b));
    lemma_fdig_decode(n / 10 % 10, muni_mid_subst(b));
    lemma_fdig_decode(n % 10, muni_lo_subst(b));
    lemma_two_digits(y / 10, y % 10);
    lemma_two_digits(v / 10, v % 10);
    lemma_three_digits(n / 100, n / 10 % 10, n % 10);
    assert(year_src(f) == y);
    assert(dayg_src(f) == v);
    assert(muni_num_src(f) == n);
    assert(split_day_gender(dayg_src(f)).0 == day_of(b));
    assert(split_day_gender(dayg_src(f)).1 == gender_of(b));
    assert(day_field_src(f) == day_of(b));
    lemma_mask_recompose(b);
    assert(mask_of(f) == mask_bits_of(b));
    assert(canonical_code(f));
    lemma_extract_pack(b);
    assert(parsed_bits(f) == b % 0x4000000000000000000);
    lemma_parse_format_round_trip(f);
}

} // verus!
