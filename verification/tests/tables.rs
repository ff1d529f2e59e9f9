//! Tests of the character tables: the letter and month alphabets and the
//! omocodia substitution table.

use cfoxide::omocodia::omocodia;
use cfoxide::omocodia::omocodia_bitmask;
use cfoxide::omocodia::rev_omocodia;
use cfoxide::parsers::alphabet_to_month;
use cfoxide::parsers::alphabet_to_number;
use cfoxide::parsers::month_to_alphabet;
use cfoxide::parsers::number_to_alphabet;

#[test]
fn letter_table_round_trips() {
    assert_eq!(alphabet_to_number('A'), 0);
    assert_eq!(alphabet_to_number('Z'), 25);
    assert_eq!(alphabet_to_number('a'), 0);
    assert_eq!(alphabet_to_number('z'), 25);
    assert_eq!(number_to_alphabet(0), 'A');
    assert_eq!(number_to_alphabet(25), 'Z');
    for n in 0u8..26 {
        assert_eq!(alphabet_to_number(number_to_alphabet(n)), n);
    }
}

#[test]
fn letter_table_fallbacks() {
    // Non-alphabetic input silently yields index 0.
    assert_eq!(alphabet_to_number('5'), 0);
    assert_eq!(alphabet_to_number(' '), 0);
    // Indices above 25 yield the fallback letter.
    assert_eq!(number_to_alphabet(26), 'a');
    assert_eq!(number_to_alphabet(255), 'a');
}

#[test]
fn month_table_is_the_fixed_sequence() {
    let letters = ['A', 'B', 'C', 'D', 'E', 'H', 'L', 'M', 'P', 'R', 'S', 'T'];
    for (i, &c) in letters.iter().enumerate() {
        let n = (i + 1) as u8;
        assert_eq!(month_to_alphabet(n), c);
        assert_eq!(alphabet_to_month(c), n);
        assert_eq!(alphabet_to_month(c.to_ascii_lowercase()), n);
    }
}

#[test]
fn month_table_round_trips() {
    for n in 1u8..=12 {
        assert_eq!(alphabet_to_month(month_to_alphabet(n)), n);
    }
}

#[test]
fn month_table_sentinels() {
    assert_eq!(alphabet_to_month('F'), 0);
    assert_eq!(alphabet_to_month('Z'), 0);
    assert_eq!(alphabet_to_month('0'), 0);
    assert_eq!(month_to_alphabet(0), '\0');
    assert_eq!(month_to_alphabet(13), '\0');
}

#[test]
fn omocodia_table_round_trips() {
    let pairs = [
        ('0', 'L'),
        ('1', 'M'),
        ('2', 'N'),
        ('3', 'P'),
        ('4', 'Q'),
        ('5', 'R'),
        ('6', 'S'),
        ('7', 'T'),
        ('8', 'U'),
        ('9', 'V'),
    ];
    for &(d, l) in pairs.iter() {
        assert_eq!(omocodia(d), l);
        assert_eq!(rev_omocodia(l), d);
    }
}

#[test]
fn omocodia_table_sentinels() {
    assert_eq!(omocodia('A'), '\0');
    assert_eq!(omocodia('x'), '\0');
    assert_eq!(rev_omocodia('A'), '\0');
    assert_eq!(rev_omocodia('l'), '\0');
    assert_eq!(rev_omocodia('0'), '\0');
}

#[test]
fn bitmask_flags_substituted_positions() {
    assert_eq!(omocodia_bitmask("RSSMRA80A01H501U"), 0);
    // Letters at positions 7, 10 and 13 set bits 5, 3 and 1.
    assert_eq!(omocodia_bitmask("RSSMRA8LA0MH5L1U"), 42);
    // All seven eligible positions substituted.
    assert_eq!(omocodia_bitmask("RSSMRAULALMHRLMU"), 127);
}

#[test]
fn bitmask_ignores_non_eligible_positions() {
    let a = omocodia_bitmask("RSSMRA8LA0MH5L1U");
    let b = omocodia_bitmask("AAAAAA8LA0MH5L1A");
    assert_eq!(a, b);
}
