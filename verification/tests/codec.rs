//! End-to-end tests of the fiscal-code codec: parsing, formatting,
//! accessors, omocodia handling and the rejection of malformed input.

use cfoxide::CF;

#[test]
fn parse_example_code() {
    let cf = CF::parse("RSSMRA80A01H501U").unwrap();
    assert_eq!(cf.get_name_surname_block(), "RSSMRA");
    assert_eq!(cf.get_year(), 80);
    assert_eq!(cf.get_month(), 1);
    assert_eq!(cf.get_day(), 1);
    assert!(cf.get_gender());
    assert_eq!(cf.get_municipality(), "H501");
    assert_eq!(cf.get_check_letter(), "U");
}

#[test]
fn format_reproduces_example_code() {
    let cf = CF::parse("RSSMRA80A01H501U").unwrap();
    assert_eq!(cf.format_code(), "RSSMRA80A01H501U");
}

#[test]
fn parse_example_bit_layout() {
    let cf = CF::parse("RSSMRA80A01H501U").unwrap();
    let u = cf.unpack();
    assert_eq!(u & 0x1f, 20); // check letter U
    assert_eq!((u >> 5) & 0x3ff, 501); // municipality number
    assert_eq!((u >> 15) & 0x1f, 7); // municipality letter H
    assert_eq!((u >> 20) & 1, 1); // male
    assert_eq!((u >> 21) & 0x1f, 1); // day
    assert_eq!((u >> 26) & 0xf, 1); // month
    assert_eq!((u >> 30) & 0x7f, 80); // year
    let name = (17u128 << 25) | (18 << 20) | (18 << 15) | (12 << 10) | (17 << 5);
    assert_eq!((u >> 37) & 0x3fffffff, name); // R,S,S,M,R,A
    assert_eq!(u >> 67, 0); // no omocodia, no padding
}

#[test]
fn parse_is_case_insensitive() {
    let cf = CF::parse("rssmra80a01h501u").unwrap();
    assert_eq!(cf.get_name_surname_block(), "RSSMRA");
    assert_eq!(cf.get_year(), 80);
    assert_eq!(cf.get_municipality(), "H501");
    assert_eq!(cf.format_code(), "RSSMRA80A01H501U");
}

#[test]
fn omocodia_day_decodes_and_reformats() {
    // Day rendered as "0M": M stands for the digit 1.
    let cf = CF::parse("RSSMRA80A0MH501U").unwrap();
    assert_eq!(cf.get_day(), 1);
    assert!(cf.get_gender());
    // Mask bit of position 10 is recorded.
    assert_eq!((cf.unpack() >> 67) & 0x7f, 8);
    // Re-formatting reproduces the substitution letter, not the digit.
    assert_eq!(cf.format_code(), "RSSMRA80A0MH501U");
}

#[test]
fn omocodia_year_decodes_and_reformats() {
    // Year rendered as "8L": L stands for the digit 0.
    let cf = CF::parse("RSSMRA8LA01H501U").unwrap();
    assert_eq!(cf.get_year(), 80);
    assert_eq!(cf.format_code(), "RSSMRA8LA01H501U");
}

#[test]
fn omocodia_municipality_decodes_and_reformats() {
    // Municipality number rendered as "5LM": 501 with two substitutions.
    let cf = CF::parse("RSSMRA80A01H5LMU").unwrap();
    assert_eq!(cf.get_municipality(), "H501");
    assert_eq!(cf.format_code(), "RSSMRA80A01H5LMU");
}

#[test]
fn parse_rejects_wrong_length() {
    assert!(CF::parse("").is_err());
    assert!(CF::parse("RSSMRA80A01H501").is_err());
    assert!(CF::parse("RSSMRA80A01H501UX").is_err());
}

#[test]
fn parse_rejects_non_alphanumeric() {
    assert!(CF::parse("RSSMRA80A01H50 U").is_err());
    assert!(CF::parse("RSSMRA80A01H50+U").is_err());
    assert!(CF::parse("RSSMRA80A01H50\u{e9}U").is_err());
}

#[test]
fn female_day_is_normalized() {
    let cf = CF::parse("RSSMRA80A41H501U").unwrap();
    assert_eq!(cf.get_day(), 1);
    assert!(!cf.get_gender());
    assert_eq!(cf.format_code(), "RSSMRA80A41H501U");
}

#[test]
fn female_day_upper_edge_round_trips() {
    let cf = CF::parse("RSSMRA80A71H501U").unwrap();
    assert_eq!(cf.get_day(), 31);
    assert!(!cf.get_gender());
    assert_eq!(cf.format_code(), "RSSMRA80A71H501U");
}

#[test]
fn oversized_day_is_reduced_to_field_width() {
    // 99 normalizes to a female day of 59, which exceeds the five-bit
    // day field and is reduced modulo 32.
    let cf = CF::parse("RSSMRA80A99H501U").unwrap();
    assert_eq!(cf.get_day(), 27);
    assert!(!cf.get_gender());
}

#[test]
fn digit_in_name_block_falls_back_to_a() {
    let cf = CF::parse("R5SMRA80A01H501U").unwrap();
    assert_eq!(cf.get_name_surname_block(), "RASMRA");
}

#[test]
fn unmappable_substitution_letter_yields_zero_group() {
    // Position 7 holds a letter outside the substitution alphabet, so
    // the whole year group silently parses as 0.
    let cf = CF::parse("RSSMRA8ZA01H501U").unwrap();
    assert_eq!(cf.get_year(), 0);
}

#[test]
fn new_and_unpack_round_trip() {
    let x: u128 = 0x9123_4567_89ab_cdef_0123;
    assert_eq!(CF::new(x).unpack(), x);
    // Only the low 80 bits are kept.
    assert_eq!(CF::new((1u128 << 80) + 5).unpack(), 5);
    assert_eq!(CF::empty().unpack(), 0);
}

#[test]
fn empty_record_accessors() {
    let cf = CF::empty();
    assert_eq!(cf.get_name_surname_block(), "AAAAAA");
    assert_eq!(cf.get_year(), 0);
    assert_eq!(cf.get_month(), 0);
    assert_eq!(cf.get_day(), 0);
    assert!(!cf.get_gender());
    assert_eq!(cf.get_municipality(), "A000");
    assert_eq!(cf.get_check_letter(), "A");
}

#[test]
fn out_of_range_letter_index_renders_fallback() {
    let cf = CF::new(31u128 << 62);
    assert_eq!(cf.get_name_surname_block(), "aAAAAA");
}

#[test]
fn format_of_constructed_record_round_trips() {
    let cf = CF::parse("RSSMRA80A01H501U").unwrap();
    let rebuilt = CF::new(cf.unpack());
    assert_eq!(rebuilt.format_code(), "RSSMRA80A01H501U");
    let reparsed = CF::parse(&rebuilt.format_code()).unwrap();
    assert_eq!(reparsed.unpack(), cf.unpack());
}
