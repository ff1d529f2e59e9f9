//! Bit layout of the packed record: 74 significant bits inside an 80-bit
//! value, lowest bit first.
//!
//! | field                      | bits  |
//! |----------------------------|-------|
//! | check letter index         | 0-4   |
//! | municipality number        | 5-14  |
//! | municipality letter index  | 15-19 |
//! | gender marker (1 = male)   | 20    |
//! | day                        | 21-25 |
//! | month                      | 26-29 |
//! | year (two digits)          | 30-36 |
//! | name/surname letter indices| 37-66 |
//! | omocodia mask              | 67-73 |
//! | padding (always 0)         | 74-79 |

use vstd::prelude::*;

verus! {

/// Check letter index, bits 0-4.
pub open spec fn check_of(b: u128) -> u8 {
    (b & 0x1f) as u8
}

/// Municipality number, bits 5-14.
pub open spec fn muni_num_of(b: u128) -> u16 {
    ((b >> 5) & 0x3ff) as u16
}

/// Municipality letter index, bits 15-19.
pub open spec fn muni_letter_of(b: u128) -> u8 {
    ((b >> 15) & 0x1f) as u8
}

/// Gender marker, bit 20: true is male, false is female.
pub open spec fn gender_of(b: u128) -> bool {
    (b >> 20) & 1 == 1
}

/// Day of birth, bits 21-25, stored without the +40 female offset.
pub open spec fn day_of(b: u128) -> u8 {
    ((b >> 21) & 0x1f) as u8
}

/// Month code, bits 26-29.
pub open spec fn month_of(b: u128) -> u8 {
    ((b >> 26) & 0xf) as u8
}

/// Two-digit year, bits 30-36.
pub open spec fn year_of(b: u128) -> u8 {
    ((b >> 30) & 0x7f) as u8
}

/// Name/surname letter indices, five bits each, leftmost letter in the
/// highest group (bits 62-66).
pub open spec fn name0_of(b: u128) -> u8 {
    ((b >> 62) & 0x1f) as u8
}

pub open spec fn name1_of(b: u128) -> u8 {
    ((b >> 57) & 0x1f) as u8
}

pub open spec fn name2_of(b: u128) -> u8 {
    ((b >> 52) & 0x1f) as u8
}

pub open spec fn name3_of(b: u128) -> u8 {
    ((b >> 47) & 0x1f) as u8
}

pub open spec fn name4_of(b: u128) -> u8 {
    ((b >> 42) & 0x1f) as u8
}

pub open spec fn name5_of(b: u128) -> u8 {
    ((b >> 37) & 0x1f) as u8
}

/// The whole omocodia mask, bits 67-73.
pub open spec fn mask_bits_of(b: u128) -> u8 {
    ((b >> 67) & 0x7f) as u8
}

/// Single mask bits, one per digit-eligible position of the code string in
/// left-to-right order: bit 73 belongs to position 6 and bit 67 to
/// position 14.
pub open spec fn year_hi_subst(b: u128) -> bool {
    (b >> 73) & 1 == 1
}

pub open spec fn year_lo_subst(b: u128) -> bool {
    (b >> 72) & 1 == 1
}

pub open spec fn day_hi_subst(b: u128) -> bool {
    (b >> 71) & 1 == 1
}

pub open spec fn day_lo_subst(b: u128) -> bool {
    (b >> 70) & 1 == 1
}

pub open spec fn muni_hi_subst(b: u128) -> bool {
    (b >> 69) & 1 == 1
}

pub open spec fn muni_mid_subst(b: u128) -> bool {
    (b >> 68) & 1 == 1
}

pub open spec fn muni_lo_subst(b: u128) -> bool {
    (b >> 67) & 1 == 1
}

/// Assembles the fields into the packed bit layout.
pub open spec fn pack(
    mask: u8,
    i0: u8,
    i1: u8,
    i2: u8,
    i3: u8,
    i4: u8,
    i5: u8,
    year: u8,
    month: u8,
    day: u8,
    male: bool,
    ml: u8,
    mn: u16,
    ck: u8,
) -> u128 {
    ((mask as u128) << 67) | ((i0 as u128) << 62) | ((i1 as u128) << 57) | ((i2 as u128) << 52)
        | ((i3 as u128) << 47) | ((i4 as u128) << 42) | ((i5 as u128) << 37) | ((year as u128)
        << 30) | ((month as u128) << 26) | ((day as u128) << 21) | (if male {
        0x100000u128
    } else {
        0u128
    }) | ((ml as u128) << 15) | ((mn as u128) << 5) | (ck as u128)
}

/// Every field of a packed value reads back as the value it was packed
/// from, the padding above bit 73 is zero, and the whole value is below
/// two to the 74th.
pub proof fn lemma_pack_extract(
    mask: u8,
    i0: u8,
    i1: u8,
    i2: u8,
    i3: u8,
    i4: u8,
    i5: u8,
    year: u8,
    month: u8,
    day: u8,
    male: bool,
    ml: u8,
    mn: u16,
    ck: u8,
)
    by (bit_vector)
    requires
        mask < 128,
        i0 < 32,
        i1 < 32,
        i2 < 32,
        i3 < 32,
        i4 < 32,
        i5 < 32,
        year < 128,
        month < 16,
        day < 32,
        ml < 32,
        mn < 1024,
        ck < 32,
    ensures
        ({
            let p = pack(mask, i0, i1, i2, i3, i4, i5, year, month, day, male, ml, mn, ck);
            &&& check_of(p) == ck
            &&& muni_num_of(p) == mn
            &&& muni_letter_of(p) == ml
            &&& gender_of(p) == male
            &&& day_of(p) == day
            &&& month_of(p) == month
            &&& year_of(p) == year
            &&& name0_of(p) == i0
            &&& name1_of(p) == i1
            &&& name2_of(p) == i2
            &&& name3_of(p) == i3
            &&& name4_of(p) == i4
            &&& name5_of(p) == i5
            &&& mask_bits_of(p) == mask
            &&& year_hi_subst(p) == ((mask >> 6) & 1 == 1)
            &&& year_lo_subst(p) == ((mask >> 5) & 1 == 1)
            &&& day_hi_subst(p) == ((mask >> 4) & 1 == 1)
            &&& day_lo_subst(p) == ((mask >> 3) & 1 == 1)
            &&& muni_hi_subst(p) == ((mask >> 2) & 1 == 1)
            &&& muni_mid_subst(p) == ((mask >> 1) & 1 == 1)
            &&& muni_lo_subst(p) == (mask & 1 == 1)
            &&& p < 0x4000000000000000000
            &&& p % 0x100000000000000000000 == p
        }),
{
}

/// The seven bits of a mask built as a weighted sum of 0-or-1 summands
/// select exactly those summands.
pub proof fn lemma_mask_bits(m: u8, a6: u8, a7: u8, a9: u8, a10: u8, a12: u8, a13: u8, a14: u8)
    by (bit_vector)
    requires
        a6 <= 1,
        a7 <= 1,
        a9 <= 1,
        a10 <= 1,
        a12 <= 1,
        a13 <= 1,
        a14 <= 1,
        m == a6 * 64 + a7 * 32 + a9 * 16 + a10 * 8 + a12 * 4 + a13 * 2 + a14,
    ensures
        ((m >> 6) & 1 == 1) == (a6 == 1),
        ((m >> 5) & 1 == 1) == (a7 == 1),
        ((m >> 4) & 1 == 1) == (a9 == 1),
        ((m >> 3) & 1 == 1) == (a10 == 1),
        ((m >> 2) & 1 == 1) == (a12 == 1),
        ((m >> 1) & 1 == 1) == (a13 == 1),
        (m & 1 == 1) == (a14 == 1),
        m < 128,
{
}

/// Every extracted field lies within its declared width.
pub proof fn lemma_extract_bounds(b: u128)
    by (bit_vector)
    ensures
        check_of(b) < 32,
        muni_num_of(b) < 1024,
        muni_letter_of(b) < 32,
        day_of(b) < 32,
        month_of(b) < 16,
        year_of(b) < 128,
        name0_of(b) < 32,
        name1_of(b) < 32,
        name2_of(b) < 32,
        name3_of(b) < 32,
        name4_of(b) < 32,
        name5_of(b) < 32,
        mask_bits_of(b) < 128,
{
}

/// The mask field is the weighted sum of its seven bits.
pub proof fn lemma_mask_recompose(b: u128)
    by (bit_vector)
    ensures
        mask_bits_of(b) == (if year_hi_subst(b) {
            64u8
        } else {
            0u8
        }) + (if year_lo_subst(b) {
            32u8
        } else {
            0u8
        }) + (if day_hi_subst(b) {
            16u8
        } else {
            0u8
        }) + (if day_lo_subst(b) {
            8u8
        } else {
            0u8
        }) + (if muni_hi_subst(b) {
            4u8
        } else {
            0u8
        }) + (if muni_mid_subst(b) {
            2u8
        } else {
            0u8
        }) + (if muni_lo_subst(b) {
            1u8
        } else {
            0u8
        }),
{
}

/// Re-packing the fields read out of a value reproduces its low 74 bits.
pub proof fn lemma_extract_pack(b: u128)
    by (bit_vector)
    ensures
        pack(
            mask_bits_of(b),
            name0_of(b),
            name1_of(b),
            name2_of(b),
            name3_of(b),
            name4_of(b),
            name5_of(b),
            year_of(b),
            month_of(b),
            day_of(b),
            gender_of(b),
            muni_letter_of(b),
            muni_num_of(b),
            check_of(b),
        ) == b % 0x4000000000000000000,
{
}

} // verus!
