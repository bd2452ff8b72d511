//! IEEE-754 binary32 numbers, read from their bit patterns.
//!
//! A pattern is a sign bit, eight bits of biased exponent and 23 bits of
//! fraction, from the most significant bit down. The functions here say
//! how two patterns compare as numbers and what whole number a pattern
//! converts to, in integer arithmetic alone.

use vstd::prelude::*;

verus! {

/// The pattern of the number one.
pub const ONE: u32 = 0x3F80_0000;

/// The pattern of the number ten.
pub const TEN: u32 = 0x4120_0000;

/// The pattern of the number fifty.
pub const FIFTY: u32 = 0x4248_0000;

/// The pattern of the number one thousand.
pub const THOUSAND: u32 = 0x447A_0000;

/// The pattern of the number two thousand.
pub const TWO_THOUSAND: u32 = 0x44FA_0000;

/// The pattern of positive infinity: every pattern whose lower 31 bits
/// lie above it is not a number.
pub const INFINITY: u32 = 0x7F80_0000;

/// The sign bit.
pub const SIGN: u32 = 0x8000_0000;

/// Whether `bits` is not a number.
pub open spec fn is_nan(bits: u32) -> bool {
    bits % SIGN > INFINITY
}

/// Where `bits` stands among the numbers: patterns that are numbers
/// compare as their ranks do. Both zeros have rank 0.
pub open spec fn rank(bits: u32) -> int {
    if bits >= SIGN {
        -(bits % SIGN)
    } else {
        bits as int
    }
}

/// Whether `a` is a smaller number than `b`. Nothing compares with what
/// is not a number.
pub open spec fn less(a: u32, b: u32) -> bool {
    !is_nan(a) && !is_nan(b) && rank(a) < rank(b)
}

/// Whether `a` is a number no smaller than `b`.
pub open spec fn at_least(a: u32, b: u32) -> bool {
    !is_nan(a) && !is_nan(b) && rank(a) >= rank(b)
}

/// The biased exponent of `bits`.
pub open spec fn exponent(bits: u32) -> u32 {
    (bits / 0x80_0000 % 256) as u32
}

/// The significand of a normal number: the fraction under its hidden bit.
pub open spec fn significand(bits: u32) -> u64 {
    (0x80_0000 + bits % 0x80_0000) as u64
}

/// The whole number that `bits` converts to: its value with the
/// fractional part cut off, 0 for what is negative or not a number, and
/// the largest `u64` for what lies beyond it.
pub open spec fn whole(bits: u32) -> u64 {
    if bits >= SIGN || is_nan(bits) || exponent(bits) < 127 {
        0
    } else if exponent(bits) >= 191 {
        u64::MAX
    } else if exponent(bits) <= 150 {
        significand(bits) >> ((150 - exponent(bits)) as u64)
    } else {
        significand(bits) << ((exponent(bits) - 150) as u64)
    }
}

fn nan(bits: u32) -> (b: bool)
    ensures
        b == is_nan(bits),
{
    bits % SIGN > INFINITY
}

fn rank_of(bits: u32) -> (r: i64)
    ensures
        r == rank(bits),
{
    if bits >= SIGN {
        let magnitude: i64 = (bits % SIGN) as i64;
        -magnitude
    } else {
        bits as i64
    }
}

/// Compares two patterns as numbers: `a < b`.
pub fn is_less(a: u32, b: u32) -> (r: bool)
    ensures
        r == less(a, b),
{
    !nan(a) && !nan(b) && rank_of(a) < rank_of(b)
}

/// Compares two patterns as numbers: `a >= b`.
pub fn is_at_least(a: u32, b: u32) -> (r: bool)
    ensures
        r == at_least(a, b),
{
    !nan(a) && !nan(b) && rank_of(a) >= rank_of(b)
}

/// Converts a pattern to a whole number, cutting off the fractional part
/// and keeping within `u64`.
pub fn to_whole(bits: u32) -> (n: u64)
    ensures
        n == whole(bits),
{
    let e: u32 = bits / 0x80_0000 % 256;
    if bits >= SIGN || nan(bits) || e < 127 {
        0
    } else if e >= 191 {
        u64::MAX
    } else {
        let sig: u64 = (0x80_0000 + bits % 0x80_0000) as u64;
        if e <= 150 {
            sig >> ((150 - e) as u64)
        } else {
            sig << ((e - 150) as u64)
        }
    }
}

/// A number strictly between ten and two thousand converts to a whole
/// number from 10 to 1999.
pub proof fn lemma_whole_between_ten_and_two_thousand(bits: u32)
    requires
        less(TEN, bits),
        less(bits, TWO_THOUSAND),
    ensures
        10 <= whole(bits) <= 1999,
{
    let e = exponent(bits);
    let f: u32 = bits % 0x80_0000;
    assert(TEN < bits < TWO_THOUSAND);
    assert(130 <= e <= 137);
    assert(bits == e * 0x80_0000 + f);
    let sig = significand(bits);
    let k: u64 = (150 - e) as u64;
    assert(sig == 0x80_0000 + f);
    assert(e == 130 ==> f > 0x20_0000);
    assert(e == 137 ==> f < 0x7A_0000);
    assert(13 <= k <= 20 && 0x80_0000 <= sig < 0x100_0000 && (k == 20 ==> sig > 0xA0_0000) && (k
        == 13 ==> sig < 0xFA_0000) ==> 10 <= sig >> k <= 1999) by (bit_vector);
}

/// A number strictly between fifty and one thousand converts to a whole
/// number from 50 to 999.
pub proof fn lemma_whole_between_fifty_and_thousand(bits: u32)
    requires
        less(FIFTY, bits),
        less(bits, THOUSAND),
    ensures
        50 <= whole(bits) <= 999,
{
    let e = exponent(bits);
    let f: u32 = bits % 0x80_0000;
    assert(FIFTY < bits < THOUSAND);
    assert(132 <= e <= 136);
    assert(bits == e * 0x80_0000 + f);
    let sig = significand(bits);
    let k: u64 = (150 - e) as u64;
    assert(sig == 0x80_0000 + f);
    assert(e == 132 ==> f > 0x48_0000);
    assert(e == 136 ==> f < 0x7A_0000);
    assert(14 <= k <= 18 && 0x80_0000 <= sig < 0x100_0000 && (k == 18 ==> sig > 0xC8_0000) && (k
        == 14 ==> sig < 0xFA_0000) ==> 50 <= sig >> k <= 999) by (bit_vector);
}

} // verus!
