use foc_ctrl::binary32::is_at_least;
use foc_ctrl::binary32::is_less;
use foc_ctrl::binary32::to_whole;
use foc_ctrl::binary32::FIFTY;
use foc_ctrl::binary32::INFINITY;
use foc_ctrl::binary32::ONE;
use foc_ctrl::binary32::SIGN;
use foc_ctrl::binary32::TEN;
use foc_ctrl::binary32::THOUSAND;
use foc_ctrl::binary32::TWO_THOUSAND;

fn samples() -> Vec<u32> {
    let mut all: Vec<u32> = vec![
        0,
        1,
        SIGN,
        SIGN + 1,
        ONE,
        ONE - 1,
        ONE + 1,
        TEN,
        TEN - 1,
        TEN + 1,
        FIFTY,
        THOUSAND,
        TWO_THOUSAND,
        TWO_THOUSAND - 1,
        INFINITY,
        INFINITY - 1,
        INFINITY + 1,
        INFINITY | SIGN,
        (INFINITY | SIGN) + 1,
        0x7FC0_0000,
        0xFFC0_0000,
        u32::MAX,
        0x007F_FFFF,
        0x0080_0000,
        0x4B00_0000,
        0x4B7F_FFFF,
        0x4B80_0000,
        0x5F00_0000,
        0x5F7F_FFFF,
        0x5F80_0000,
        0x5EFF_FFFF,
    ];
    let mut word: u32 = 12345;
    for _ in 0..400 {
        word = word.wrapping_mul(1664525).wrapping_add(1013904223);
        all.push(word);
        all.push(word % 0x0C00_0000 + 0x3C00_0000);
    }
    all
}

#[test]
fn constants_are_the_patterns_of_their_numbers() {
    assert_eq!(ONE, 1.0f32.to_bits());
    assert_eq!(TEN, 10.0f32.to_bits());
    assert_eq!(FIFTY, 50.0f32.to_bits());
    assert_eq!(THOUSAND, 1000.0f32.to_bits());
    assert_eq!(TWO_THOUSAND, 2000.0f32.to_bits());
    assert_eq!(INFINITY, f32::INFINITY.to_bits());
    assert_eq!(SIGN, (-0.0f32).to_bits());
}

#[test]
fn is_less_orders_patterns_as_numbers() {
    let all = samples();
    for a in all.iter().step_by(7) {
        for b in all.iter() {
            assert_eq!(is_less(*a, *b), f32::from_bits(*a) < f32::from_bits(*b), "{:#x} {:#x}", a, b);
        }
    }
    assert!(is_less(1.0f32.to_bits(), 1.5f32.to_bits()));
    assert!(is_less((-1.5f32).to_bits(), (-1.0f32).to_bits()));
    assert!(!is_less((-0.0f32).to_bits(), 0.0f32.to_bits()));
    assert!(!is_less(f32::NAN.to_bits(), 1.0f32.to_bits()));
    assert!(!is_less(1.0f32.to_bits(), f32::NAN.to_bits()));
}

#[test]
fn is_at_least_orders_patterns_as_numbers() {
    let all = samples();
    for a in all.iter() {
        for b in all.iter().step_by(5) {
            assert_eq!(is_at_least(*a, *b), f32::from_bits(*a) >= f32::from_bits(*b), "{:#x} {:#x}", a, b);
        }
    }
    assert!(is_at_least(0.0f32.to_bits(), (-0.0f32).to_bits()));
    assert!(is_at_least(f32::INFINITY.to_bits(), ONE));
    assert!(!is_at_least(f32::NAN.to_bits(), ONE));
    assert!(!is_at_least(0.999f32.to_bits(), ONE));
}

#[test]
fn to_whole_cuts_off_the_fraction() {
    assert_eq!(to_whole(10.5f32.to_bits()), 10);
    assert_eq!(to_whole(1999.9f32.to_bits()), 1999);
    assert_eq!(to_whole(1.0f32.to_bits()), 1);
    assert_eq!(to_whole(0.99f32.to_bits()), 0);
    assert_eq!(to_whole(16777216.0f32.to_bits()), 16777216);
    assert_eq!(to_whole(33554432.0f32.to_bits()), 33554432);
    assert_eq!(to_whole(1e-40f32.to_bits()), 0);
    assert_eq!(to_whole(0), 0);
}

#[test]
fn to_whole_keeps_within_range() {
    assert_eq!(to_whole((-1.0f32).to_bits()), 0);
    assert_eq!(to_whole((-1e30f32).to_bits()), 0);
    assert_eq!(to_whole(f32::NAN.to_bits()), 0);
    assert_eq!(to_whole(f32::NEG_INFINITY.to_bits()), 0);
    assert_eq!(to_whole(f32::INFINITY.to_bits()), u64::MAX);
    assert_eq!(to_whole(f32::MAX.to_bits()), u64::MAX);
    assert_eq!(to_whole(1.8446744e19f32.to_bits()), u64::MAX);
    assert_eq!(to_whole(0x5F7F_FFFF), 0xFFFF_FF00_0000_0000);
}

#[test]
fn to_whole_agrees_with_the_conversion_of_the_language() {
    for bits in samples() {
        assert_eq!(to_whole(bits), f32::from_bits(bits) as u64, "{:#x}", bits);
    }
}
