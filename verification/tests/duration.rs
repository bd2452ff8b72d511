use foc_ctrl::ctrl::format_seconds;
use foc_ctrl::decimal::push_decimal;

#[test]
fn push_decimal_appends_the_digits() {
    let mut text = String::from("n=");
    push_decimal(&mut text, 0);
    assert_eq!(text, "n=0");
    push_decimal(&mut text, 7);
    push_decimal(&mut text, 10);
    push_decimal(&mut text, 1234567890);
    assert_eq!(text, "n=07101234567890");
    let mut big = String::new();
    push_decimal(&mut big, u64::MAX);
    assert_eq!(big, "18446744073709551615");
}

#[test]
fn push_decimal_agrees_with_std_formatting() {
    let mut n: u64 = 1;
    for _ in 0..500 {
        n = n.wrapping_mul(6364136223846793005).wrapping_add(1442695040888963407);
        for shift in [0u32, 13, 31, 47, 60] {
            let mut text = String::new();
            push_decimal(&mut text, n >> shift);
            assert_eq!(text, format!("{}", n >> shift));
        }
    }
}

#[test]
fn format_seconds_leaves_out_leading_zero_units() {
    assert_eq!(format_seconds(0), "0s");
    assert_eq!(format_seconds(1), "1s");
    assert_eq!(format_seconds(59), "59s");
    assert_eq!(format_seconds(60), "1m0s");
    assert_eq!(format_seconds(61), "1m1s");
    assert_eq!(format_seconds(3599), "59m59s");
}

#[test]
fn format_seconds_leaves_out_inner_zero_units() {
    assert_eq!(format_seconds(3600), "1h0s");
    assert_eq!(format_seconds(3601), "1h1s");
    assert_eq!(format_seconds(3660), "1h1m0s");
    assert_eq!(format_seconds(86399), "23h59m59s");
    assert_eq!(format_seconds(86400), "1d0s");
    assert_eq!(format_seconds(86460), "1d1m0s");
    assert_eq!(format_seconds(90000), "1d1h0s");
}

#[test]
fn format_seconds_writes_all_four_units() {
    assert_eq!(format_seconds(93784), "1d2h3m4s");
    assert_eq!(format_seconds(10 * 86400 + 11 * 3600 + 12 * 60 + 13), "10d11h12m13s");
    assert_eq!(format_seconds(u64::MAX), "213503982334601d7h15s");
}
