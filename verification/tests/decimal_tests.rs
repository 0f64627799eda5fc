use tls_probe::decimal::u64_to_dec;

#[test]
fn renders_zero() {
    assert_eq!(u64_to_dec(0), "0");
}

#[test]
fn renders_one_digit() {
    assert_eq!(u64_to_dec(7), "7");
}

#[test]
fn renders_two_digits() {
    assert_eq!(u64_to_dec(10), "10");
}

#[test]
fn renders_inner_zero() {
    assert_eq!(u64_to_dec(103), "103");
}

#[test]
fn renders_the_configured_maximum() {
    assert_eq!(u64_to_dec(10000), "10000");
}

#[test]
fn renders_the_largest_value() {
    assert_eq!(u64_to_dec(u64::MAX), "18446744073709551615");
}
