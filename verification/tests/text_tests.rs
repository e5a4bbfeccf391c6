use futureyou::{i32_to_decimal, u64_to_decimal};

#[test]
fn decimal_of_zero_and_large() {
    assert_eq!(u64_to_decimal(0), "0");
    assert_eq!(u64_to_decimal(123456), "123456");
    assert_eq!(u64_to_decimal(u64::MAX), u64::MAX.to_string());
}

#[test]
fn signed_decimal_matches_display() {
    for n in [0i32, 4, -1, -45, i32::MIN, i32::MAX, 1000] {
        assert_eq!(i32_to_decimal(n), n.to_string());
    }
}
