use nani_switch::text::{decimal, group_thousands, signed_decimal};

#[test]
fn numbers_are_grouped_by_thousands() {
    assert_eq!(group_thousands(0), "0");
    assert_eq!(group_thousands(999), "999");
    assert_eq!(group_thousands(1000), "1,000");
    assert_eq!(group_thousands(60750), "60,750");
    assert_eq!(group_thousands(1234567), "1,234,567");
    assert_eq!(group_thousands(1000001), "1,000,001");
    assert_eq!(group_thousands(u64::MAX), "18,446,744,073,709,551,615");
}

#[test]
fn grouping_keeps_the_digits() {
    for n in [0u64, 7, 12, 999, 1000, 10500, 123456789, u64::MAX] {
        assert_eq!(group_thousands(n).replace(',', ""), n.to_string());
    }
}

#[test]
fn decimals_match_to_string() {
    for n in [0u128, 9, 10, 42, 100, u64::MAX as u128, u128::MAX] {
        assert_eq!(decimal(n), n.to_string());
    }
    for n in [0i64, -1, 15, -300, i64::MAX, i64::MIN] {
        assert_eq!(signed_decimal(n), n.to_string());
    }
}
