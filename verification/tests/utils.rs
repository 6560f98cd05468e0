use bridge_program::utils::check_amount;

#[test]
fn check_amount_test() {
    let mut check = check_amount(2u64 * 10u64.pow(16u32), 18u8);

    assert_eq!(check, false);

    check = check_amount(2u64 * 10u64.pow(18u32), 18u8);

    assert_eq!(check, true);

    check = check_amount(2111111111111111111u64, 18u8);

    assert_eq!(check, false);
}

#[test]
fn check_amount_without_decimals_admits_every_amount() {
    assert!(check_amount(0, 0));
    assert!(check_amount(1, 0));
    assert!(check_amount(u64::MAX, 0));
}

#[test]
fn check_amount_six_decimals() {
    assert!(check_amount(500_000000, 6));
    assert!(check_amount(1_000000, 6));
    assert!(!check_amount(1_000001, 6));
    assert!(!check_amount(999_999, 6));
    assert!(check_amount(0, 6));
}

#[test]
fn check_amount_largest_unit_that_fits() {
    // ten to the nineteenth is the largest power of ten below 2^64
    let unit = 10u64.pow(19);
    assert!(check_amount(unit, 19));
    assert!(!check_amount(unit + 1, 19));
    assert!(!check_amount(u64::MAX, 19));
    assert!(check_amount(0, 19));
}

#[test]
fn check_amount_unit_beyond_every_amount() {
    // a unit of ten to the twentieth or more divides zero and nothing else
    assert!(check_amount(0, 20));
    assert!(!check_amount(1, 20));
    assert!(!check_amount(10u64.pow(19), 20));
    assert!(!check_amount(u64::MAX, 20));
    assert!(check_amount(0, 255));
    assert!(!check_amount(u64::MAX, 255));
}
