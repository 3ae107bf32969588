use transfer_tokens::amounts::{pow10, scale_to_base_units};

#[test]
fn pow10_small_values() {
    assert_eq!(pow10(0), Some(1));
    assert_eq!(pow10(1), Some(10));
    assert_eq!(pow10(2), Some(100));
    assert_eq!(pow10(9), Some(1_000_000_000));
}

#[test]
fn pow10_largest_that_fits() {
    assert_eq!(pow10(19), Some(10_000_000_000_000_000_000));
}

#[test]
fn pow10_overflow() {
    assert_eq!(pow10(20), None);
    assert_eq!(pow10(255), None);
}

#[test]
fn scale_demo_amount() {
    // 100 whole tokens with two decimals is 10,000 base units.
    assert_eq!(scale_to_base_units(100, 2), Some(10_000));
}

#[test]
fn scale_zero_never_overflows() {
    assert_eq!(scale_to_base_units(0, 0), Some(0));
    assert_eq!(scale_to_base_units(0, 200), Some(0));
}

#[test]
fn scale_no_decimals_is_identity() {
    assert_eq!(scale_to_base_units(u64::MAX, 0), Some(u64::MAX));
    assert_eq!(scale_to_base_units(7, 0), Some(7));
}

#[test]
fn scale_at_the_boundary() {
    assert_eq!(scale_to_base_units(1, 19), Some(10_000_000_000_000_000_000));
    assert_eq!(scale_to_base_units(2, 19), None);
    assert_eq!(
        scale_to_base_units(1_844_674_407_370_955_161, 1),
        Some(18_446_744_073_709_551_610)
    );
    assert_eq!(scale_to_base_units(1_844_674_407_370_955_162, 1), None);
}

#[test]
fn scale_overflowing_power_with_positive_amount() {
    assert_eq!(scale_to_base_units(1, 20), None);
}
