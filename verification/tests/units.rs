use lights_tuya::units::{to_vendor_percent, to_vendor_units};

#[test]
fn brightness_endpoints() {
    assert_eq!(to_vendor_percent(0), 0);
    assert_eq!(to_vendor_percent(255), 100);
}

#[test]
fn brightness_is_rounded_to_nearest() {
    assert_eq!(to_vendor_percent(128), 50);
    assert_eq!(to_vendor_percent(1), 0);
    assert_eq!(to_vendor_percent(2), 1);
    assert_eq!(to_vendor_percent(127), 50);
    assert_eq!(to_vendor_percent(129), 51);
    assert_eq!(to_vendor_percent(254), 100);
    assert_eq!(to_vendor_percent(252), 99);
}

#[test]
fn brightness_stays_in_range_and_never_decreases() {
    let mut previous = 0u8;
    for value in 0..=255u8 {
        let percent = to_vendor_percent(value);
        assert!(percent <= 100);
        assert!(percent >= previous);
        previous = percent;
    }
}

#[test]
fn temperature_endpoints() {
    assert_eq!(to_vendor_units(2700), 1000);
    assert_eq!(to_vendor_units(6500), 10000);
}

#[test]
fn temperature_is_clamped_from_above() {
    assert_eq!(to_vendor_units(6501), 10000);
    assert_eq!(to_vendor_units(9000), 10000);
    assert_eq!(to_vendor_units(u32::MAX), 10000);
}

#[test]
fn temperature_is_truncated() {
    assert_eq!(to_vendor_units(4600), 5500);
    assert_eq!(to_vendor_units(3000), 1710);
    assert_eq!(to_vendor_units(2701), 1002);
    assert_eq!(to_vendor_units(6499), 9997);
}

#[test]
fn temperature_below_range_is_not_clamped() {
    assert_eq!(to_vendor_units(2500), 526);
    assert_eq!(to_vendor_units(2000), -657);
    assert_eq!(to_vendor_units(0), -5394);
}

#[test]
fn temperature_never_decreases_in_range() {
    let mut previous = 1000i64;
    for kelvin in 2700..=6500u32 {
        let units = to_vendor_units(kelvin);
        assert!(units >= previous);
        assert!(units <= 10000);
        previous = units;
    }
}
