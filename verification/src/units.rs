//! Conversions from the public units (brightness 0..=255, colour temperature in
//! Kelvin) to the ranges the vendor service accepts.
use vstd::prelude::*;

verus! {

/// Highest colour temperature, in Kelvin, that is passed on unchanged.
pub const KELVIN_MAX: u32 = 6500;

/// Colour temperature, in Kelvin, that maps to the low end of the vendor scale.
pub const KELVIN_MIN: u32 = 2700;

/// Brightness as a percentage: `value / 255 * 100`, rounded to the nearest integer.
pub open spec fn vendor_percent(value: int) -> int {
    (200 * value + 255) / 510
}

/// `p` is an integer nearest to `value * 100 / 255`.
pub open spec fn nearest_percent(value: int, p: int) -> bool {
    -255 <= 2 * (255 * p - 100 * value) <= 255
}

/// Kelvin clamped from above only.
pub open spec fn clamp_kelvin(kelvin: int) -> int {
    if kelvin > 6500 {
        6500
    } else {
        kelvin
    }
}

/// Quotient of `n` by a positive `d`, rounded towards zero.
pub open spec fn truncated_quotient(n: int, d: int) -> int {
    if n >= 0 {
        n / d
    } else {
        -((-n) / d)
    }
}

/// Vendor temperature units: `1000 + (k - 2700) / 3800 * 9000` for the clamped
/// Kelvin value `k`, with the fractional part dropped.
pub open spec fn vendor_units(kelvin: int) -> int {
    truncated_quotient(1000 * 3800 + (clamp_kelvin(kelvin) - 2700) * 9000, 3800)
}

/// Maps a brightness in 0..=255 to a percentage in 0..=100.
pub fn to_vendor_percent(value: u8) -> (p: u8)
    ensures
        p == vendor_percent(value as int),
        nearest_percent(value as int, p as int),
        p <= 100,
{
    let wide: u32 = value as u32;
    let p: u32 = (200 * wide + 255) / 510;
    p as u8
}

/// Maps a colour temperature in Kelvin to vendor units. Values above 6500 K count
/// as 6500 K; values below 2700 K are not clamped and give less than 1000, a
/// negative number below 2278 K.
pub fn to_vendor_units(kelvin: u32) -> (units: i64)
    ensures
        units == vendor_units(kelvin as int),
        units <= 10000,
        kelvin >= 2700 ==> units >= 1000,
{
    let clamped: i64 = if kelvin > KELVIN_MAX {
        6500
    } else {
        kelvin as i64
    };
    let numerator: i64 = 1000 * 3800 + (clamped - 2700) * 9000;
    if numerator >= 0 {
        numerator / 3800
    } else {
        -((-numerator) / 3800)
    }
}

/// The brightness percentage is 0 for 0, 100 for 255, and lies in 0..=100 for
/// every brightness in 0..=255.
pub proof fn lemma_vendor_percent_range(value: int)
    requires
        0 <= value <= 255,
    ensures
        0 <= vendor_percent(value) <= 100,
        vendor_percent(0) == 0,
        vendor_percent(255) == 100,
{
}

/// A brighter input never gives a smaller percentage.
pub proof fn lemma_vendor_percent_monotonic(a: int, b: int)
    requires
        0 <= a <= b <= 255,
    ensures
        vendor_percent(a) <= vendor_percent(b),
{
}

/// 2700 K maps to 1000 units and 6500 K to 10000 units.
pub proof fn lemma_vendor_units_endpoints()
    ensures
        vendor_units(2700) == 1000,
        vendor_units(6500) == 10000,
{
}

/// Every temperature above 6500 K maps to what 6500 K maps to.
pub proof fn lemma_vendor_units_clamped(excess: int)
    requires
        excess >= 0,
    ensures
        vendor_units(6500 + excess) == vendor_units(6500),
{
}

/// Over 2700 K ..= 6500 K a higher temperature never gives fewer units, and the
/// units stay within 1000..=10000.
pub proof fn lemma_vendor_units_monotonic(a: int, b: int)
    requires
        2700 <= a <= b <= 6500,
    ensures
        1000 <= vendor_units(a) <= vendor_units(b) <= 10000,
{
}

} // verus!
