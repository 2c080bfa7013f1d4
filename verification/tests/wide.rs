use map_to_range::wide::interpolate_wide;

#[test]
fn wide_maps_exactly() {
    assert_eq!(Some(15_i128), interpolate_wide(5, (0, 10), (10, 20)));
    assert_eq!(Some(127_i128), interpolate_wide(512, (0, 1024), (0, 255)));
    assert_eq!(Some(5_i128), interpolate_wide(15, (10, 20), (0, 10)));
    assert_eq!(Some(-40_i128), interpolate_wide(30, (10, 50), (-20, -60)));
}

#[test]
fn wide_rejects_what_has_no_image() {
    assert_eq!(None, interpolate_wide(5, (10, 20), (20, 30)));
    assert_eq!(None, interpolate_wide(21, (10, 20), (20, 30)));
    assert_eq!(None, interpolate_wide(10, (10, 10), (20, 30)));
    assert_eq!(None, interpolate_wide(15, (20, 10), (20, 30)));
}

#[test]
fn wide_cuts_the_fraction_of_the_sum() {
    assert_eq!(Some(2_i128), interpolate_wide(1, (0, 4), (0, 10)));
    assert_eq!(Some(-7_i128), interpolate_wide(1, (0, 4), (-10, 0)));
    assert_eq!(Some(7_i128), interpolate_wide(1, (0, 4), (10, 0)));
    assert_eq!(Some(-2_i128), interpolate_wide(1, (0, 4), (0, -10)));
    assert_eq!(Some(0_i128), interpolate_wide(1, (0, 4), (-3, 7)));
    assert_eq!(Some(0_i128), interpolate_wide(1, (0, 4), (3, -7)));
    assert_eq!(Some(-2_i128), interpolate_wide(1, (0, 4), (-3, 0)));
    assert_eq!(Some(2_i128), interpolate_wide(1, (0, 4), (3, 0)));
    assert_eq!(Some(0_i128), interpolate_wide(3, (0, 4), (-3, 0)));
    assert_eq!(Some(0_i128), interpolate_wide(3, (0, 4), (3, 0)));
}

#[test]
fn wide_holds_the_largest_product() {
    let max: i128 = u64::MAX as i128;
    // (2^64 - 1) * (2^64 - 1) / (2^64 - 1)
    assert_eq!(Some(max), interpolate_wide(max, (0, max), (0, max)));
    assert_eq!(Some(max - 1), interpolate_wide(max - 1, (0, max), (0, max)));
    assert_eq!(Some(1_i128), interpolate_wide(max - 1, (0, max), (max, 0)));
    // The same width, placed across zero.
    let low: i128 = i64::MIN as i128;
    let high: i128 = i64::MAX as i128;
    assert_eq!(Some(high), interpolate_wide(high, (low, high), (low, high)));
    assert_eq!(Some(low), interpolate_wide(high, (low, high), (high, low)));
    assert_eq!(Some(-1_i128), interpolate_wide(-1, (low, high), (low, high)));
    assert_eq!(Some(0_i128), interpolate_wide(-1, (low, high), (high, low)));
}
