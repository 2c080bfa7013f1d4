use map_to_range::MapRange;

#[test]
fn test_linear_interpolation_unsigned() {
    assert_eq!(Some(15), 5_u8.map_range((0, 10), (10, 20)));
    assert_eq!(Some(15), 5_u16.map_range((0, 10), (10, 20)));
    assert_eq!(Some(15), 5_u32.map_range((0, 10), (10, 20)));
    assert_eq!(Some(15), 5_u64.map_range((0, 10), (10, 20)));
    assert_eq!(Some(127), 512_usize.map_range((0, 1024), (0, 255)));
}

#[test]
fn test_linear_interpolation_signed() {
    assert_eq!(Some(15), 5_i8.map_range((0, 10), (10, 20)));
    assert_eq!(Some(15), 5_i16.map_range((0, 10), (10, 20)));
    assert_eq!(Some(15), 5_i32.map_range((0, 10), (10, 20)));
    assert_eq!(Some(15), 5_i64.map_range((0, 10), (10, 20)));
    assert_eq!(Some(5), 15_i64.map_range((10, 20), (0, 10)));
    assert_eq!(Some(127), 512_isize.map_range((0, 1024), (0, 255)));
}

#[test]
fn value_outside_the_source_range_is_rejected() {
    assert_eq!(None, 5_u8.map_range((10, 20), (20, 30)));
    assert_eq!(None, 21_u8.map_range((10, 20), (20, 30)));
    assert_eq!(None, 5_u8.map_range_uncasted((10, 20), (20, 30)));
    assert_eq!(None, 21_u8.map_range_uncasted((10, 20), (20, 30)));
    assert_eq!(None, (-1_i32).map_range((0, 10), (0, 100)));
    assert_eq!(None, 11_i32.map_range_uncasted((0, 10), (0, 100)));
}

#[test]
fn uncasted_maps_small_ranges() {
    assert_eq!(Some(15), 5_u8.map_range_uncasted((0, 10), (10, 20)));
    assert_eq!(Some(15), 5_i16.map_range_uncasted((0, 10), (10, 20)));
    assert_eq!(Some(5), 15_i64.map_range_uncasted((10, 20), (0, 10)));
    assert_eq!(Some(127), 512_usize.map_range_uncasted((0, 1024), (0, 255)));
    assert_eq!(Some(127), 512_isize.map_range_uncasted((0, 1024), (0, 255)));
}

#[test]
fn zero_width_source_has_no_image() {
    assert_eq!(None, 7_u8.map_range((7, 7), (0, 100)));
    assert_eq!(None, 7_u8.map_range_uncasted((7, 7), (0, 100)));
    assert_eq!(None, 0_i64.map_range((0, 0), (0, 0)));
    assert_eq!(None, 0_i64.map_range_uncasted((0, 0), (0, 0)));
    assert_eq!(None, u64::MAX.map_range((u64::MAX, u64::MAX), (0, 1)));
}

#[test]
fn inverted_source_contains_nothing() {
    assert_eq!(None, 15_u8.map_range((20, 10), (0, 100)));
    assert_eq!(None, 10_u8.map_range((20, 10), (0, 100)));
    assert_eq!(None, 20_u8.map_range((20, 10), (0, 100)));
    assert_eq!(None, 15_i16.map_range_uncasted((20, 10), (0, 100)));
}

#[test]
fn inverted_target_runs_downward() {
    assert_eq!(Some(75), 25_u8.map_range((0, 100), (100, 0)));
    assert_eq!(Some(100), 0_u8.map_range((0, 100), (100, 0)));
    assert_eq!(Some(0), 100_u8.map_range((0, 100), (100, 0)));
    assert_eq!(Some(7), 1_u8.map_range((0, 4), (10, 0)));
    // -50 - 12.5
    assert_eq!(Some(-62), 25_i8.map_range((0, 100), (-50, -100)));
    // An unsigned type cannot hold the negative span of a falling target.
    assert_eq!(None, 25_u8.map_range_uncasted((0, 100), (100, 0)));
    assert_eq!(Some(75), 25_i16.map_range_uncasted((0, 100), (100, 0)));
}

#[test]
fn fractions_are_cut_off_toward_zero() {
    // 10 * 1 / 4 = 2.5
    assert_eq!(Some(2), 1_i8.map_range((0, 4), (0, 10)));
    // -10 + 2.5 = -7.5
    assert_eq!(Some(-7), 1_i8.map_range((0, 4), (-10, 0)));
    // 10 - 2.5 = 7.5
    assert_eq!(Some(7), 1_i8.map_range((0, 4), (10, 0)));
    // -2.5
    assert_eq!(Some(-2), 1_i8.map_range((0, 4), (0, -10)));
    // 1 - 2.5 = -1.5
    assert_eq!(Some(-1), 1_i8.map_range((0, 4), (1, -9)));
    // -1 + 2.5 = 1.5
    assert_eq!(Some(1), 1_i8.map_range((0, 4), (-1, 9)));
    // -3 + 2.5 = -0.5
    assert_eq!(Some(0), 1_i8.map_range((0, 4), (-3, 7)));
    // 3 - 2.5 = 0.5
    assert_eq!(Some(0), 1_i8.map_range((0, 4), (3, -7)));
}

#[test]
fn uncasted_rounds_the_quotient_before_adding() {
    // -10 + trunc(2.5) = -8, where the exact image -7.5 is cut to -7.
    assert_eq!(Some(-8), 1_i8.map_range_uncasted((0, 4), (-10, 0)));
    assert_eq!(Some(-7), 1_i8.map_range((0, 4), (-10, 0)));
    // 10 + trunc(-2.5) = 8, where the exact image 7.5 is cut to 7.
    assert_eq!(Some(8), 1_i8.map_range_uncasted((0, 4), (10, 0)));
    assert_eq!(Some(7), 1_i8.map_range((0, 4), (10, 0)));
    // With nothing to round the two agree.
    assert_eq!(Some(-5), 2_i8.map_range_uncasted((0, 4), (-10, 0)));
    assert_eq!(Some(-5), 2_i8.map_range((0, 4), (-10, 0)));
}

#[test]
fn overflowing_product_is_contained() {
    // 200 * 255 does not fit a u8.
    assert_eq!(None, 200_u8.map_range_uncasted((0, 255), (0, 255)));
    assert_eq!(Some(200), 200_u8.map_range((0, 255), (0, 255)));
    // 100 * 100 does not fit an i8.
    assert_eq!(None, 100_i8.map_range_uncasted((0, 127), (0, 100)));
    assert_eq!(Some(78), 100_i8.map_range((0, 127), (0, 100)));
    // 16 * 16 = 256 is one past u8::MAX; 15 * 17 = 255 still fits.
    assert_eq!(None, 16_u8.map_range_uncasted((0, 16), (0, 16)));
    assert_eq!(Some(15), 15_u8.map_range_uncasted((0, 17), (0, 17)));
    assert_eq!(None, u64::MAX.map_range_uncasted((0, u64::MAX), (0, 2)));
    assert_eq!(Some(2), u64::MAX.map_range((0, u64::MAX), (0, 2)));
    assert_eq!(None, 65_536_u32.map_range_uncasted((0, 65_536), (0, 65_536)));
    assert_eq!(Some(65_536), 65_536_u32.map_range((0, 65_536), (0, 65_536)));
}

#[test]
fn overflowing_difference_is_contained() {
    // 100 - (-100) does not fit an i8.
    assert_eq!(None, 100_i8.map_range_uncasted((-100, 100), (0, 10)));
    assert_eq!(Some(10), 100_i8.map_range((-100, 100), (0, 10)));
    // The target span 127 - (-128) does not fit an i8.
    assert_eq!(None, 1_i8.map_range_uncasted((0, 2), (i8::MIN, i8::MAX)));
    assert_eq!(Some(0), 1_i8.map_range((0, 2), (i8::MIN, i8::MAX)));
    // The source width does not fit an i64.
    assert_eq!(None, 0_i64.map_range_uncasted((i64::MIN, i64::MAX), (0, 0)));
    assert_eq!(Some(0), 0_i64.map_range((i64::MIN, i64::MAX), (0, 0)));
}
