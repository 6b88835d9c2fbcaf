use image_filter::ratio_math::calc_max_image_size_by_ratio;
use image_filter::ratio_math::max_common_divisor;
use image_filter::Ratio;
use image_filter::Resolution;

#[test]
fn gcd_of_full_hd_sides() {
    assert_eq!(max_common_divisor(1920, 1080), 120);
}

#[test]
fn gcd_of_coprime_pair_is_one() {
    assert_eq!(max_common_divisor(16, 9), 1);
    assert_eq!(max_common_divisor(7, 13), 1);
}

#[test]
fn gcd_of_non_coprime_pairs() {
    assert_eq!(max_common_divisor(12, 8), 4);
    assert_eq!(max_common_divisor(840, 360), 120);
}

#[test]
fn gcd_of_equal_values_is_the_value() {
    assert_eq!(max_common_divisor(5, 5), 5);
}

#[test]
fn gcd_with_one_is_one() {
    assert_eq!(max_common_divisor(1, 999), 1);
    assert_eq!(max_common_divisor(999, 1), 1);
}

#[test]
fn gcd_divides_both_arguments() {
    for (a, b) in [(1920u32, 1080u32), (44, 99), (17, 51), (100, 75)] {
        let g = max_common_divisor(a, b);
        assert!(g >= 1);
        assert_eq!(a % g, 0);
        assert_eq!(b % g, 0);
        // no larger common divisor
        for d in (g + 1)..=a.min(b) {
            assert!(!(a % d == 0 && b % d == 0));
        }
    }
}

#[test]
fn crop_size_for_wide_source() {
    // unit = min(1000 / 16, 500 / 9) = min(62, 55) = 55 -> 880 x 495
    let r = calc_max_image_size_by_ratio(Resolution::from((1000, 500)), Ratio::from((16, 9)));
    assert_eq!(r, Resolution::from((880, 495)));
}

#[test]
fn crop_size_of_exact_ratio_source_is_the_source() {
    let r = calc_max_image_size_by_ratio(Resolution::from((1920, 1080)), Ratio::from((16, 9)));
    assert_eq!(r, Resolution::from((1920, 1080)));
}

#[test]
fn crop_size_fits_and_keeps_ratio() {
    let cases = [
        ((1000u32, 500u32), (16u8, 9u8)),
        ((333, 777), (4, 3)),
        ((50, 50), (3, 2)),
        ((4096, 2160), (21, 9)),
    ];
    for ((w, h), (rw, rh)) in cases {
        let r = calc_max_image_size_by_ratio(Resolution::from((w, h)), Ratio::from((rw, rh)));
        assert!(r.width <= w && r.height <= h);
        assert_eq!(u64::from(r.width) * u64::from(rh), u64::from(r.height) * u64::from(rw));
        // maximal: one more ratio unit overflows some axis
        let unit = r.width / u32::from(rw);
        assert!((unit + 1) * u32::from(rw) > w || (unit + 1) * u32::from(rh) > h);
    }
}

#[test]
fn crop_size_of_too_small_source_is_zero_area() {
    // fewer than one ratio unit on an axis: zero-area result
    let r = calc_max_image_size_by_ratio(Resolution::from((10, 5)), Ratio::from((16, 9)));
    assert_eq!(r, Resolution::from((0, 0)));
}

#[test]
fn gcd_at_the_top_of_the_range() {
    assert_eq!(max_common_divisor(u32::MAX, u32::MAX), u32::MAX);
    assert_eq!(max_common_divisor(1, 1), 1);
}

#[test]
fn crop_size_at_the_top_of_the_range() {
    let r = calc_max_image_size_by_ratio(
        Resolution::from((u32::MAX, u32::MAX)),
        Ratio::from((1, 1)),
    );
    assert_eq!(r, Resolution::from((u32::MAX, u32::MAX)));
}

#[test]
fn resolution_and_ratio_from_pairs() {
    let r = Resolution::from((123, 456));
    assert_eq!(r.width, 123);
    assert_eq!(r.height, 456);
    let t = Ratio::from((21, 9));
    assert_eq!(t.width, 21);
    assert_eq!(t.height, 9);
}

#[test]
fn crop_size_square_ratio() {
    let r = calc_max_image_size_by_ratio(Resolution::from((100, 60)), Ratio::from((1, 1)));
    assert_eq!(r, Resolution::from((60, 60)));
}
