use image_filter::filter::evaluate;
use image_filter::filter::get_filter_option;
use image_filter::filter::ratio_options;
use image_filter::filter::resolution_options;
use image_filter::filter::Decision;
use image_filter::filter::FilterOption;
use image_filter::filter::RatioFilterOption;
use image_filter::filter::ResolutionFilterOption;
use image_filter::Ratio;
use image_filter::Resolution;

fn config(
    resolution: Option<(ResolutionFilterOption, Resolution)>,
    ratio: Option<(RatioFilterOption, Ratio)>,
) -> FilterOption {
    get_filter_option(resolution, ratio)
}

#[test]
fn no_rules_accepts_as_is() {
    let c = config(None, None);
    let d = evaluate(Resolution::from((640, 480)), &c);
    assert_eq!(d, Decision::AcceptAsIs);
}

#[test]
fn at_least_own_resolution_accepts() {
    let dims = Resolution::from((1234, 567));
    let c = config(Some((ResolutionFilterOption::AtLeast, dims)), None);
    assert_eq!(evaluate(dims, &c), Decision::AcceptAsIs);
}

#[test]
fn at_least_rejects_smaller_image() {
    let c = config(
        Some((ResolutionFilterOption::AtLeast, Resolution::from((1280, 720)))),
        None,
    );
    assert_eq!(evaluate(Resolution::from((1279, 720)), &c), Decision::Reject);
    assert_eq!(evaluate(Resolution::from((1280, 719)), &c), Decision::Reject);
    assert_eq!(
        evaluate(Resolution::from((1920, 1080)), &c),
        Decision::AcceptAsIs
    );
}

#[test]
fn exactly_rejects_one_pixel_mismatch() {
    let wanted = Resolution::from((1920, 1080));
    let c = config(Some((ResolutionFilterOption::Exactly, wanted)), None);
    assert_eq!(evaluate(Resolution::from((1920, 1081)), &c), Decision::Reject);
    assert_eq!(evaluate(Resolution::from((1921, 1080)), &c), Decision::Reject);
    assert_eq!(evaluate(Resolution::from((1919, 1080)), &c), Decision::Reject);
    assert_eq!(evaluate(wanted, &c), Decision::AcceptAsIs);
}

#[test]
fn filter_only_accepts_matching_ratio() {
    let c = config(None, Some((RatioFilterOption::FilterOnly, Ratio::from((16, 9)))));
    assert_eq!(evaluate(Resolution::from((1920, 1080)), &c), Decision::AcceptAsIs);
    assert_eq!(evaluate(Resolution::from((16, 9)), &c), Decision::AcceptAsIs);
}

#[test]
fn filter_only_fails_hard_on_mismatch() {
    let c = config(None, Some((RatioFilterOption::FilterOnly, Ratio::from((16, 9)))));
    assert_eq!(evaluate(Resolution::from((800, 600)), &c), Decision::RatioMismatch);
}

#[test]
fn crop_accepts_any_ratio_with_computed_size() {
    let c = config(None, Some((RatioFilterOption::Crop, Ratio::from((16, 9)))));
    assert_eq!(
        evaluate(Resolution::from((1000, 500)), &c),
        Decision::AcceptWithCrop(Resolution::from((880, 495)))
    );
}

#[test]
fn resolution_rule_runs_before_ratio_rule() {
    let c = config(
        Some((ResolutionFilterOption::AtLeast, Resolution::from((1280, 720)))),
        Some((RatioFilterOption::Crop, Ratio::from((16, 9)))),
    );
    // too small: rejected before the ratio axis is consulted
    assert_eq!(evaluate(Resolution::from((640, 480)), &c), Decision::Reject);
    // large enough: cropped; unit = min(2000 / 16, 1100 / 9) = 122
    assert_eq!(
        evaluate(Resolution::from((2000, 1100)), &c),
        Decision::AcceptWithCrop(Resolution::from((1952, 1098)))
    );
}

#[test]
fn evaluate_is_pure() {
    let c = config(
        Some((ResolutionFilterOption::AtLeast, Resolution::from((100, 100)))),
        Some((RatioFilterOption::Crop, Ratio::from((4, 3)))),
    );
    let dims = Resolution::from((1024, 768));
    assert_eq!(evaluate(dims, &c), evaluate(dims, &c));
}

#[test]
fn resolution_filter_option_labels() {
    let opts = ResolutionFilterOption::options();
    assert_eq!(opts.len(), 3);
    assert_eq!(opts[0].0, Some(ResolutionFilterOption::AtLeast));
    assert_eq!(opts[0].1, "At Least");
    assert_eq!(opts[1].0, Some(ResolutionFilterOption::Exactly));
    assert_eq!(opts[1].1, "Exactly");
    assert_eq!(opts[2].0, None);
    assert_eq!(opts[2].1, "Off");
}

#[test]
fn ratio_filter_option_labels() {
    let opts = RatioFilterOption::options();
    assert_eq!(opts.len(), 3);
    assert_eq!(opts[0].0, Some(RatioFilterOption::FilterOnly));
    assert_eq!(opts[0].1, "Filter Only");
    assert_eq!(opts[1].0, Some(RatioFilterOption::Crop));
    assert_eq!(opts[1].1, "Crop");
    assert_eq!(opts[2].0, None);
    assert_eq!(opts[2].1, "Off");
}

#[test]
fn preset_lists_are_well_formed() {
    let resolutions = resolution_options();
    assert_eq!(resolutions.len(), 4);
    assert_eq!(resolutions[1].0, (1920, 1080));
    let ratios = ratio_options();
    assert_eq!(ratios.len(), 5);
    assert_eq!(ratios[0].0, (16, 9));
    for ((rw, rh), _) in ratios {
        assert!(rw >= 1 && rh >= 1);
    }
}

#[test]
fn get_filter_option_keeps_selections() {
    let resolution = Some((ResolutionFilterOption::Exactly, Resolution::from((640, 480))));
    let ratio = Some((RatioFilterOption::Crop, Ratio::from((3, 2))));
    let c = get_filter_option(resolution.clone(), ratio.clone());
    assert_eq!(c.resolution, resolution);
    assert_eq!(c.ratio, ratio);
    let empty = get_filter_option(None, None);
    assert_eq!(empty.resolution, None);
    assert_eq!(empty.ratio, None);
}
