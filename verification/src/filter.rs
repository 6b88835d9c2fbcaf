//! The filter configuration and the filter evaluator: given an image's
//! decoded dimensions and the configured rules, decide whether the image is
//! skipped, accepted as is, accepted with a crop, or failed on a hard ratio
//! mismatch.

use crate::geometry::Ratio;
use crate::geometry::Resolution;
use crate::ratio_math::calc_max_image_size_by_ratio;
use crate::ratio_math::max_common_divisor;
use crate::ratio_math::spec_gcd;
use crate::ratio_math::spec_max_crop_size;
use vstd::prelude::*;
use vstd::string::*;

verus! {

/// How a configured resolution constrains an image.
#[derive(Clone, Copy, PartialEq, Eq, Structural, Debug)]
pub enum ResolutionFilterOption {
    /// Pass images at least as wide and as tall as the configured resolution.
    AtLeast,
    /// Pass only images of exactly the configured resolution.
    Exactly,
}

/// How a configured aspect ratio constrains an image.
#[derive(Clone, Copy, PartialEq, Eq, Structural, Debug)]
pub enum RatioFilterOption {
    /// Fail images whose simplified ratio differs from the configured one.
    /// The mismatch is surfaced as a per-file failure, not a silent skip.
    FilterOnly,
    /// Crop every image to the largest exact-ratio size that fits.
    Crop,
}

/// The filter configuration: an optional rule per axis. An absent rule
/// means no filtering on that axis.
#[derive(Clone)]
pub struct FilterOption {
    pub resolution: Option<(ResolutionFilterOption, Resolution)>,
    pub ratio: Option<(RatioFilterOption, Ratio)>,
}

impl FilterOption {
    /// Well-formedness: a configured ratio is positive on both axes, as
    /// preset construction guarantees.
    pub open spec fn wf(self) -> bool {
        match self.ratio {
            Option::None => true,
            Option::Some((rule, ratio)) => ratio.width >= 1 && ratio.height >= 1,
        }
    }
}

impl ResolutionFilterOption {
    /// The prompt items for the resolution rule: each selectable rule with
    /// its label, then an entry for leaving the rule off.
    pub fn options() -> (r: Vec<(Option<ResolutionFilterOption>, String, &'static str)>)
        ensures
            r@.len() == 3,
            r@[0].0 == Some(ResolutionFilterOption::AtLeast),
            r@[0].1@ == "At Least"@,
            r@[1].0 == Some(ResolutionFilterOption::Exactly),
            r@[1].1@ == "Exactly"@,
            r@[2].0 == Option::<ResolutionFilterOption>::None,
            r@[2].1@ == "Off"@,
    {
        let mut r: Vec<(Option<ResolutionFilterOption>, String, &'static str)> = Vec::new();
        r.push((Some(ResolutionFilterOption::AtLeast), String::from_str("At Least"), ""));
        r.push((Some(ResolutionFilterOption::Exactly), String::from_str("Exactly"), ""));
        r.push((None, String::from_str("Off"), ""));
        r
    }
}

impl RatioFilterOption {
    /// The prompt items for the ratio rule: each selectable rule with its
    /// label, then an entry for leaving the rule off.
    pub fn options() -> (r: Vec<(Option<RatioFilterOption>, String, &'static str)>)
        ensures
            r@.len() == 3,
            r@[0].0 == Some(RatioFilterOption::FilterOnly),
            r@[0].1@ == "Filter Only"@,
            r@[1].0 == Some(RatioFilterOption::Crop),
            r@[1].1@ == "Crop"@,
            r@[2].0 == Option::<RatioFilterOption>::None,
            r@[2].1@ == "Off"@,
    {
        let mut r: Vec<(Option<RatioFilterOption>, String, &'static str)> = Vec::new();
        r.push((Some(RatioFilterOption::FilterOnly), String::from_str("Filter Only"), ""));
        r.push((Some(RatioFilterOption::Crop), String::from_str("Crop"), ""));
        r.push((None, String::from_str("Off"), ""));
        r
    }
}

/// The curated resolution presets offered by the prompt, as width/height
/// pairs with a hint label.
pub fn resolution_options() -> (r: Vec<((u32, u32), &'static str)>)
    ensures
        r@.len() == 4,
        r@[0].0 == (1280u32, 720u32),
        r@[1].0 == (1920u32, 1080u32),
        r@[2].0 == (2560u32, 1440u32),
        r@[3].0 == (3840u32, 2160u32),
{
    let mut r: Vec<((u32, u32), &'static str)> = Vec::new();
    r.push(((1280, 720), "HD"));
    r.push(((1920, 1080), "Full HD"));
    r.push(((2560, 1440), "QHD"));
    r.push(((3840, 2160), "4K UHD"));
    r
}

/// The curated ratio presets offered by the prompt, as width/height unit
/// pairs with a hint label. Every preset is positive on both axes, which is
/// what entitles the ratio math to its positive-ratio preconditions.
pub fn ratio_options() -> (r: Vec<((u8, u8), &'static str)>)
    ensures
        r@.len() == 5,
        r@[0].0 == (16u8, 9u8),
        r@[1].0 == (4u8, 3u8),
        r@[2].0 == (1u8, 1u8),
        r@[3].0 == (3u8, 2u8),
        r@[4].0 == (21u8, 9u8),
        forall|i: int| 0 <= i < r@.len() ==> (#[trigger] r@[i]).0.0 >= 1 && r@[i].0.1 >= 1,
{
    let mut r: Vec<((u8, u8), &'static str)> = Vec::new();
    r.push(((16, 9), "widescreen"));
    r.push(((4, 3), "classic"));
    r.push(((1, 1), "square"));
    r.push(((3, 2), "photo"));
    r.push(((21, 9), "ultrawide"));
    r
}

/// Combine the two prompt selections into the filter configuration: the
/// configuration holds exactly what was selected on each axis.
pub fn get_filter_option(
    resolution: Option<(ResolutionFilterOption, Resolution)>,
    ratio: Option<(RatioFilterOption, Ratio)>,
) -> (r: FilterOption)
    ensures
        r.resolution == resolution,
        r.ratio == ratio,
{
    FilterOption { resolution, ratio }
}

/// What the evaluator decides for one image.
#[derive(Clone, Copy, PartialEq, Eq, Structural, Debug)]
pub enum Decision {
    /// Filtered out: no outcome is reported for the file.
    Reject,
    /// Hard failure: the simplified image ratio differs from the configured
    /// ratio under a filter-only rule. Reported as a per-file failure.
    RatioMismatch,
    /// Accepted: save the image unchanged.
    AcceptAsIs,
    /// Accepted: crop the image to the carried size, then save.
    AcceptWithCrop(Resolution),
}

/// Whether image dimensions satisfy one resolution rule.
pub open spec fn spec_resolution_rule_passes(
    dims: Resolution,
    rule: ResolutionFilterOption,
    wanted: Resolution,
) -> bool {
    match rule {
        ResolutionFilterOption::AtLeast => dims.width >= wanted.width && dims.height
            >= wanted.height,
        ResolutionFilterOption::Exactly => dims.width == wanted.width && dims.height
            == wanted.height,
    }
}

/// Whether image dimensions pass the configured resolution axis; an absent
/// rule never rejects.
pub open spec fn spec_resolution_passes(dims: Resolution, config: FilterOption) -> bool {
    match config.resolution {
        Option::None => true,
        Option::Some((rule, wanted)) => spec_resolution_rule_passes(dims, rule, wanted),
    }
}

/// Whether the image's own ratio, simplified by the greatest common divisor
/// of its sides, equals the configured ratio exactly.
pub open spec fn spec_ratio_matches(dims: Resolution, ratio: Ratio) -> bool
    recommends
        dims.width >= 1,
        dims.height >= 1,
{
    let g = spec_gcd(dims.width as int, dims.height as int);
    dims.width as int / g == ratio.width as int && dims.height as int / g == ratio.height as int
}

/// The evaluator's decision for given dimensions and configuration: the
/// resolution axis first (a miss rejects), then the ratio axis (filter-only
/// mismatch fails hard; crop always accepts with the computed size).
pub open spec fn spec_evaluate(dims: Resolution, config: FilterOption) -> Decision {
    if !spec_resolution_passes(dims, config) {
        Decision::Reject
    } else {
        match config.ratio {
            Option::None => Decision::AcceptAsIs,
            Option::Some((RatioFilterOption::FilterOnly, ratio)) => if spec_ratio_matches(
                dims,
                ratio,
            ) {
                Decision::AcceptAsIs
            } else {
                Decision::RatioMismatch
            },
            Option::Some((RatioFilterOption::Crop, ratio)) => Decision::AcceptWithCrop(
                spec_max_crop_size(dims, ratio),
            ),
        }
    }
}

/// Decide what to do with an image of the given decoded dimensions under
/// the given configuration. The decision is a pure function of its two
/// arguments: the result always equals `spec_evaluate(dims, *config)`.
/// Dimensions must be positive when a ratio rule is configured, since the
/// ratio axis simplifies them by their greatest common divisor.
pub fn evaluate(dims: Resolution, config: &FilterOption) -> (d: Decision)
    requires
        config.wf(),
        config.ratio is Some ==> dims.width >= 1 && dims.height >= 1,
    ensures
        d == spec_evaluate(dims, *config),
{
    if let Some((rule, wanted)) = &config.resolution {
        let passes = match rule {
            ResolutionFilterOption::AtLeast => dims.width >= wanted.width && dims.height
                >= wanted.height,
            ResolutionFilterOption::Exactly => dims.width == wanted.width && dims.height
                == wanted.height,
        };
        if !passes {
            return Decision::Reject;
        }
    }
    match &config.ratio {
        None => Decision::AcceptAsIs,
        Some((RatioFilterOption::FilterOnly, ratio)) => {
            let divisor = max_common_divisor(dims.width, dims.height);
            if dims.width / divisor == ratio.width as u32 && dims.height / divisor
                == ratio.height as u32 {
                Decision::AcceptAsIs
            } else {
                Decision::RatioMismatch
            }
        },
        Some((RatioFilterOption::Crop, ratio)) => Decision::AcceptWithCrop(
            calc_max_image_size_by_ratio(dims, *ratio),
        ),
    }
}

/// An image cropped to the computed size passes a filter-only rule for the
/// same ratio: for a reduced preset ratio and a source at least one ratio
/// unit on both axes, the crop's simplified ratio is the input ratio.
pub proof fn lemma_cropped_image_matches_ratio(resolution: Resolution, ratio: Ratio)
    requires
        ratio.width >= 1,
        ratio.height >= 1,
        spec_gcd(ratio.width as int, ratio.height as int) == 1,
        crate::ratio_math::spec_crop_unit(resolution, ratio) >= 1,
    ensures
        spec_ratio_matches(spec_max_crop_size(resolution, ratio), ratio),
{
    crate::ratio_math::lemma_crop_size_has_exact_ratio(resolution, ratio);
}

/// An at-least rule set to the image's own dimensions always passes.
pub proof fn lemma_at_least_own_resolution_passes(dims: Resolution)
    ensures
        spec_resolution_rule_passes(dims, ResolutionFilterOption::AtLeast, dims),
{
}

/// An exact rule rejects any dimension mismatch, even by one pixel.
pub proof fn lemma_exactly_rejects_any_mismatch(dims: Resolution, wanted: Resolution)
    requires
        dims != wanted,
    ensures
        !spec_resolution_rule_passes(dims, ResolutionFilterOption::Exactly, wanted),
{
}

} // verus!
