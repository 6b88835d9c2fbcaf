//! Pixel resolutions and aspect ratios.

use vstd::prelude::*;

verus! {

/// Exact pixel dimensions of an image: width and height in pixels.
#[derive(Clone, Copy, PartialEq, Eq, Structural, Debug)]
pub struct Resolution {
    pub width: u32,
    pub height: u32,
}

impl From<(u32, u32)> for Resolution {
    fn from(pair: (u32, u32)) -> (r: Self) {
        Resolution { width: pair.0, height: pair.1 }
    }
}

impl vstd::std_specs::convert::FromSpecImpl<(u32, u32)> for Resolution {
    open spec fn obeys_from_spec() -> bool {
        true
    }

    open spec fn from_spec(pair: (u32, u32)) -> Self {
        Resolution { width: pair.0, height: pair.1 }
    }
}

/// An aspect ratio in small integer units, e.g. 16:9. Ratios are chosen from
/// a curated preset list, so each axis fits in a byte and is positive.
#[derive(Clone, Copy, PartialEq, Eq, Structural, Debug)]
pub struct Ratio {
    pub width: u8,
    pub height: u8,
}

impl From<(u8, u8)> for Ratio {
    fn from(pair: (u8, u8)) -> (r: Self) {
        Ratio { width: pair.0, height: pair.1 }
    }
}

impl vstd::std_specs::convert::FromSpecImpl<(u8, u8)> for Ratio {
    open spec fn obeys_from_spec() -> bool {
        true
    }

    open spec fn from_spec(pair: (u8, u8)) -> Self {
        Ratio { width: pair.0, height: pair.1 }
    }
}

} // verus!
