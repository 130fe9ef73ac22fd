//! The fixed tuning of the pipeline, as named constants.
//!
//! These values are the only tuning the pipeline has; they determine its
//! detection sensitivity and must be kept exactly.  The fractional-capable
//! parameters of the vision routines (inverse resolution ratio, center
//! distance, Canny and accumulator thresholds, blur sigma) all have
//! whole-number values here, so they are carried as integers; the caller of
//! the vision library widens them.

use vstd::prelude::*;
use crate::raster::Bgr;

verus! {

/// Side of the square Gaussian blur kernel, in pixels.
pub const BLUR_KERNEL_SIZE: u32 = 3;

/// Standard deviation of the Gaussian blur kernel, in pixels.
pub const BLUR_SIGMA: u32 = 1;

/// Inverse ratio of the accumulator resolution to the image resolution of
/// the circle transform.
pub const HOUGH_INVERSE_RESOLUTION: u32 = 1;

/// Minimum distance between the centers of two reported circles, in pixels.
pub const HOUGH_MIN_CENTER_DISTANCE: u32 = 10;

/// Upper threshold of the internal Canny edge pass of the circle transform.
pub const HOUGH_CANNY_THRESHOLD: u32 = 100;

/// Accumulator threshold of the circle transform: smaller values report
/// more (and falser) circles.
pub const HOUGH_ACCUMULATOR_THRESHOLD: u32 = 30;

/// Smallest circle radius reported, in pixels.
pub const HOUGH_MIN_RADIUS: i32 = 1;

/// Largest circle radius reported, in pixels.
pub const HOUGH_MAX_RADIUS: i32 = 25;

/// Binary threshold applied to the blurred raster: pixels strictly above it
/// saturate, the rest go to zero.
pub const THRESHOLD_VALUE: u8 = 20;

/// The value thresholded pixels saturate to.
pub const THRESHOLD_MAX: u8 = 255;

/// Blue channel of the overlay color.
pub const OVERLAY_BLUE: u8 = 0;

/// Green channel of the overlay color.
pub const OVERLAY_GREEN: u8 = 165;

/// Red channel of the overlay color.
pub const OVERLAY_RED: u8 = 255;

/// The one color every overlay is drawn in: orange, as blue-green-red.
pub open spec fn spec_overlay_color() -> Bgr {
    Bgr { blue: OVERLAY_BLUE, green: OVERLAY_GREEN, red: OVERLAY_RED }
}

/// The overlay color as a value.
pub fn overlay_color() -> (c: Bgr)
    ensures
        c == spec_overlay_color(),
{
    Bgr { blue: OVERLAY_BLUE, green: OVERLAY_GREEN, red: OVERLAY_RED }
}

} // verus!
