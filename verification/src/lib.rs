//! Verified core of a bubble-detection pipeline.
//!
//! The pipeline loads a color photograph, derives a grayscale and a blurred
//! raster from it, detects circular bubbles, overlays filled discs on the
//! detections, then thresholds the blurred raster, extracts contours, overlays
//! them as well, and reports the contour count together with the processing
//! time.  Decoding image files, Gaussian blurring, the Hough transform,
//! contour extraction and rasterising the overlays are the work of a vision
//! library and of the surrounding program; this crate holds everything the
//! pipeline decides and computes on plain values, with proved contracts:
//! the raster model and its invariants, binary thresholding, the detector's
//! state and overlay bookkeeping, the error taxonomy, and the textual report.

pub mod detector;
pub mod overlay;
pub mod params;
pub mod raster;
pub mod report;
pub mod shapes;
