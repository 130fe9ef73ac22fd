//! The transient detection results: circles and contours.
//!
//! Both are plain integer-pixel values.  The circle transform reports
//! fractional centers and radii; the pipeline truncates them to whole pixels
//! before drawing, and this crate models them after that truncation.

use vstd::prelude::*;

verus! {

/// An integer pixel position.
#[derive(Clone, Copy, PartialEq, Eq, Structural, Debug)]
pub struct PixelPoint {
    pub x: i32,
    pub y: i32,
}

/// A detected circle: integer center and radius, in pixels.
#[derive(Clone, Copy, PartialEq, Eq, Structural, Debug)]
pub struct Circle {
    pub center: PixelPoint,
    pub radius: i32,
}

/// A contour: the ordered boundary points of one extracted region, with
/// straight runs kept only by their endpoints.
#[derive(PartialEq, Eq, Debug)]
pub struct Contour {
    pub points: Vec<PixelPoint>,
}

impl View for Contour {
    type V = Seq<PixelPoint>;

    closed spec fn view(&self) -> Seq<PixelPoint> {
        self.points@
    }
}

impl Contour {
    /// Builds a contour from its boundary points.
    pub fn new(points: Vec<PixelPoint>) -> (c: Contour)
        ensures
            c@ == points@,
    {
        Contour { points }
    }

    /// How many boundary points the contour keeps.
    pub fn len(&self) -> (n: usize)
        ensures
            n == self@.len(),
    {
        self.points.len()
    }
}

} // verus!
