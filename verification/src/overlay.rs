//! The overlays drawn onto the color raster.
//!
//! The pipeline annotates the photograph by drawing on it: a filled,
//! antialiased disc per detected circle, then every extracted contour filled.
//! Rasterising those shapes is the vision library's work; this crate models
//! the annotated image as the base raster together with the ordered sequence
//! of overlays issued so far.  Every overlay uses the one fixed color.

use vstd::prelude::*;
use crate::params::{overlay_color, spec_overlay_color};
use crate::raster::Bgr;
use crate::shapes::{Circle, Contour};

verus! {

/// One drawing step applied to the color raster, in issue order.
#[derive(PartialEq, Eq, Debug)]
pub enum Overlay {
    /// A disc filled with `color`, drawn antialiased when `antialiased`.
    FilledCircle { circle: Circle, color: Bgr, antialiased: bool },
    /// A contour filled with `color`.
    FilledContour { contour: Contour, color: Bgr },
}

/// The overlay issued for one detected circle: a filled antialiased disc in
/// the fixed overlay color.
pub open spec fn circle_overlay(c: Circle) -> Overlay {
    Overlay::FilledCircle { circle: c, color: spec_overlay_color(), antialiased: true }
}

/// The overlays issued for a sequence of detected circles, in order.
pub open spec fn circle_overlays(cs: Seq<Circle>) -> Seq<Overlay> {
    cs.map_values(|c: Circle| circle_overlay(c))
}

/// The overlay issued for one extracted contour: the contour filled in the
/// fixed overlay color.
pub open spec fn contour_overlay(c: Contour) -> Overlay {
    Overlay::FilledContour { contour: c, color: spec_overlay_color() }
}

/// The overlays issued for a sequence of extracted contours, in order.
pub open spec fn contour_overlays(cs: Seq<Contour>) -> Seq<Overlay> {
    cs.map_values(|c: Contour| contour_overlay(c))
}

/// The overlay issued for one detected circle, as a value.
pub fn make_circle_overlay(c: Circle) -> (o: Overlay)
    ensures
        o == circle_overlay(c),
{
    Overlay::FilledCircle { circle: c, color: overlay_color(), antialiased: true }
}

/// The overlay issued for one extracted contour, as a value.
pub fn make_contour_overlay(c: Contour) -> (o: Overlay)
    ensures
        o == contour_overlay(c),
{
    Overlay::FilledContour { contour: c, color: overlay_color() }
}

/// Running the circle pass twice with the same detections issues the same
/// overlays twice: drawing is not deduplicated, so after the second pass the
/// overlay sequence holds two copies of the pass's overlays, entry for entry,
/// on top of whatever was there before.
pub proof fn lemma_repeated_circle_pass(base: Seq<Overlay>, cs: Seq<Circle>)
    ensures
        ({
            let once = base + circle_overlays(cs);
            let twice = once + circle_overlays(cs);
            &&& twice.len() == base.len() + cs.len() + cs.len()
            &&& forall|i: int|
                0 <= i < cs.len() ==> twice[base.len() + i] == circle_overlay(cs[i])
            &&& forall|i: int|
                0 <= i < cs.len() ==> twice[base.len() + cs.len() + i] == circle_overlay(cs[i])
        }),
{
    let once = base + circle_overlays(cs);
    let twice = once + circle_overlays(cs);
    assert forall|i: int| 0 <= i < cs.len() implies twice[base.len() + i] == circle_overlay(
        cs[i],
    ) by {
        assert(twice[base.len() + i] == once[base.len() + i]);
        assert(once[base.len() + i] == circle_overlays(cs)[i]);
    }
    assert forall|i: int| 0 <= i < cs.len() implies twice[base.len() + cs.len() + i]
        == circle_overlay(cs[i]) by {
        assert(twice[base.len() + cs.len() + i] == circle_overlays(cs)[i]);
    }
}

} // verus!
