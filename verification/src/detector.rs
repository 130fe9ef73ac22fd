//! The bubble detector: the pipeline's state and decisions.
//!
//! The detector owns the color photograph and the grayscale and blurred
//! rasters derived from it once at construction.  Loading, grayscale
//! conversion and blurring are the vision library's work; the detector is
//! handed their results as plain rasters and refuses inconsistent ones.  The
//! circle pass and the contour pass are each split at the vision call: the
//! caller runs the transform and hands back its outcome, and the detector —
//! verified for every possible outcome — turns it into overlays, the error
//! taxonomy, and the report.

use vstd::prelude::*;
use crate::overlay::{
    circle_overlay, circle_overlays, contour_overlays, make_circle_overlay, make_contour_overlay,
    Overlay,
};
use crate::params::{THRESHOLD_MAX, THRESHOLD_VALUE};
use crate::raster::{spec_threshold_pixel, ColorImage, GrayImage};
use crate::report::{count_line, spec_count_line, spec_time_line, time_line};
use crate::shapes::{Circle, Contour};

verus! {

/// Why a pipeline phase failed.  Every failure is fatal: the pipeline
/// propagates it and stops.
#[derive(Clone, Copy, PartialEq, Eq, Structural, Debug)]
pub enum DetectorError {
    /// The input file was missing, unreadable, or not a decodable raster.
    ImageLoadError,
    /// An underlying vision transform could not execute.
    VisionOperationError,
}

/// What the circle transform came back with.
pub enum HoughOutcome {
    /// The transform ran; these are the truncated detections, possibly none.
    Circles(Vec<Circle>),
    /// The transform could not execute.
    Failed,
}

/// What contour extraction came back with.
pub enum ContourOutcome {
    /// Extraction ran; these are the contours, possibly none.
    Contours(Vec<Contour>),
    /// Thresholding or extraction could not execute.
    Failed,
}

/// What the contour pass reports: the contour count and the two output
/// lines, count first.
pub struct ProcessReport {
    pub count: usize,
    pub count_line: String,
    pub time_line: String,
}

/// The grayscale and blurred rasters both have the photograph's dimensions.
pub open spec fn derived_dims_match(image: ColorImage, gray: GrayImage, blurred: GrayImage) -> bool {
    &&& gray.spec_width() == image.spec_width()
    &&& gray.spec_height() == image.spec_height()
    &&& blurred.spec_width() == image.spec_width()
    &&& blurred.spec_height() == image.spec_height()
}

/// The bubble detector.  Construction fixes the three rasters for the
/// detector's lifetime; the passes only append overlays.
pub struct BubbleDetector {
    image: ColorImage,
    gray: GrayImage,
    blurred: GrayImage,
    overlays: Vec<Overlay>,
}

impl BubbleDetector {
    /// The color photograph.
    pub closed spec fn spec_image(self) -> ColorImage {
        self.image
    }

    /// The grayscale raster derived from the photograph.
    pub closed spec fn spec_gray(self) -> GrayImage {
        self.gray
    }

    /// The Gaussian-blurred grayscale raster both passes read.
    pub closed spec fn spec_blurred(self) -> GrayImage {
        self.blurred
    }

    /// The overlays issued so far, in issue order.
    pub closed spec fn spec_overlays(self) -> Seq<Overlay> {
        self.overlays@
    }

    /// A constructed detector holds three well-formed rasters of identical
    /// pixel dimensions, and its photograph is not empty.
    pub open spec fn wf(self) -> bool {
        &&& self.spec_image().wf()
        &&& self.spec_gray().wf()
        &&& self.spec_blurred().wf()
        &&& !self.spec_image().is_empty()
        &&& derived_dims_match(self.spec_image(), self.spec_gray(), self.spec_blurred())
    }

    /// Builds the detector from the loaded photograph and the two rasters
    /// derived from it.  An empty photograph is what loading a missing or
    /// undecodable file yields, and is refused as a load failure; derived
    /// rasters of the wrong dimensions are refused as a failed vision
    /// operation.  On failure no detector exists, partial or otherwise.
    pub fn new(image: ColorImage, gray: GrayImage, blurred: GrayImage) -> (r: Result<
        BubbleDetector,
        DetectorError,
    >)
        requires
            image.wf(),
            gray.wf(),
            blurred.wf(),
        ensures
            image.is_empty() ==> r == Err::<BubbleDetector, DetectorError>(
                DetectorError::ImageLoadError,
            ),
            !image.is_empty() && !derived_dims_match(image, gray, blurred) ==> r == Err::<
                BubbleDetector,
                DetectorError,
            >(DetectorError::VisionOperationError),
            !image.is_empty() && derived_dims_match(image, gray, blurred) ==> (r matches Ok(d)
                && {
                &&& d.wf()
                &&& d.spec_image() == image
                &&& d.spec_gray() == gray
                &&& d.spec_blurred() == blurred
                &&& d.spec_overlays() == Seq::<Overlay>::empty()
            }),
    {
        if image.check_empty() {
            return Err(DetectorError::ImageLoadError);
        }
        let dims_ok: bool = gray.width() == image.width() && gray.height() == image.height()
            && blurred.width() == image.width() && blurred.height() == image.height();
        if !dims_ok {
            return Err(DetectorError::VisionOperationError);
        }
        Ok(BubbleDetector { image, gray, blurred, overlays: Vec::new() })
    }

    /// The circle pass, after the circle transform has run on the blurred
    /// raster.  A failed transform is the only error; zero detections are
    /// none.  For each detection, in order, one filled antialiased disc in
    /// the fixed color is overlaid on the photograph.  No raster changes:
    /// in particular the blurred raster, the transform's input, is the same
    /// after the pass as before it.
    pub fn detect_circles(&mut self, outcome: HoughOutcome) -> (r: Result<(), DetectorError>)
        ensures
            final(self).spec_image() == old(self).spec_image(),
            final(self).spec_gray() == old(self).spec_gray(),
            final(self).spec_blurred() == old(self).spec_blurred(),
            match outcome {
                HoughOutcome::Failed => {
                    &&& r == Err::<(), DetectorError>(DetectorError::VisionOperationError)
                    &&& final(self).spec_overlays() == old(self).spec_overlays()
                },
                HoughOutcome::Circles(cs) => {
                    &&& r == Ok::<(), DetectorError>(())
                    &&& final(self).spec_overlays() == old(self).spec_overlays()
                        + circle_overlays(cs@)
                },
            },
            old(self).wf() ==> final(self).wf(),
    {
        match outcome {
            HoughOutcome::Failed => Err(DetectorError::VisionOperationError),
            HoughOutcome::Circles(cs) => {
                let ghost orig = *self;
                let n: usize = cs.len();
                for i in 0..n
                    invariant
                        n == cs@.len(),
                        self.image == orig.image,
                        self.gray == orig.gray,
                        self.blurred == orig.blurred,
                        self.overlays@ == orig.overlays@ + circle_overlays(cs@.take(i as int)),
                {
                    let o: Overlay = make_circle_overlay(cs[i]);
                    self.overlays.push(o);
                    proof {
                        assert(cs@.take(i + 1) =~= cs@.take(i as int).push(cs@[i as int]));
                        assert(circle_overlays(cs@.take(i + 1)) =~= circle_overlays(
                            cs@.take(i as int),
                        ).push(circle_overlay(cs@[i as int])));
                        assert(self.overlays@ =~= orig.overlays@ + circle_overlays(
                            cs@.take(i + 1),
                        ));
                    }
                }
                proof {
                    assert(cs@.take(n as int) =~= cs@);
                }
                Ok(())
            },
        }
    }

    /// The blurred raster put through the fixed binary threshold: the raster
    /// contour extraction runs on.
    pub fn threshold_blurred(&self) -> (t: GrayImage)
        ensures
            t.spec_width() == self.spec_blurred().spec_width(),
            t.spec_height() == self.spec_blurred().spec_height(),
            t.pixel_seq().len() == self.spec_blurred().pixel_seq().len(),
            forall|i: int|
                0 <= i < self.spec_blurred().pixel_seq().len() ==> t.pixel_seq()[i]
                    == spec_threshold_pixel(
                    self.spec_blurred().pixel_seq()[i],
                    THRESHOLD_VALUE,
                    THRESHOLD_MAX,
                ),
            self.spec_blurred().wf() ==> t.wf(),
    {
        self.blurred.threshold(THRESHOLD_VALUE, THRESHOLD_MAX)
    }

    /// The contour pass, after contour extraction has run on the thresholded
    /// raster and the elapsed time has been taken.  A failed extraction (or
    /// thresholding) is the only error; zero contours are none.  Every
    /// contour, in order, is overlaid filled in the fixed color, and the
    /// report carries the contour count and the two output lines.  No raster
    /// changes.
    pub fn process_image(&mut self, outcome: ContourOutcome, elapsed_nanos: u64) -> (r: Result<
        ProcessReport,
        DetectorError,
    >)
        ensures
            final(self).spec_image() == old(self).spec_image(),
            final(self).spec_gray() == old(self).spec_gray(),
            final(self).spec_blurred() == old(self).spec_blurred(),
            match outcome {
                ContourOutcome::Failed => {
                    &&& r == Err::<ProcessReport, DetectorError>(
                        DetectorError::VisionOperationError,
                    )
                    &&& final(self).spec_overlays() == old(self).spec_overlays()
                },
                ContourOutcome::Contours(cs) => {
                    &&& r matches Ok(rep)
                    &&& rep.count == cs@.len()
                    &&& rep.count_line@ == spec_count_line(cs@.len() as int)
                    &&& rep.time_line@ == spec_time_line(elapsed_nanos as int)
                    &&& final(self).spec_overlays() == old(self).spec_overlays()
                        + contour_overlays(cs@)
                },
            },
            old(self).wf() ==> final(self).wf(),
    {
        match outcome {
            ContourOutcome::Failed => Err(DetectorError::VisionOperationError),
            ContourOutcome::Contours(cs) => {
                let ghost orig = *self;
                let ghost all = cs@;
                let count: usize = cs.len();
                let mut rest: Vec<Contour> = cs;
                let n: usize = count;
                for i in 0..n
                    invariant
                        n == all.len(),
                        rest@ == all.skip(i as int),
                        self.image == orig.image,
                        self.gray == orig.gray,
                        self.blurred == orig.blurred,
                        self.overlays@ == orig.overlays@ + contour_overlays(all.take(i as int)),
                {
                    let c: Contour = rest.remove(0);
                    proof {
                        assert(c == all[i as int]);
                        assert(rest@ =~= all.skip(i + 1));
                    }
                    let o: Overlay = make_contour_overlay(c);
                    self.overlays.push(o);
                    proof {
                        assert(all.take(i + 1) =~= all.take(i as int).push(all[i as int]));
                        assert(contour_overlays(all.take(i + 1)) =~= contour_overlays(
                            all.take(i as int),
                        ).push(crate::overlay::contour_overlay(all[i as int])));
                        assert(self.overlays@ =~= orig.overlays@ + contour_overlays(
                            all.take(i + 1),
                        ));
                    }
                }
                proof {
                    assert(all.take(n as int) =~= all);
                }
                let rep = ProcessReport {
                    count,
                    count_line: count_line(count as u64),
                    time_line: time_line(elapsed_nanos),
                };
                Ok(rep)
            },
        }
    }

    /// How many overlays have been issued so far.
    pub fn overlay_count(&self) -> (n: usize)
        ensures
            n == self.spec_overlays().len(),
    {
        self.overlays.len()
    }

    /// The overlays issued so far, in issue order.
    pub fn overlays(&self) -> (o: &Vec<Overlay>)
        ensures
            o@ == self.spec_overlays(),
    {
        &self.overlays
    }

    /// The color photograph.
    pub fn image(&self) -> (img: &ColorImage)
        ensures
            *img == self.spec_image(),
    {
        &self.image
    }

    /// The grayscale raster.
    pub fn gray(&self) -> (img: &GrayImage)
        ensures
            *img == self.spec_gray(),
    {
        &self.gray
    }

    /// The blurred raster.
    pub fn blurred(&self) -> (img: &GrayImage)
        ensures
            *img == self.spec_blurred(),
    {
        &self.blurred
    }
}

/// Construction yields rasters of identical pixel dimensions: in any
/// constructed detector the photograph, the grayscale raster and the blurred
/// raster agree on width and height.
pub proof fn lemma_rasters_share_dimensions(d: BubbleDetector)
    requires
        d.wf(),
    ensures
        d.spec_gray().spec_width() == d.spec_image().spec_width(),
        d.spec_gray().spec_height() == d.spec_image().spec_height(),
        d.spec_blurred().spec_width() == d.spec_image().spec_width(),
        d.spec_blurred().spec_height() == d.spec_image().spec_height(),
{
}

} // verus!
