use bubble_detector::detector::{
    BubbleDetector, ContourOutcome, DetectorError, HoughOutcome,
};
use bubble_detector::overlay::Overlay;
use bubble_detector::raster::{ColorImage, GrayImage};
use bubble_detector::shapes::{Circle, Contour, PixelPoint};

fn detector_over_uniform_image(width: usize, height: usize, level: u8) -> BubbleDetector {
    let image = ColorImage::new(width, height, vec![level; width * height * 3]).unwrap();
    let gray = GrayImage::new(width, height, vec![level; width * height]).unwrap();
    let blurred = GrayImage::new(width, height, vec![level; width * height]).unwrap();
    BubbleDetector::new(image, gray, blurred).expect("valid rasters construct a detector")
}

fn circle(x: i32, y: i32, radius: i32) -> Circle {
    Circle { center: PixelPoint { x, y }, radius }
}

#[test]
fn construct_on_failed_load_is_image_load_error() {
    // Loading a missing or undecodable file yields an empty raster.
    let image = ColorImage::new(0, 0, vec![]).unwrap();
    let gray = GrayImage::new(0, 0, vec![]).unwrap();
    let blurred = GrayImage::new(0, 0, vec![]).unwrap();
    let r = BubbleDetector::new(image, gray, blurred);
    match r {
        Err(DetectorError::ImageLoadError) => {}
        _ => panic!("expected ImageLoadError"),
    }
}

#[test]
fn construct_on_mismatched_rasters_is_vision_error() {
    let image = ColorImage::new(2, 2, vec![0; 12]).unwrap();
    let gray = GrayImage::new(2, 2, vec![0; 4]).unwrap();
    let blurred = GrayImage::new(3, 2, vec![0; 6]).unwrap();
    let r = BubbleDetector::new(image, gray, blurred);
    match r {
        Err(DetectorError::VisionOperationError) => {}
        _ => panic!("expected VisionOperationError"),
    }
}

#[test]
fn construct_keeps_dimensions_identical() {
    let d = detector_over_uniform_image(4, 3, 128);
    assert_eq!(d.image().width(), 4);
    assert_eq!(d.image().height(), 3);
    assert_eq!(d.gray().width(), 4);
    assert_eq!(d.gray().height(), 3);
    assert_eq!(d.blurred().width(), 4);
    assert_eq!(d.blurred().height(), 3);
    assert_eq!(d.overlay_count(), 0);
}

#[test]
fn circle_pass_overlays_one_disc_per_detection() {
    let mut d = detector_over_uniform_image(8, 8, 200);
    let detections = vec![circle(2, 3, 4), circle(5, 5, 1), circle(7, 0, 25)];
    let r = d.detect_circles(HoughOutcome::Circles(detections));
    assert!(r.is_ok());
    assert_eq!(d.overlay_count(), 3);
    let expected = [(2, 3, 4), (5, 5, 1), (7, 0, 25)];
    for (i, (x, y, radius)) in expected.iter().enumerate() {
        match &d.overlays()[i] {
            Overlay::FilledCircle { circle, color, antialiased } => {
                assert_eq!(circle.center.x, *x);
                assert_eq!(circle.center.y, *y);
                assert_eq!(circle.radius, *radius);
                assert_eq!(color.blue, 0);
                assert_eq!(color.green, 165);
                assert_eq!(color.red, 255);
                assert!(*antialiased);
            }
            _ => panic!("expected a circle overlay"),
        }
    }
}

#[test]
fn circle_pass_twice_draws_twice_at_same_locations() {
    let mut d = detector_over_uniform_image(8, 8, 200);
    let first = vec![circle(2, 3, 4), circle(6, 6, 2)];
    let second = vec![circle(2, 3, 4), circle(6, 6, 2)];
    d.detect_circles(HoughOutcome::Circles(first)).unwrap();
    d.detect_circles(HoughOutcome::Circles(second)).unwrap();
    // Drawing is not deduplicated: both passes issued their overlays.
    assert_eq!(d.overlay_count(), 4);
    assert_eq!(&d.overlays()[0], &d.overlays()[2]);
    assert_eq!(&d.overlays()[1], &d.overlays()[3]);
}

#[test]
fn circle_pass_reports_failed_transform() {
    let mut d = detector_over_uniform_image(8, 8, 200);
    let r = d.detect_circles(HoughOutcome::Failed);
    match r {
        Err(DetectorError::VisionOperationError) => {}
        _ => panic!("expected VisionOperationError"),
    }
    assert_eq!(d.overlay_count(), 0);
}

#[test]
fn zero_detections_are_not_an_error() {
    let mut d = detector_over_uniform_image(8, 8, 200);
    let r = d.detect_circles(HoughOutcome::Circles(vec![]));
    assert!(r.is_ok());
    assert_eq!(d.overlay_count(), 0);
}

#[test]
fn threshold_of_dark_blank_image_is_all_zero() {
    let d = detector_over_uniform_image(4, 4, 7);
    let t = d.threshold_blurred();
    assert_eq!(t.width(), 4);
    assert_eq!(t.height(), 4);
    for y in 0..4 {
        for x in 0..4 {
            assert_eq!(t.pixel(x, y), 0);
        }
    }
}

#[test]
fn threshold_of_bright_blank_image_is_all_saturated() {
    let d = detector_over_uniform_image(4, 4, 21);
    let t = d.threshold_blurred();
    for y in 0..4 {
        for x in 0..4 {
            assert_eq!(t.pixel(x, y), 255);
        }
    }
}

#[test]
fn contour_pass_on_blank_image_reports_zero_and_nonnegative_time() {
    let mut d = detector_over_uniform_image(4, 4, 7);
    let r = d.process_image(ContourOutcome::Contours(vec![]), 0);
    let rep = r.expect("zero contours are not an error");
    assert_eq!(rep.count, 0);
    assert_eq!(rep.count_line.as_str(), "Bubble count: 0");
    assert_eq!(rep.time_line.as_str(), "Processing time: 0.00ms");
    assert_eq!(d.overlay_count(), 0);
}

#[test]
fn contour_pass_overlays_and_reports_three_bubbles() {
    let mut d = detector_over_uniform_image(8, 8, 200);
    let detections = vec![circle(1, 1, 2), circle(4, 4, 2), circle(7, 7, 2)];
    d.detect_circles(HoughOutcome::Circles(detections)).unwrap();
    let contours = vec![
        Contour::new(vec![PixelPoint { x: 0, y: 0 }, PixelPoint { x: 2, y: 0 }, PixelPoint {
            x: 2,
            y: 2,
        }]),
        Contour::new(vec![PixelPoint { x: 3, y: 3 }, PixelPoint { x: 5, y: 3 }, PixelPoint {
            x: 5,
            y: 5,
        }]),
        Contour::new(vec![PixelPoint { x: 6, y: 6 }, PixelPoint { x: 7, y: 6 }, PixelPoint {
            x: 7,
            y: 7,
        }]),
    ];
    let r = d.process_image(ContourOutcome::Contours(contours), 1_500_000);
    let rep = r.expect("extraction succeeded");
    assert_eq!(rep.count, 3);
    assert_eq!(rep.count_line.as_str(), "Bubble count: 3");
    assert_eq!(rep.time_line.as_str(), "Processing time: 1.50ms");
    // Three discs from the circle pass, then the three contours, in order.
    assert_eq!(d.overlay_count(), 6);
    match &d.overlays()[3] {
        Overlay::FilledContour { contour, color } => {
            assert_eq!(contour.len(), 3);
            assert_eq!(contour.points[0], PixelPoint { x: 0, y: 0 });
            assert_eq!(color.green, 165);
        }
        _ => panic!("expected a contour overlay"),
    }
}

#[test]
fn contour_pass_reports_failed_extraction() {
    let mut d = detector_over_uniform_image(4, 4, 7);
    let r = d.process_image(ContourOutcome::Failed, 42);
    match r {
        Err(DetectorError::VisionOperationError) => {}
        _ => panic!("expected VisionOperationError"),
    }
    assert_eq!(d.overlay_count(), 0);
}
