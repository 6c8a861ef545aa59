//! Runs the real marker detector on a synthetic frame: one unobstructed
//! tag16h5 marker of known identity and known fronto-parallel pose,
//! rendered from the family's own code table.

use apriltag::image_buf::DEFAULT_ALIGNMENT_U8;
use apriltag::{Detector, Family, Image, TagParams};
use apriltag_video_tracker::luma::LumaBuffer;
use apriltag_video_tracker::pose::{extract, MarkerPose};

// tag16h5: the code words of markers 0 and 1, and the data-cell
// coordinates of each code bit inside the 6-cell border grid, most
// significant bit first.
const TAG16H5_CODE_0: u64 = 0x27c8;
const TAG16H5_CODE_1: u64 = 0x31b6;
const BIT_X: [usize; 16] = [1, 2, 3, 2, 4, 4, 4, 3, 4, 3, 2, 3, 1, 1, 1, 2];
const BIT_Y: [usize; 16] = [1, 1, 1, 2, 1, 2, 3, 2, 4, 4, 4, 3, 4, 3, 2, 3];

/// Renders one marker as an 8 x 8 cell grid: a white outer ring, the
/// black border, and a white cell for every set code bit.
fn marker_cells(code: u64) -> [[u8; 8]; 8] {
    let mut cells = [[0u8; 8]; 8];
    for i in 0..8 {
        cells[0][i] = 255;
        cells[7][i] = 255;
        cells[i][0] = 255;
        cells[i][7] = 255;
    }
    for i in 0..16 {
        if code & (1u64 << (15 - i)) != 0 {
            cells[BIT_Y[i] + 1][BIT_X[i] + 1] = 255;
        }
    }
    cells
}

/// A white canvas held as an interleaved RGB frame.
struct Canvas {
    rgb: Vec<u8>,
    width: usize,
    height: usize,
}

fn white_canvas(width: usize, height: usize) -> Canvas {
    Canvas { rgb: vec![255u8; 3 * width * height], width, height }
}

/// Blows a marker's cell grid up to pixels at the given top-left corner.
fn paste_marker(canvas: &mut Canvas, code: u64, left: usize, top: usize, scale: usize) {
    let cells = marker_cells(code);
    for y in 0..8 * scale {
        for x in 0..8 * scale {
            let v = cells[y / scale][x / scale];
            let i = 3 * ((top + y) * canvas.width + (left + x));
            canvas.rgb[i] = v;
            canvas.rgb[i + 1] = v;
            canvas.rgb[i + 2] = v;
        }
    }
}

/// One marker of the given code, centred on a white background.
fn synthetic_frame(scale: usize, margin: usize) -> (Vec<u8>, usize, usize) {
    let side = 8 * scale + 2 * margin;
    let mut canvas = white_canvas(side, side);
    paste_marker(&mut canvas, TAG16H5_CODE_0, margin, margin, scale);
    (canvas.rgb, side, side)
}

#[test]
fn extract_finds_the_synthetic_marker_at_its_known_pose() {
    let scale = 20usize;
    let margin = 40usize;
    let (rgb, width, height) = synthetic_frame(scale, margin);
    let buffer = LumaBuffer::from_rgb(&rgb, width, height);

    let mut detector =
        Detector::builder().add_family_bits(Family::tag_16h5(), 1).build().unwrap();
    let tagsize = 0.06f64;
    let fx = 600.0f64;
    let center = (width as f64) / 2.0;
    let params = TagParams { tagsize, fx, fy: fx, cx: center, cy: center };

    let records = extract(&buffer, &params, &mut detector).unwrap();
    assert_eq!(records.len(), 1);
    let record = &records[0];
    assert_eq!(record.marker_id, 0);
    assert_eq!(record.pose.rotation.len(), 9);
    assert_eq!(record.pose.translation.len(), 3);

    // The black border spans 6 cells = 120 px, fronto-parallel and centred,
    // so the true translation is (0, 0, fx * tagsize / 120).
    let x = f64::from_bits(record.pose.translation[0]);
    let y = f64::from_bits(record.pose.translation[1]);
    let z = f64::from_bits(record.pose.translation[2]);
    let expected_z = fx * tagsize / ((6 * scale) as f64);
    assert!(x.abs() < 0.02, "x = {}", x);
    assert!(y.abs() < 0.02, "y = {}", y);
    assert!((z - expected_z).abs() < 0.03, "z = {}, expected {}", z, expected_z);
}

#[test]
fn extract_reports_two_markers_with_their_own_poses() {
    let scale = 20usize;
    let margin = 40usize;
    let tag_px = 8 * scale;
    let width = 2 * tag_px + 3 * margin;
    let height = tag_px + 2 * margin;
    let mut canvas = white_canvas(width, height);
    paste_marker(&mut canvas, TAG16H5_CODE_0, margin, margin, scale);
    paste_marker(&mut canvas, TAG16H5_CODE_1, 2 * margin + tag_px, margin, scale);
    let buffer = LumaBuffer::from_rgb(&canvas.rgb, width, height);

    let mut detector =
        Detector::builder().add_family_bits(Family::tag_16h5(), 1).build().unwrap();
    let tagsize = 0.06f64;
    let fx = 600.0f64;
    let cx = (width as f64) / 2.0;
    let cy = (height as f64) / 2.0;
    let params = TagParams { tagsize, fx, fy: fx, cx, cy };

    let records = extract(&buffer, &params, &mut detector).unwrap();
    assert_eq!(records.len(), 2);
    let mut seen_left = false;
    let mut seen_right = false;
    for record in records.iter() {
        assert_eq!(record.pose.rotation.len(), 9);
        assert_eq!(record.pose.translation.len(), 3);
        let x = f64::from_bits(record.pose.translation[0]);
        // Marker 0 sits left of the principal point, marker 1 right of it.
        if record.marker_id == 0 {
            assert!(x < -0.02, "marker 0 at x = {}", x);
            seen_left = true;
        }
        if record.marker_id == 1 {
            assert!(x > 0.02, "marker 1 at x = {}", x);
            seen_right = true;
        }
    }
    assert!(seen_left && seen_right);
}

#[test]
fn from_detection_maps_each_reported_marker() {
    let scale = 20usize;
    let margin = 40usize;
    let (rgb, width, height) = synthetic_frame(scale, margin);
    let buffer = LumaBuffer::from_rgb(&rgb, width, height);
    let mut image = Image::zeros_with_alignment(width, height, DEFAULT_ALIGNMENT_U8).unwrap();
    for y in 0..height {
        for x in 0..width {
            image[(x, y)] = buffer.data[y * width + x];
        }
    }
    let mut detector =
        Detector::builder().add_family_bits(Family::tag_16h5(), 1).build().unwrap();
    let detections = detector.detect(&image);
    assert!(!detections.is_empty());
    let center = (width as f64) / 2.0;
    let params = TagParams { tagsize: 0.06, fx: 600.0, fy: 600.0, cx: center, cy: center };
    let mut resolved = 0usize;
    for detection in detections.iter() {
        match MarkerPose::from_detection(detection, &params) {
            Some(pose) => {
                assert_eq!(pose.pose.rotation.len(), 9);
                assert_eq!(pose.pose.translation.len(), 3);
                if pose.marker_id == 0 {
                    resolved += 1;
                }
            }
            None => {}
        }
    }
    assert_eq!(resolved, 1);
}

#[test]
fn extract_reports_nothing_on_a_blank_frame() {
    let width = 120usize;
    let height = 90usize;
    let rgb = vec![200u8; 3 * width * height];
    let buffer = LumaBuffer::from_rgb(&rgb, width, height);
    let mut detector =
        Detector::builder().add_family_bits(Family::tag_16h5(), 1).build().unwrap();
    let params = TagParams { tagsize: 0.06, fx: 600.0, fy: 600.0, cx: 60.0, cy: 45.0 };
    let records = extract(&buffer, &params, &mut detector).unwrap();
    assert_eq!(records.len(), 0);
}
