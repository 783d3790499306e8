use gst_screencapturekit::format::{apple_format_to_gst_format, VideoFormat};
use gst_screencapturekit::pattern::{draw_test_pattern, test_frame, PATTERN_BASE, PATTERN_STEPS};

/// The pattern drawn write by write, as the frame is filled.
fn draw_by_writes(pixels: &mut [u32], width: usize, height: usize) {
    let area = (width * height) as isize;
    let steps = PATTERN_STEPS as isize;
    for i in 0..(area - 1) / steps {
        for s in 0..steps {
            pixels[(i * s) as usize] = (s + PATTERN_BASE as isize) as u32;
        }
    }
}

#[test]
fn pattern_on_empty_frame_changes_nothing() {
    let mut pixels = vec![7u32; 4];
    draw_test_pattern(&mut pixels, 0, 5);
    assert_eq!(pixels, vec![7u32; 4]);
    let mut pixels = vec![7u32; 4];
    draw_test_pattern(&mut pixels, 1, 1);
    assert_eq!(pixels, vec![7u32; 4]);
}

#[test]
fn pattern_with_one_row() {
    // 20 pixels: one row, which writes every step at pixel 0
    let mut pixels = vec![1u32; 20];
    draw_test_pattern(&mut pixels, 4, 5);
    let mut expected = vec![1u32; 20];
    expected[0] = PATTERN_BASE + 9;
    assert_eq!(pixels, expected);
}

#[test]
fn pattern_with_two_rows() {
    let mut pixels = vec![0u32; 30];
    draw_test_pattern(&mut pixels, 3, 10);
    for k in 0..10 {
        assert_eq!(pixels[k], PATTERN_BASE + k as u32);
    }
    for k in 10..30 {
        assert_eq!(pixels[k], 0);
    }
}

#[test]
fn pattern_keeps_the_smallest_reaching_step() {
    let mut pixels = vec![0u32; 101];
    draw_test_pattern(&mut pixels, 101, 1);
    // ten rows; pixel 12 is reached by steps 2, 3, 4 and 6, and step 2 of row 6 writes it last
    assert_eq!(pixels[12], PATTERN_BASE + 2);
    assert_eq!(pixels[0], PATTERN_BASE);
    assert_eq!(pixels[7], PATTERN_BASE + 1);
    assert_eq!(pixels[81], PATTERN_BASE + 9);
    assert_eq!(pixels[11], 0);
    assert_eq!(pixels[90], 0);
}

#[test]
fn pattern_matches_its_writes() {
    for (width, height) in [(1, 1), (2, 5), (3, 7), (10, 10), (17, 13), (64, 48)] {
        let mut pixels: Vec<u32> = (0..(width * height) as u32 + 3).collect();
        let mut expected = pixels.clone();
        draw_by_writes(&mut expected, width, height);
        draw_test_pattern(&mut pixels, width, height);
        assert_eq!(pixels, expected);
    }
}

#[test]
fn pattern_drawn_twice_is_drawn_once() {
    let mut once: Vec<u32> = (0..500).collect();
    draw_test_pattern(&mut once, 20, 25);
    let mut twice = once.clone();
    draw_test_pattern(&mut twice, 20, 25);
    assert_eq!(once, twice);
}

#[test]
fn test_frame_is_bgra_720p() {
    let frame = test_frame();
    assert_eq!(frame.width, 1280);
    assert_eq!(frame.height, 720);
    assert_eq!(frame.pixel_format, 0x4247_5241);
    assert_eq!(apple_format_to_gst_format(frame.pixel_format), VideoFormat::Bgra);
}

#[test]
fn test_frame_pattern_stays_in_frame() {
    let frame = test_frame();
    let (w, h) = (frame.width as usize, frame.height as usize);
    let mut pixels = vec![0u32; w * h];
    draw_test_pattern(&mut pixels, w, h);
    let rows = (w * h - 1) / PATTERN_STEPS;
    assert_eq!(pixels[0], PATTERN_BASE);
    assert!(pixels[rows * PATTERN_STEPS..].iter().all(|&p| p == 0));
}
