use step_recorder::raster::Image;
use step_recorder::screenshots::{
    click_crop, click_crop_rect, crop_step, placeholder_screenshots, screenshot_file_name, step_screenshots,
    window_crop, window_crop_rect, CaptureResult, CropRect, WindowBounds, CLICK_CROP_HEIGHT,
    CLICK_CROP_WIDTH,
};

fn rect(left: u32, top: u32, width: u32, height: u32) -> CropRect {
    CropRect { left, top, width, height }
}

/// An image whose pixel (x, y) holds the bytes [x, y, x + y, 255].
fn gradient(width: u32, height: u32) -> Image {
    let mut bytes = Vec::new();
    for y in 0..height {
        for x in 0..width {
            bytes.extend_from_slice(&[x as u8, y as u8, (x + y) as u8, 255]);
        }
    }
    Image::from_rgba(width, height, bytes).unwrap()
}

#[test]
fn click_crop_is_centered_on_the_click() {
    assert_eq!(click_crop_rect(1000, 500, 1920, 1080), rect(800, 350, 400, 300));
}

#[test]
fn click_crop_is_pushed_inside_the_image() {
    assert_eq!(click_crop_rect(50, 20, 1920, 1080), rect(0, 0, 400, 300));
    assert_eq!(click_crop_rect(1900, 1070, 1920, 1080), rect(1520, 780, 400, 300));
    assert_eq!(click_crop_rect(5000, 5000, 1920, 1080), rect(1520, 780, 400, 300));
}

#[test]
fn click_crop_on_a_small_image_is_the_whole_image() {
    assert_eq!(click_crop_rect(50, 50, 100, 80), rect(0, 0, 100, 80));
    assert_eq!(click_crop_rect(300, 10, 350, 80), rect(0, 0, 350, 80));
    assert_eq!(click_crop_rect(0, 0, 0, 0), rect(0, 0, 0, 0));
}

#[test]
fn click_crop_constants() {
    assert_eq!(CLICK_CROP_WIDTH, 400);
    assert_eq!(CLICK_CROP_HEIGHT, 300);
}

#[test]
fn window_crop_cases() {
    let w = |x, y, width, height| Some(WindowBounds { x, y, width, height });
    assert_eq!(window_crop_rect(None, 1920, 1080), None);
    assert_eq!(window_crop_rect(w(10, 10, 0, 50), 1920, 1080), None);
    assert_eq!(window_crop_rect(w(10, 10, 50, 0), 1920, 1080), None);
    assert_eq!(window_crop_rect(w(10, 10, 50, 50), 0, 1080), None);
    assert_eq!(window_crop_rect(w(10, 20, 300, 200), 1920, 1080), Some(rect(10, 20, 300, 200)));
    assert_eq!(window_crop_rect(w(1800, 1000, 300, 200), 1920, 1080), Some(rect(1800, 1000, 120, 80)));
    assert_eq!(window_crop_rect(w(5000, 5000, 300, 200), 1920, 1080), Some(rect(1919, 1079, 1, 1)));
}

#[test]
fn image_needs_four_bytes_per_pixel() {
    assert!(Image::from_rgba(2, 2, vec![0; 15]).is_none());
    assert!(Image::from_rgba(2, 2, vec![0; 17]).is_none());
    let img = Image::from_rgba(2, 2, vec![0; 16]).unwrap();
    assert_eq!((img.width(), img.height()), (2, 2));
    assert!(Image::from_rgba(0, 7, vec![]).is_some());
}

#[test]
fn click_crop_copies_the_pixels_under_the_rectangle() {
    let full = gradient(500, 400);
    let out = click_crop(&full, 450, 380);
    // left = min(250, 100) = 100, top = min(230, 100) = 100
    assert_eq!((out.width(), out.height()), (400, 300));
    let bytes = out.into_rgba();
    assert_eq!(bytes.len(), 400 * 300 * 4);
    assert_eq!(&bytes[0..4], &[100, 100, 200, 255]);
    let last = (299 * 400 + 399) * 4;
    assert_eq!(&bytes[last..last + 4], &[(499u32 % 256) as u8, (399u32 % 256) as u8, ((499 + 399) % 256) as u8, 255]);
}

#[test]
fn window_crop_copies_the_window_or_falls_back() {
    let full = gradient(8, 6);
    assert!(window_crop(&full, None).is_none());
    let out = window_crop(&full, Some(WindowBounds { x: 2, y: 1, width: 3, height: 2 })).unwrap();
    assert_eq!((out.width(), out.height()), (3, 2));
    let bytes = out.into_rgba();
    assert_eq!(bytes, vec![2, 1, 3, 255, 3, 1, 4, 255, 4, 1, 5, 255, 2, 2, 4, 255, 3, 2, 5, 255, 4, 2, 6, 255]);
}

#[test]
fn screenshot_names_and_paths() {
    assert_eq!(screenshot_file_name(0, "full"), "0_full.png");
    assert_eq!(screenshot_file_name(1234567, "window"), "1234567_window.png");
    let s = step_screenshots(12, false);
    assert_eq!(s.full_screen, "shots/12_full.png");
    assert_eq!(s.click_crop, "shots/12_click.png");
    assert_eq!(s.window_crop, "shots/12_window.png");
    assert!(!s.window_crop_fallback);
    assert!(step_screenshots(0, true).window_crop_fallback);
    let r = CaptureResult { screenshots: step_screenshots(usize::MAX, true) };
    assert_eq!(r.screenshots.full_screen, format!("shots/{}_full.png", usize::MAX));
}

#[test]
fn distinct_steps_use_distinct_files() {
    let mut seen = std::collections::HashSet::new();
    for i in [0usize, 1, 10, 11, 101, 110] {
        let s = step_screenshots(i, false);
        for p in [s.full_screen, s.click_crop, s.window_crop] {
            assert!(seen.insert(p));
        }
    }
}

#[test]
fn placeholder_paths_are_empty() {
    let s = placeholder_screenshots();
    assert!(s.full_screen.is_empty() && s.click_crop.is_empty() && s.window_crop.is_empty());
    assert!(s.window_crop_fallback);
}

#[test]
fn crop_step_gives_both_crops_and_the_paths() {
    let full = gradient(8, 6);
    let with_window = crop_step(3, &full, 4, 3, Some(WindowBounds { x: 1, y: 1, width: 2, height: 1 }));
    assert_eq!((with_window.click.width(), with_window.click.height()), (8, 6));
    let win = with_window.window.unwrap();
    assert_eq!(win.into_rgba(), vec![1, 1, 2, 255, 2, 1, 3, 255]);
    assert_eq!(with_window.screenshots.full_screen, "shots/3_full.png");
    assert_eq!(with_window.screenshots.click_crop, "shots/3_click.png");
    assert_eq!(with_window.screenshots.window_crop, "shots/3_window.png");
    assert!(!with_window.screenshots.window_crop_fallback);

    let without = crop_step(4, &full, 0, 0, None);
    assert!(without.window.is_none());
    assert!(without.screenshots.window_crop_fallback);
    assert_eq!(without.screenshots.window_crop, "shots/4_window.png");
}
