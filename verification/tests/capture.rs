use window_core::capture::{ReadPixels, Snapshot};
use window_core::window::CustomWindow;

#[test]
fn snap_rect_fills_a_short_buffer_with_zeros() {
    let window = CustomWindow::new();
    let mut out = vec![9u8, 8, 7];
    let request = window.snap_rect(&mut out, 5, 6, 2, 2);
    assert_eq!(request, ReadPixels { x: 5, y: 6, width: 2, height: 2 });
    assert_eq!(out, vec![9, 8, 7, 0, 0, 0, 0, 0, 0, 0, 0, 0]);
}

#[test]
fn snap_rect_cuts_a_long_buffer() {
    let window = CustomWindow::new();
    let mut out: Vec<u8> = (0..20).collect();
    window.snap_rect(&mut out, 0, 0, 2, 1);
    assert_eq!(out, vec![0, 1, 2, 3, 4, 5]);
}

#[test]
fn snap_rect_leaves_a_fitting_buffer() {
    let window = CustomWindow::new();
    let mut out: Vec<u8> = (0..12).collect();
    window.snap_rect(&mut out, 1, 1, 4, 1);
    assert_eq!(out, (0..12).collect::<Vec<u8>>());
    window.snap_rect(&mut out, 1, 1, 4, 1);
    assert_eq!(out, (0..12).collect::<Vec<u8>>());
}

#[test]
fn snap_rect_of_nothing_empties_the_buffer() {
    let window = CustomWindow::new();
    let mut out = vec![1u8, 2, 3];
    window.snap_rect(&mut out, 0, 0, 0, 7);
    assert_eq!(out, vec![]);
}

#[test]
fn snap_asks_for_the_whole_framebuffer() {
    let window = CustomWindow::new();
    let mut out = Vec::new();
    let request = window.snap(&mut out, 800, 600);
    assert_eq!(request, ReadPixels { x: 0, y: 0, width: 800, height: 600 });
    assert_eq!(out.len(), 800 * 600 * 3);
    assert!(out.iter().all(|byte| *byte == 0));
}

#[test]
fn snap_image_turns_the_rows_upside_down() {
    let window = CustomWindow::new();
    let bottom_first = vec![
        1, 2, 3, 4, 5, 6, // bottom row
        7, 8, 9, 10, 11, 12, // middle row
        13, 14, 15, 16, 17, 18, // top row
    ];
    let picture = window.snap_image(2, 3, bottom_first);
    assert_eq!(
        picture,
        Snapshot {
            width: 2,
            height: 3,
            pixels: vec![13, 14, 15, 16, 17, 18, 7, 8, 9, 10, 11, 12, 1, 2, 3, 4, 5, 6],
        }
    );
}

#[test]
fn snap_image_keeps_the_order_within_a_row() {
    let window = CustomWindow::new();
    let picture = window.snap_image(3, 1, vec![1, 2, 3, 4, 5, 6, 7, 8, 9]);
    assert_eq!(picture.pixels, vec![1, 2, 3, 4, 5, 6, 7, 8, 9]);
}

#[test]
fn snap_image_of_nothing_is_empty() {
    let window = CustomWindow::new();
    let picture = window.snap_image(0, 0, Vec::new());
    assert_eq!(picture, Snapshot { width: 0, height: 0, pixels: vec![] });
    let flat = window.snap_image(4, 0, Vec::new());
    assert_eq!(flat.pixels, vec![]);
}

#[test]
fn flipping_twice_gives_the_picture_back() {
    let window = CustomWindow::new();
    let pixels: Vec<u8> = (0..60).collect();
    let once = window.snap_image(4, 5, pixels.clone());
    assert_ne!(once.pixels, pixels);
    let twice = window.snap_image(4, 5, once.pixels);
    assert_eq!(twice.pixels, pixels);
}

#[test]
fn capturing_twice_from_the_same_readback_gives_the_same_picture() {
    let window = CustomWindow::new();
    let readback: Vec<u8> = (0..24).collect();
    let mut first = vec![0xAAu8; 100];
    let mut second = Vec::new();
    let first_request = window.snap_rect(&mut first, 0, 0, 4, 2);
    let second_request = window.snap_rect(&mut second, 0, 0, 4, 2);
    assert_eq!(first_request, second_request);
    first.copy_from_slice(&readback);
    second.copy_from_slice(&readback);
    assert_eq!(window.snap_image(4, 2, first), window.snap_image(4, 2, second));
}

#[test]
fn snap_image_without_rows_is_empty_however_wide() {
    let window = CustomWindow::new();
    let wide = window.snap_image(u32::MAX, 0, Vec::new());
    assert_eq!(wide, Snapshot { width: u32::MAX, height: 0, pixels: vec![] });
    let tall = window.snap_image(0, u32::MAX, Vec::new());
    assert_eq!(tall, Snapshot { width: 0, height: u32::MAX, pixels: vec![] });
}

#[test]
fn snap_image_of_one_pixel_is_that_pixel() {
    let window = CustomWindow::new();
    let picture = window.snap_image(1, 1, vec![10, 20, 30]);
    assert_eq!(picture, Snapshot { width: 1, height: 1, pixels: vec![10, 20, 30] });
}
