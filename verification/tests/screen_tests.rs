use color_clicker::screen::{region_request_is_ok, ScreenCapture, ScreenImage};

/// A `w` by `h` image whose pixel (x, y) is [x, y, x + y, 255].
fn image(w: u32, h: u32) -> ScreenImage {
    let mut rgba = Vec::new();
    for y in 0..h {
        for x in 0..w {
            rgba.extend_from_slice(&[x as u8, y as u8, (x + y) as u8, 255]);
        }
    }
    ScreenImage { width: w, height: h, rgba }
}

#[test]
fn cuts_inner_region() {
    let img = image(5, 4);
    let r = ScreenCapture::capture_region(&img, 1, 2, 2, 2).unwrap();
    assert_eq!(r, vec![1, 2, 3, 255, 2, 2, 4, 255, 1, 3, 4, 255, 2, 3, 5, 255]);
}

#[test]
fn clips_region_to_image() {
    let img = image(3, 3);
    let r = ScreenCapture::capture_region(&img, -1, 2, 3, 5).unwrap();
    // columns 0..2 of row 2
    assert_eq!(r, vec![0, 2, 2, 255, 1, 2, 3, 255]);
}

#[test]
fn whole_image_region() {
    let img = image(4, 3);
    let r = ScreenCapture::capture_region(&img, 0, 0, 4, 3).unwrap();
    assert_eq!(r, img.rgba);
}

#[test]
fn region_outside_image_is_none() {
    let img = image(4, 3);
    assert_eq!(ScreenCapture::capture_region(&img, 4, 0, 2, 2), None);
    assert_eq!(ScreenCapture::capture_region(&img, 0, 3, 2, 2), None);
    assert_eq!(ScreenCapture::capture_region(&img, 1, 1, 0, 2), None);
    // ends left of the image, and starts below it
    assert_eq!(ScreenCapture::capture_region(&img, -100, 10, 10, 2), None);
    // ends left of or above the image
    assert_eq!(ScreenCapture::capture_region(&img, -100, 0, 10, 2), None);
    assert_eq!(ScreenCapture::capture_region(&img, 0, -50, 2, 20), None);
}

#[test]
fn region_request_checks() {
    assert!(region_request_is_ok(1, 2, 2, 2, 5, 4));
    // empty regions are fine
    assert!(region_request_is_ok(10, 10, 2, 2, 5, 4));
    assert!(region_request_is_ok(-100, 10, 10, 2, 4, 3));
    // ends left of the image while its rows overlap it: empty
    assert!(region_request_is_ok(-100, 0, 10, 2, 4, 3));
    // the end overflows i32
    assert!(!region_request_is_ok(i32::MAX, 0, 1, 1, 4, 3));
}
