use color_clicker::icon::load_icon;

const TWO_PIXEL_PNG: [u8; 74] = [
    0x89, 0x50, 0x4e, 0x47, 0xd, 0xa, 0x1a, 0xa, 0x0, 0x0, 0x0, 0xd, 0x49, 0x48, 0x44, 0x52, 0x0,
    0x0, 0x0, 0x2, 0x0, 0x0, 0x0, 0x1, 0x8, 0x6, 0x0, 0x0, 0x0, 0xf4, 0x22, 0x7f, 0x8a, 0x0, 0x0,
    0x0, 0x11, 0x49, 0x44, 0x41, 0x54, 0x78, 0x9c, 0x63, 0xe0, 0x12, 0x91, 0xfb, 0xaf, 0x61, 0x64,
    0xd3, 0x0, 0x0, 0x8, 0xc2, 0x2, 0x52, 0x6, 0xcb, 0x66, 0xbe, 0x0, 0x0, 0x0, 0x0, 0x49, 0x45,
    0x4e, 0x44, 0xae, 0x42, 0x60, 0x82,
];

#[test]
fn decodes_png_icon() {
    let icon = load_icon(&TWO_PIXEL_PNG).expect("icon decodes");
    assert_eq!(icon.width, 2);
    assert_eq!(icon.height, 1);
    assert_eq!(icon.rgba, vec![10, 20, 30, 255, 40, 50, 60, 128]);
}

#[test]
fn rejects_non_image_bytes() {
    assert!(load_icon(b"not an image").is_none());
    assert!(load_icon(&[]).is_none());
}
