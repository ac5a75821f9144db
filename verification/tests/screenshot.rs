use sysenix::screenshot::{png_dimensions, ScreenshotError};

fn header(width: u32, height: u32) -> [u8; 24] {
    let mut h = [0u8; 24];
    h[..8].copy_from_slice(b"\x89PNG\r\n\x1a\n");
    h[8..12].copy_from_slice(&13u32.to_be_bytes());
    h[12..16].copy_from_slice(b"IHDR");
    h[16..20].copy_from_slice(&width.to_be_bytes());
    h[20..24].copy_from_slice(&height.to_be_bytes());
    h
}

#[test]
fn reads_big_endian_dimensions() {
    assert!(matches!(png_dimensions(&header(2880, 1800)), Ok((2880, 1800))));
    assert!(matches!(png_dimensions(&header(1, 1)), Ok((1, 1))));
    assert!(matches!(
        png_dimensions(&header(u32::MAX, 0x01020304)),
        Ok((u32::MAX, 0x01020304))
    ));
}

#[test]
fn refuses_a_file_that_is_not_png() {
    let mut h = header(10, 10);
    h[1] = b'J';
    assert!(matches!(png_dimensions(&h), Err(ScreenshotError::NotPng)));
    let mut h = header(10, 10);
    h[12..16].copy_from_slice(b"IDAT");
    assert!(matches!(png_dimensions(&h), Err(ScreenshotError::NotPng)));
    assert!(matches!(png_dimensions(&[0u8; 24]), Err(ScreenshotError::NotPng)));
}

#[test]
fn refuses_an_image_without_area() {
    assert!(matches!(png_dimensions(&header(0, 10)), Err(ScreenshotError::InvalidDimensions)));
    assert!(matches!(png_dimensions(&header(10, 0)), Err(ScreenshotError::InvalidDimensions)));
    assert_eq!(ScreenshotError::NotPng.message(), "Screenshot is not a PNG image.");
    assert_eq!(
        ScreenshotError::InvalidDimensions.message(),
        "Screenshot has invalid dimensions."
    );
}
