use bismuth::texture::{DecodeError, MaterialTexture};

/// A one-pixel white PNG.
const WHITE_PIXEL_PNG: [u8; 68] = [
    137, 80, 78, 71, 13, 10, 26, 10, 0, 0, 0, 13, 73, 72, 68, 82, 0, 0, 0, 1, 0, 0, 0, 1, 8, 6, 0,
    0, 0, 31, 21, 196, 137, 0, 0, 0, 11, 73, 68, 65, 84, 120, 156, 99, 248, 15, 4, 0, 9, 251, 3,
    253, 251, 94, 107, 43, 0, 0, 0, 0, 73, 69, 78, 68, 174, 66, 96, 130,
];

#[test]
fn decodes_a_one_pixel_white_png() {
    let material = MaterialTexture::from_bytes(&WHITE_PIXEL_PNG).expect("a well-formed image");
    assert_eq!(material.image.width, 1);
    assert_eq!(material.image.height, 1);
    assert_eq!(material.image.pixels, vec![255, 255, 255, 255]);
    assert_eq!(material.upload.bytes_per_row, 4);
    assert_eq!(material.upload.rows_per_image, 1);
    assert_eq!(material.upload.mip_level_count, 1);
    assert_eq!(material.upload.sample_count, 1);
}

#[test]
fn malformed_bytes_report_a_decode_error() {
    let result = MaterialTexture::from_bytes(&[0, 1, 2, 3]);
    assert_eq!(result.unwrap_err(), DecodeError::MalformedImage);
}

#[test]
fn empty_bytes_report_a_decode_error() {
    let result = MaterialTexture::from_bytes(&[]);
    assert_eq!(result.unwrap_err(), DecodeError::MalformedImage);
}
