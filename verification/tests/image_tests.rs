use embedded_graphics::pixelcolor::Rgb565;
use lilygo_display::image::bmp_sizes_fit_check;
use lilygo_display::image::crab_image;
use lilygo_display::image::BmpError;

/// A 1x1 BMP file with 24 bits per pixel and one red pixel.
fn one_pixel_bmp() -> Vec<u8> {
    let mut data: Vec<u8> = Vec::new();
    // file header
    data.extend_from_slice(b"BM");
    data.extend_from_slice(&58u32.to_le_bytes()); // file size
    data.extend_from_slice(&0u32.to_le_bytes()); // reserved
    data.extend_from_slice(&54u32.to_le_bytes()); // pixel data offset
    // info header
    data.extend_from_slice(&40u32.to_le_bytes()); // header size
    data.extend_from_slice(&1i32.to_le_bytes()); // width
    data.extend_from_slice(&1i32.to_le_bytes()); // height
    data.extend_from_slice(&1u16.to_le_bytes()); // planes
    data.extend_from_slice(&24u16.to_le_bytes()); // bits per pixel
    data.extend_from_slice(&0u32.to_le_bytes()); // compression
    data.extend_from_slice(&4u32.to_le_bytes()); // image size
    data.extend_from_slice(&2835i32.to_le_bytes());
    data.extend_from_slice(&2835i32.to_le_bytes());
    data.extend_from_slice(&0u32.to_le_bytes());
    data.extend_from_slice(&0u32.to_le_bytes());
    // one row: B, G, R and one padding byte
    data.extend_from_slice(&[0, 0, 255, 0]);
    data
}

#[test]
fn crab_image_is_placed_at_24_0() {
    let data = one_pixel_bmp();
    let placed = crab_image(&data).expect("valid bitmap");
    assert_eq!(placed.top_left.x, 24);
    assert_eq!(placed.top_left.y, 0);
}

#[test]
fn crab_image_rejects_empty_data() {
    let err = crab_image(&[]).err().expect("empty data is no bitmap");
    assert!(matches!(err, BmpError::UnexpectedEndOfFile));
}

#[test]
fn crab_image_rejects_wrong_signature() {
    let mut data = one_pixel_bmp();
    data[0] = b'X';
    data[1] = b'Y';
    let err = crab_image(&data).err().expect("wrong signature");
    assert!(matches!(err, BmpError::InvalidFileSignature([b'X', b'Y'])));
}

#[test]
fn crab_image_rejects_unsupported_depth() {
    let mut data = one_pixel_bmp();
    data[28] = 42;
    let err = crab_image(&data).err().expect("42 bits per pixel");
    assert!(matches!(err, BmpError::UnsupportedBpp(42)));
}

#[test]
fn crab_image_error_text_names_the_error() {
    let err = crab_image(&[]).err().unwrap();
    assert_eq!(format!("{err:?}"), "UnexpectedEndOfFile");
}

#[test]
fn crab_image_is_the_parsed_image() {
    let data = one_pixel_bmp();
    let placed = crab_image(&data).unwrap();
    let expected = tinybmp::Bmp::<Rgb565>::from_slice(&data).unwrap();
    assert!(placed.image == expected);
    let mut shorter = data.clone();
    shorter.pop();
    assert!(crab_image(&shorter).is_err());
}

#[test]
fn sizes_fit_on_ordinary_headers() {
    assert!(bmp_sizes_fit_check(&one_pixel_bmp()));
    assert!(bmp_sizes_fit_check(&[]));
}

#[test]
fn sizes_fit_depends_on_pointer_width() {
    let mut data = one_pixel_bmp();
    // 0x40000000 colours: 4 * 2^30 bytes of colour table
    data[46..50].copy_from_slice(&0x4000_0000u32.to_le_bytes());
    assert_eq!(bmp_sizes_fit_check(&data), usize::BITS > 32);
    let mut wide = one_pixel_bmp();
    // width 2^30 with 32 bits per pixel: 2^35 bits per row
    wide[18..22].copy_from_slice(&0x4000_0000u32.to_le_bytes());
    wide[28..30].copy_from_slice(&32u16.to_le_bytes());
    assert_eq!(bmp_sizes_fit_check(&wide), usize::BITS > 32);
}

#[test]
fn sizes_fit_ignores_files_refused_earlier() {
    // no `BM` signature: parsing stops before any size is computed
    let mut data = one_pixel_bmp();
    data[0] = b'X';
    data[46..50].copy_from_slice(&0xffff_ffffu32.to_le_bytes());
    assert!(bmp_sizes_fit_check(&data));
    let err = crab_image(&data).err().unwrap();
    assert!(matches!(err, BmpError::InvalidFileSignature(_)));
}

#[test]
fn sizes_fit_row_only_checked_with_colour_table_present() {
    // huge width but the file is too short for its colour table
    let mut data = one_pixel_bmp();
    data[18..22].copy_from_slice(&0x4000_0000u32.to_le_bytes());
    data[28..30].copy_from_slice(&8u16.to_le_bytes());
    assert!(bmp_sizes_fit_check(&data));
    let err = crab_image(&data).err().unwrap();
    assert!(matches!(err, BmpError::UnexpectedEndOfFile));
}
