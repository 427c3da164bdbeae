use blobstore::image::Dimensions;
use blobstore::image::ImageFormat;
use blobstore::image::needs_thumbnail;
use blobstore::image::thumbnail_dimensions;
use blobstore::introspect::introspect;

fn png_bytes(width: u32, height: u32) -> Vec<u8> {
    let mut v: Vec<u8> = vec![0x89, 0x50, 0x4e, 0x47, 0x0d, 0x0a, 0x1a, 0x0a];
    v.extend_from_slice(&[0, 0, 0, 13]);
    v.extend_from_slice(b"IHDR");
    v.extend_from_slice(&width.to_be_bytes());
    v.extend_from_slice(&height.to_be_bytes());
    v
}

fn sof_segment(width: u16, height: u16) -> Vec<u8> {
    let mut v: Vec<u8> = vec![0xff, 0xc0, 0x00, 0x0b, 8];
    v.extend_from_slice(&height.to_be_bytes());
    v.extend_from_slice(&width.to_be_bytes());
    v.extend_from_slice(&[1, 0]);
    v
}

fn app1_segment(tiff: &[u8]) -> Vec<u8> {
    let mut v: Vec<u8> = vec![0xff, 0xe1];
    let length = (2 + 6 + tiff.len()) as u16;
    v.extend_from_slice(&length.to_be_bytes());
    v.extend_from_slice(b"Exif\0\0");
    v.extend_from_slice(tiff);
    v
}

fn jpeg_plain(width: u16, height: u16) -> Vec<u8> {
    let mut v: Vec<u8> = vec![0xff, 0xd8];
    v.extend_from_slice(&sof_segment(width, height));
    v
}

fn jpeg_with_tiff(tiff: &[u8], width: u16, height: u16) -> Vec<u8> {
    let mut v: Vec<u8> = vec![0xff, 0xd8];
    v.extend_from_slice(&app1_segment(tiff));
    v.extend_from_slice(&sof_segment(width, height));
    v
}

fn tiff_orientation_le(orientation: u16) -> Vec<u8> {
    let mut t: Vec<u8> = vec![0x49, 0x49, 42, 0, 8, 0, 0, 0];
    t.extend_from_slice(&[1, 0]);
    t.extend_from_slice(&[0x12, 0x01, 3, 0, 1, 0, 0, 0]);
    t.extend_from_slice(&orientation.to_le_bytes());
    t.extend_from_slice(&[0, 0]);
    t.extend_from_slice(&[0, 0, 0, 0]);
    t
}

fn tiff_orientation_be(orientation: u16) -> Vec<u8> {
    let mut t: Vec<u8> = vec![0x4d, 0x4d, 0, 42, 0, 0, 0, 8];
    t.extend_from_slice(&[0, 1]);
    t.extend_from_slice(&[0x01, 0x12, 0, 3, 0, 0, 0, 1]);
    t.extend_from_slice(&orientation.to_be_bytes());
    t.extend_from_slice(&[0, 0]);
    t.extend_from_slice(&[0, 0, 0, 0]);
    t
}

#[test]
fn opaque_bytes_are_not_an_image() {
    assert!(introspect(&b"just some text".to_vec()).is_none());
    assert!(introspect(&vec![]).is_none());
    assert!(introspect(&vec![0xff, 0xd8]).is_none());
}

#[test]
fn png_dimensions_are_reported() {
    let meta = introspect(&png_bytes(640, 480)).expect("a PNG header");
    assert_eq!(meta.format, ImageFormat::Png);
    assert_eq!(meta.dimensions, Dimensions { width: 640, height: 480 });
    assert!(meta.exif.is_none());
}

#[test]
fn png_with_zero_dimension_is_rejected() {
    assert!(introspect(&png_bytes(0, 480)).is_none());
    assert!(introspect(&png_bytes(640, 0)).is_none());
}

#[test]
fn jpeg_dimensions_without_exif() {
    let meta = introspect(&jpeg_plain(200, 100)).expect("a JPEG frame");
    assert_eq!(meta.format, ImageFormat::Jpeg);
    assert_eq!(meta.dimensions, Dimensions { width: 200, height: 100 });
    assert!(meta.exif.is_none());
}

#[test]
fn quarter_turn_orientation_swaps_dimensions() {
    let bytes = jpeg_with_tiff(&tiff_orientation_le(6), 200, 100);
    let meta = introspect(&bytes).expect("a JPEG frame with EXIF");
    assert_eq!(meta.dimensions, Dimensions { width: 100, height: 200 });
    let exif = meta.exif.expect("an EXIF block");
    assert_eq!(exif.orientation, Some(6));
}

#[test]
fn upright_orientation_keeps_dimensions() {
    let bytes = jpeg_with_tiff(&tiff_orientation_le(1), 200, 100);
    let meta = introspect(&bytes).expect("a JPEG frame with EXIF");
    assert_eq!(meta.dimensions, Dimensions { width: 200, height: 100 });
    assert_eq!(meta.exif.expect("an EXIF block").orientation, Some(1));
}

#[test]
fn mirrored_quarter_turns_also_swap() {
    for orientation in [5u16, 7, 8] {
        let bytes = jpeg_with_tiff(&tiff_orientation_le(orientation), 320, 240);
        let meta = introspect(&bytes).expect("a JPEG frame with EXIF");
        assert_eq!(meta.dimensions, Dimensions { width: 240, height: 320 });
    }
    for orientation in [2u16, 3, 4] {
        let bytes = jpeg_with_tiff(&tiff_orientation_le(orientation), 320, 240);
        let meta = introspect(&bytes).expect("a JPEG frame with EXIF");
        assert_eq!(meta.dimensions, Dimensions { width: 320, height: 240 });
    }
}

#[test]
fn big_endian_tiff_is_read() {
    let bytes = jpeg_with_tiff(&tiff_orientation_be(6), 200, 100);
    let meta = introspect(&bytes).expect("a JPEG frame with EXIF");
    assert_eq!(meta.dimensions, Dimensions { width: 100, height: 200 });
    assert_eq!(meta.exif.expect("an EXIF block").orientation, Some(6));
}

#[test]
fn malformed_tiff_degrades_to_dimensions_only() {
    let bytes = jpeg_with_tiff(b"XXYYZZ\0\0", 200, 100);
    let meta = introspect(&bytes).expect("a JPEG frame");
    assert_eq!(meta.dimensions, Dimensions { width: 200, height: 100 });
    assert!(meta.exif.is_none());
}

#[test]
fn camera_strings_are_extracted() {
    let mut t: Vec<u8> = vec![0x49, 0x49, 42, 0, 8, 0, 0, 0];
    t.extend_from_slice(&[2, 0]);
    // Make, text kind, two bytes inline: "X" and its terminator
    t.extend_from_slice(&[0x0f, 0x01, 2, 0, 2, 0, 0, 0]);
    t.extend_from_slice(&[b'X', 0, 0, 0]);
    // orientation 1
    t.extend_from_slice(&[0x12, 0x01, 3, 0, 1, 0, 0, 0, 1, 0, 0, 0]);
    t.extend_from_slice(&[0, 0, 0, 0]);
    let meta = introspect(&jpeg_with_tiff(&t, 64, 64)).expect("a JPEG frame");
    let exif = meta.exif.expect("an EXIF block");
    assert_eq!(exif.make.as_deref(), Some("X"));
    assert_eq!(exif.orientation, Some(1));
    assert!(exif.model.is_none());
}

#[test]
fn long_camera_string_is_read_from_its_offset() {
    let mut t: Vec<u8> = vec![0x49, 0x49, 42, 0, 8, 0, 0, 0];
    t.extend_from_slice(&[1, 0]);
    // Make, text kind, six bytes at offset 26
    t.extend_from_slice(&[0x0f, 0x01, 2, 0, 6, 0, 0, 0, 26, 0, 0, 0]);
    t.extend_from_slice(&[0, 0, 0, 0]);
    t.extend_from_slice(b"Nikon\0");
    assert_eq!(t.len(), 32);
    let meta = introspect(&jpeg_with_tiff(&t, 64, 64)).expect("a JPEG frame");
    let exif = meta.exif.expect("an EXIF block");
    assert_eq!(exif.make.as_deref(), Some("Nikon"));
}

#[test]
fn truncated_string_offset_drops_only_that_field() {
    let mut t: Vec<u8> = vec![0x49, 0x49, 42, 0, 8, 0, 0, 0];
    t.extend_from_slice(&[2, 0]);
    // Make points far out of bounds
    t.extend_from_slice(&[0x0f, 0x01, 2, 0, 6, 0, 0, 0, 200, 0, 0, 0]);
    // orientation 3 stays readable
    t.extend_from_slice(&[0x12, 0x01, 3, 0, 1, 0, 0, 0, 3, 0, 0, 0]);
    t.extend_from_slice(&[0, 0, 0, 0]);
    let meta = introspect(&jpeg_with_tiff(&t, 64, 64)).expect("a JPEG frame");
    let exif = meta.exif.expect("an EXIF block");
    assert!(exif.make.is_none());
    assert_eq!(exif.orientation, Some(3));
}

#[test]
fn exposure_and_iso_come_from_camera_directory() {
    let mut t: Vec<u8> = vec![0x49, 0x49, 42, 0, 8, 0, 0, 0];
    // first directory: one entry pointing at the camera directory (offset 26)
    t.extend_from_slice(&[1, 0]);
    t.extend_from_slice(&[0x69, 0x87, 4, 0, 1, 0, 0, 0, 26, 0, 0, 0]);
    t.extend_from_slice(&[0, 0, 0, 0]);
    // camera directory at 26: exposure time (ratio at offset 56) and ISO
    t.extend_from_slice(&[2, 0]);
    t.extend_from_slice(&[0x9a, 0x82, 5, 0, 1, 0, 0, 0, 56, 0, 0, 0]);
    t.extend_from_slice(&[0x27, 0x88, 3, 0, 1, 0, 0, 0, 200, 0, 0, 0]);
    t.extend_from_slice(&[0, 0, 0, 0]);
    // the ratio 1/250 at offset 56
    t.extend_from_slice(&1u32.to_le_bytes());
    t.extend_from_slice(&250u32.to_le_bytes());
    assert_eq!(t.len(), 64);
    let meta = introspect(&jpeg_with_tiff(&t, 64, 64)).expect("a JPEG frame");
    let exif = meta.exif.expect("an EXIF block");
    let exposure = exif.exposure_time.expect("an exposure time");
    assert_eq!(exposure.numerator, 1);
    assert_eq!(exposure.denominator, 250);
    assert_eq!(exif.iso, Some(200));
    assert!(exif.f_number.is_none());
}

#[test]
fn gps_latitude_converts_to_decimal_degrees() {
    let mut t: Vec<u8> = vec![0x49, 0x49, 42, 0, 8, 0, 0, 0];
    // first directory: one entry pointing at the GPS directory (offset 26)
    t.extend_from_slice(&[1, 0]);
    t.extend_from_slice(&[0x25, 0x88, 4, 0, 1, 0, 0, 0, 26, 0, 0, 0]);
    t.extend_from_slice(&[0, 0, 0, 0]);
    // GPS directory at 26: southern reference, then the 40 deg 30 min triple
    t.extend_from_slice(&[2, 0]);
    t.extend_from_slice(&[0x01, 0x00, 2, 0, 2, 0, 0, 0]);
    t.extend_from_slice(&[b'S', 0, 0, 0]);
    t.extend_from_slice(&[0x02, 0x00, 5, 0, 3, 0, 0, 0, 56, 0, 0, 0]);
    t.extend_from_slice(&[0, 0, 0, 0]);
    // the triple 40/1, 30/1, 0/1 at offset 56
    for value in [40u32, 1, 30, 1, 0, 1] {
        t.extend_from_slice(&value.to_le_bytes());
    }
    assert_eq!(t.len(), 80);
    let meta = introspect(&jpeg_with_tiff(&t, 64, 64)).expect("a JPEG frame");
    let exif = meta.exif.expect("an EXIF block");
    let lat = exif.gps_latitude.expect("a latitude");
    // 40 + 30/60 = 40.5 degrees south, held exactly over the common denominator
    assert!(lat.negative);
    assert_eq!(lat.numerator, 145800);
    assert_eq!(lat.denominator, 3600);
    assert_eq!(lat.numerator as f64 / lat.denominator as f64, 40.5);
    assert!(exif.gps_longitude.is_none());
}

#[test]
fn thumbnail_threshold() {
    assert!(!needs_thumbnail(Dimensions { width: 200, height: 100 }));
    assert!(!needs_thumbnail(Dimensions { width: 1200, height: 400 }));
    assert!(needs_thumbnail(Dimensions { width: 1201, height: 400 }));
    assert!(needs_thumbnail(Dimensions { width: 1200, height: 401 }));
    assert!(needs_thumbnail(Dimensions { width: 100, height: 800 }));
}

#[test]
fn thumbnail_dimensions_fit_bounds_and_keep_aspect() {
    let wide = thumbnail_dimensions(Dimensions { width: 2400, height: 100 });
    assert_eq!(wide, Dimensions { width: 1200, height: 50 });
    let tall = thumbnail_dimensions(Dimensions { width: 100, height: 800 });
    assert_eq!(tall, Dimensions { width: 50, height: 400 });
    let nearly_square = thumbnail_dimensions(Dimensions { width: 1201, height: 400 });
    assert_eq!(nearly_square, Dimensions { width: 1200, height: 399 });
    let sliver = thumbnail_dimensions(Dimensions { width: 100000, height: 1 });
    assert_eq!(sliver, Dimensions { width: 1200, height: 1 });
}
