use rexif::{ExifData, EXIF_HEADER};

#[test]
fn test_serialize_empty() {
    let exif = ExifData::new("image/jpeg", vec![], false);
    let tiff_header = [b'M', b'M', 0, 42, 0, 0, 0, 8, 0, 0, 0, 0, 0, 0];
    assert_eq!(exif.serialize().unwrap(), [&EXIF_HEADER[..], &tiff_header[..]].concat());
}
