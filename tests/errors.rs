use rexif::{
    detect_type, find_embedded_tiff_in_jpeg, parse_buffer_quiet, parse_tiff, ExifError, FileType,
};

#[test]
fn short_input_is_unknown_type() {
    let (res, _) = parse_buffer_quiet(&[b'M', b'M', 0, 42]);
    assert_eq!(res, Err(ExifError::FileTypeUnknown));
    assert_eq!(detect_type(&[0u8; 20]), FileType::Unknown);
}

#[test]
fn tiff_shorter_than_header_is_truncated() {
    let mut w = vec![];
    let (res, le) = parse_tiff(&[b'I', b'I', 42, 0, 8], &mut w);
    assert_eq!(res, Err(ExifError::TiffTruncated));
    assert!(!le);
}

#[test]
fn bad_preamble_is_reported_in_hex() {
    let mut w = vec![];
    let (res, _) = parse_tiff(&[0x12, 0xab, 0, 0x2a, 0, 0, 0, 8], &mut w);
    assert_eq!(res, Err(ExifError::TiffBadPreamble("Preamble is 12 ab 0 2a".to_string())));
}

#[test]
fn directory_past_end_is_exif_ifd_truncated() {
    let bytes = vec![b'M', b'M', 0, 42, 0, 0, 0, 200, 0, 0, 0];
    let (res, _) = parse_buffer_quiet(&bytes);
    assert!(matches!(res, Err(ExifError::ExifIfdTruncated(_))));
}

#[test]
fn directory_listing_past_end_is_exif_ifd_truncated() {
    let bytes = vec![b'M', b'M', 0, 42, 0, 0, 0, 8, 0, 3, 0, 0, 0, 0];
    let (res, _) = parse_buffer_quiet(&bytes);
    assert_eq!(res, Err(ExifError::ExifIfdTruncated("Truncated at dir listing".to_string())));
}

#[test]
fn missing_next_pointer_is_ifd_truncated() {
    let mut bytes = vec![b'M', b'M', 0, 42, 0, 0, 0, 8, 0, 1];
    bytes.extend_from_slice(&[0x01, 0x12, 0, 3, 0, 0, 0, 1, 0, 1, 0, 0]);
    let (res, _) = parse_buffer_quiet(&bytes);
    assert_eq!(res, Err(ExifError::IfdTruncated));
}

#[test]
fn subdirectory_past_end_is_reported() {
    let mut bytes = vec![b'M', b'M', 0, 42, 0, 0, 0, 8, 0, 1];
    bytes.extend_from_slice(&[0x87, 0x69, 0, 4, 0, 0, 0, 1, 0, 0, 1, 0]);
    bytes.extend_from_slice(&[0, 0, 0, 0]);
    let (res, _) = parse_buffer_quiet(&bytes);
    assert_eq!(res, Err(ExifError::ExifIfdTruncated("Exif SubIFD goes past EOF".to_string())));
}

#[test]
fn jpeg_without_exif_segment() {
    let bytes = vec![0xff, 0xd8, 0xff, 0xe0, 0, 16, b'J', b'F', b'I', b'F', 0, 1, 1, 0, 0, 1, 0, 1, 0, 0, 0xff, 0xd9, 0, 2];
    let (res, _) = parse_buffer_quiet(&bytes);
    assert!(matches!(res, Err(ExifError::JpegWithoutExif(_))));
    assert!(find_embedded_tiff_in_jpeg(&bytes).is_err());
}

#[test]
fn exif_segment_is_found_after_other_segments() {
    let mut bytes = vec![0xff, 0xd8, 0xff, 0xe0, 0, 7, b'J', b'F', b'I', b'F', 0];
    bytes.extend_from_slice(&[0xff, 0xe1, 0, 12]);
    bytes.extend_from_slice(b"Exif\0\0");
    bytes.extend_from_slice(&[1, 2, 3, 4]);
    assert_eq!(detect_type(&bytes), FileType::JPEG);
    assert_eq!(find_embedded_tiff_in_jpeg(&bytes), Ok((21, 4)));
}

#[test]
fn arbitrary_bytes_never_panic() {
    let mut seed: u32 = 12345;
    for len in 0..300usize {
        let mut bytes = Vec::with_capacity(len);
        for _ in 0..len {
            seed = seed.wrapping_mul(1103515245).wrapping_add(12345);
            bytes.push((seed >> 16) as u8);
        }
        if len > 4 {
            bytes[0] = b'I';
            bytes[1] = b'I';
            bytes[2] = 42;
            bytes[3] = 0;
        }
        let _ = parse_buffer_quiet(&bytes);
        for cut in 0..bytes.len() {
            let _ = parse_buffer_quiet(&bytes[..cut]);
        }
    }
}

#[test]
fn errors_describe_themselves() {
    assert_eq!(ExifError::IfdTruncated.message(), "TIFF IFD truncated");
    assert_eq!(
        ExifError::TiffBadPreamble("Preamble is 1 2 3 4".to_string()).message(),
        "TIFF with bad preamble: Preamble is 1 2 3 4"
    );
}
