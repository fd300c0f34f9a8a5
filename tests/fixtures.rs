use rexif::entry::ExifEntry;
use rexif::parse_buffer_quiet;
use rexif::{ExifData, ExifError, ExifTag, IfdEntry, IfdFormat, IfdKind, Namespace, TagValue};

/// Big-endian TIFF whose top-level directory points at a GPS directory holding a
/// latitude reference "N" and a latitude of 1/1, 2/1, 3/1.
fn gps_tiff() -> Vec<u8> {
    let mut v = vec![b'M', b'M', 0, 42, 0, 0, 0, 8];
    // top-level directory: one GPS pointer record, then the next-directory position
    v.extend_from_slice(&[0, 1]);
    v.extend_from_slice(&[0x88, 0x25, 0, 4, 0, 0, 0, 1, 0, 0, 0, 26]);
    v.extend_from_slice(&[0, 0, 0, 0]);
    // GPS directory at 26
    v.extend_from_slice(&[0, 2]);
    v.extend_from_slice(&[0, 1, 0, 2, 0, 0, 0, 2, b'N', 0, 0, 0]);
    v.extend_from_slice(&[0, 2, 0, 5, 0, 0, 0, 3, 0, 0, 0, 56]);
    v.extend_from_slice(&[0, 0, 0, 0]);
    // latitude data at 56
    for n in [1u8, 2, 3] {
        v.extend_from_slice(&[0, 0, 0, n, 0, 0, 0, 1]);
    }
    v
}

/// Big-endian TIFF with a single Orientation record holding `value`.
fn orientation_tiff(value: u8) -> Vec<u8> {
    let mut v = vec![b'M', b'M', 0, 42, 0, 0, 0, 8, 0, 1];
    v.extend_from_slice(&[0x01, 0x12, 0, 3, 0, 0, 0, 1, 0, value, 0, 0]);
    v.extend_from_slice(&[0, 0, 0, 0]);
    v
}

/// A JPEG stream whose Exif segment holds `tiff`.
fn jpeg_with(tiff: &[u8]) -> Vec<u8> {
    let size = (tiff.len() + 8) as u16;
    let mut v = vec![0xff, 0xd8, 0xff, 0xe1];
    v.extend_from_slice(&size.to_be_bytes());
    v.extend_from_slice(b"Exif\0\0");
    v.extend_from_slice(tiff);
    v
}

fn record(tag: u16, format: IfdFormat, count: u32, data: Vec<u8>, kind: IfdKind) -> ExifEntry {
    let ifd = IfdEntry {
        namespace: Namespace::Standard,
        tag,
        format,
        count,
        data: data.clone(),
        ifd_data: data,
        ext_data: vec![],
        le: false,
    };
    ExifEntry {
        namespace: Namespace::Standard,
        ifd,
        tag: rexif::exif::tag_from_code(tag),
        value: TagValue::Undefined(vec![], false),
        unit: String::new(),
        value_more_readable: String::new(),
        kind,
    }
}

#[test]
fn empty_big_endian_tiff_round_trips() {
    let bytes = vec![b'M', b'M', 0, 42, 0, 0, 0, 8, 0, 0, 0, 0, 0, 0];
    let (res, warnings) = parse_buffer_quiet(&bytes);
    let data = res.unwrap();
    assert!(data.entries.is_empty());
    assert!(warnings.is_empty());
    assert_eq!(data.mime, "image/tiff");
    assert!(!data.le);
    assert_eq!(data.serialize().unwrap(), bytes);
}

#[test]
fn jpeg_orientation_decodes_to_readable_name() {
    let bytes = jpeg_with(&orientation_tiff(1));
    let (res, warnings) = parse_buffer_quiet(&bytes);
    let data = res.unwrap();
    assert!(warnings.is_empty());
    assert_eq!(data.mime, "image/jpeg");
    assert_eq!(data.entries.len(), 1);
    let e = &data.entries[0];
    assert_eq!(e.tag, ExifTag::Orientation);
    assert_eq!(e.value, TagValue::U16(vec![1]));
    assert_eq!(e.value_more_readable, "Straight");
    assert_ne!(e.value_more_readable, "1");
    assert_eq!(e.kind, IfdKind::Ifd0);
}

#[test]
fn undefined_orientation_code_is_named_unknown() {
    let (res, _) = parse_buffer_quiet(&orientation_tiff(7));
    let data = res.unwrap();
    assert_eq!(data.entries[0].value_more_readable, "Unknown (7)");
}

#[test]
fn jpeg_serialization_is_signature_and_tiff() {
    let tiff = orientation_tiff(1);
    let (res, _) = parse_buffer_quiet(&jpeg_with(&tiff));
    let out = res.unwrap().serialize().unwrap();
    assert_eq!(out, [&b"Exif\0\0"[..], &tiff[..]].concat());
}

#[test]
fn short_record_data_decodes_as_invalid() {
    let mut warnings = vec![];
    let ifd = IfdEntry {
        namespace: Namespace::Standard,
        tag: 0x0112,
        format: IfdFormat::U16,
        count: 3,
        data: vec![0, 1, 0, 2],
        ifd_data: vec![0, 1, 0, 2],
        ext_data: vec![],
        le: false,
    };
    let e = rexif::tiff::parse_exif_entry(ifd, &mut warnings, IfdKind::Ifd0);
    assert_eq!(e.value, TagValue::Invalid(vec![0, 1, 0, 2], false, 3, 3));
    assert_eq!(e.value_more_readable, "");
    assert_eq!(warnings.len(), 1);
}

#[test]
fn record_past_end_is_dropped_and_siblings_kept() {
    // two records: an orientation, and a 16-byte undefined blob whose offset lies past the end
    let mut v = vec![b'I', b'I', 42, 0, 8, 0, 0, 0, 2, 0];
    v.extend_from_slice(&[0x12, 0x01, 3, 0, 1, 0, 0, 0, 6, 0, 0, 0]);
    v.extend_from_slice(&[0x7c, 0x92, 7, 0, 16, 0, 0, 0, 0xff, 0, 0, 0]);
    v.extend_from_slice(&[0, 0, 0, 0]);
    let (res, _) = parse_buffer_quiet(&v);
    let data = res.unwrap();
    assert!(data.le);
    assert_eq!(data.entries.len(), 1);
    assert_eq!(data.entries[0].tag, ExifTag::Orientation);
    assert_eq!(data.entries[0].value_more_readable, "Rotated to left");
}

#[test]
fn gps_latitude_text_ends_with_reference() {
    let (res, warnings) = parse_buffer_quiet(&gps_tiff());
    let data = res.unwrap();
    assert!(warnings.is_empty());
    let tags: Vec<ExifTag> = data.entries.iter().map(|e| e.tag).collect();
    assert_eq!(tags, vec![ExifTag::GPSOffset, ExifTag::GPSLatitudeRef, ExifTag::GPSLatitude]);
    let lat = &data.entries[2];
    assert_eq!(lat.kind, IfdKind::Gps);
    assert_eq!(lat.value_more_readable, "1/1, 2/1, 3/1 N");
    assert_eq!(data.entries[1].value, TagValue::Ascii("N".to_string()));
    assert_eq!(lat.unit, "D/M/S");
}

#[test]
fn gps_tiff_round_trips_byte_for_byte() {
    let bytes = gps_tiff();
    let (res, _) = parse_buffer_quiet(&bytes);
    let first = res.unwrap();
    let out = first.serialize().unwrap();
    assert_eq!(out, bytes);
    let (again, _) = parse_buffer_quiet(&out);
    let second = again.unwrap();
    assert_eq!(second, first);
    assert_eq!(second.serialize().unwrap(), out);
}

#[test]
fn resolution_takes_unit_from_sibling() {
    let mut v = vec![b'M', b'M', 0, 42, 0, 0, 0, 8, 0, 2];
    v.extend_from_slice(&[0x01, 0x1a, 0, 5, 0, 0, 0, 1, 0, 0, 0, 38]);
    v.extend_from_slice(&[0x01, 0x28, 0, 3, 0, 0, 0, 1, 0, 2, 0, 0]);
    v.extend_from_slice(&[0, 0, 0, 0]);
    v.extend_from_slice(&[0, 0, 0, 72, 0, 0, 0, 1]);
    let (res, _) = parse_buffer_quiet(&v);
    let data = res.unwrap();
    assert_eq!(data.entries[0].tag, ExifTag::XResolution);
    assert_eq!(data.entries[0].unit, "in");
    assert_eq!(data.entries[0].value_more_readable, "72/1 pixels per in");
    assert_eq!(data.serialize().unwrap(), v);
}

#[test]
fn exif_entries_without_pointer_fail() {
    let entries = vec![record(0x829a, IfdFormat::URational, 1, vec![0; 8], IfdKind::Exif)];
    let data = ExifData::new("image/tiff", entries, false);
    assert_eq!(data.serialize(), Err(ExifError::MissingExifOffset));
}

#[test]
fn gps_entries_without_pointer_fail() {
    let entries = vec![record(0x0001, IfdFormat::Ascii, 2, vec![b'N', 0, 0, 0], IfdKind::Gps)];
    let data = ExifData::new("image/tiff", entries, true);
    assert_eq!(data.serialize(), Err(ExifError::MissingExifOffset));
}

#[test]
fn non_standard_namespace_is_not_serialized() {
    let mut e = record(0x0112, IfdFormat::U16, 1, vec![0, 1, 0, 0], IfdKind::Ifd0);
    e.ifd.namespace = Namespace::Canon;
    let data = ExifData::new("image/tiff", vec![e], false);
    assert_eq!(data.serialize(), Err(ExifError::UnsupportedNamespace));
}

#[test]
fn exif_subdirectory_offset_is_backfilled() {
    let entries = vec![
        record(0x8769, IfdFormat::U32, 1, vec![0, 0, 0, 0], IfdKind::Ifd0),
        record(0xa001, IfdFormat::U16, 1, vec![0, 1, 0, 0], IfdKind::Exif),
    ];
    let data = ExifData::new("image/tiff", entries, false);
    let out = data.serialize().unwrap();
    let mut expected = vec![b'M', b'M', 0, 42, 0, 0, 0, 8, 0, 1];
    expected.extend_from_slice(&[0x87, 0x69, 0, 4, 0, 0, 0, 1, 0, 0, 0, 26]);
    expected.extend_from_slice(&[0, 0, 0, 0, 0, 1]);
    expected.extend_from_slice(&[0xa0, 0x01, 0, 3, 0, 0, 0, 1, 0, 1, 0, 0]);
    expected.extend_from_slice(&[0, 0, 0, 0]);
    assert_eq!(out, expected);
    let (res, _) = parse_buffer_quiet(&out);
    let back = res.unwrap();
    assert_eq!(back.entries.len(), 2);
    assert_eq!(back.entries[1].tag, ExifTag::ColorSpace);
    assert_eq!(back.entries[1].kind, IfdKind::Exif);
}
