use rexif::readable::readable_value;
use rexif::{ExifTag, TagValue};

#[test]
fn flash_bits_are_described() {
    assert_eq!(readable_value(ExifTag::Flash, &TagValue::U16(vec![0x20])), "Does not have a flash.");
    assert_eq!(
        readable_value(ExifTag::Flash, &TagValue::U16(vec![0x5f])),
        "Fired. Auto mode. Redeye reduction. "
    );
    assert_eq!(
        readable_value(ExifTag::Flash, &TagValue::U16(vec![0x07])),
        "Fired. Strobe ret detected. No redeye reduction. "
    );
    assert_eq!(readable_value(ExifTag::Flash, &TagValue::U16(vec![0x10])), "Did not fire. Forced suppresion. ");
    assert_eq!(readable_value(ExifTag::Flash, &TagValue::U16(vec![])), "");
}

#[test]
fn coded_tags_name_their_codes() {
    assert_eq!(readable_value(ExifTag::LightSource, &TagValue::U16(vec![21])), "D65");
    assert_eq!(readable_value(ExifTag::MeteringMode, &TagValue::U16(vec![255])), "Other");
    assert_eq!(readable_value(ExifTag::ColorSpace, &TagValue::U16(vec![65535])), "Uncalibrated");
    assert_eq!(readable_value(ExifTag::Contrast, &TagValue::U16(vec![9])), "Unknown (9)");
    assert_eq!(
        readable_value(ExifTag::GPSAltitudeRef, &TagValue::U8(vec![4])),
        "Unknown, assumed below sea level (4)"
    );
    assert_eq!(readable_value(ExifTag::Orientation, &TagValue::U32(vec![1])), "");
}

#[test]
fn integer_layouts_are_described() {
    assert_eq!(readable_value(ExifTag::ISOSpeedRatings, &TagValue::U16(vec![200])), "ISO 200");
    assert_eq!(readable_value(ExifTag::ISOSpeedRatings, &TagValue::U16(vec![200, 3])), "ISO 200 latitude 3");
    assert_eq!(
        readable_value(ExifTag::SubjectArea, &TagValue::U16(vec![1, 2, 3, 4])),
        "at rectangle 1,2 width 3 height 4"
    );
    assert_eq!(readable_value(ExifTag::SubjectArea, &TagValue::U16(vec![7])), "Unknown (7) ");
    assert_eq!(readable_value(ExifTag::SubjectLocation, &TagValue::U16(vec![10, 20])), "at pixel 10,20");
    assert_eq!(readable_value(ExifTag::FocalLengthIn35mmFilm, &TagValue::U16(vec![28])), "28 mm");
}

#[test]
fn undefined_tags_are_described() {
    assert_eq!(readable_value(ExifTag::MakerNote, &TagValue::Undefined(vec![0; 300], true)), "Blob of 300 bytes");
    assert_eq!(readable_value(ExifTag::FileSource, &TagValue::Undefined(vec![3], true)), "DSC");
    assert_eq!(readable_value(ExifTag::SceneType, &TagValue::Undefined(vec![2], true)), "Unknown (2)");
    assert_eq!(readable_value(ExifTag::ExifVersion, &TagValue::Undefined(b"0231".to_vec(), true)), "0231");
    assert_eq!(readable_value(ExifTag::CFAPattern, &TagValue::Undefined(vec![0, 1, 2], true)), "0, 1, 2");
}

#[test]
fn encoded_strings_are_decoded() {
    let mut ascii = b"ASCII\0\0\0".to_vec();
    ascii.extend_from_slice(b"hello");
    assert_eq!(readable_value(ExifTag::UserComment, &TagValue::Undefined(ascii, false)), "hello");
    let mut utf16 = b"UNICODE\0".to_vec();
    utf16.extend_from_slice(&[0, b'h', 0, b'i', 0x26, 0x3a]);
    assert_eq!(readable_value(ExifTag::UserComment, &TagValue::Undefined(utf16.clone(), false)), "hi\u{263a}");
    let mut le16 = b"UNICODE\0".to_vec();
    le16.extend_from_slice(&[b'o', 0, b'k', 0]);
    assert_eq!(readable_value(ExifTag::GPSProcessingMethod, &TagValue::Undefined(le16, true)), "ok");
    assert_eq!(
        readable_value(ExifTag::UserComment, &TagValue::Undefined(vec![1, 2], false)),
        "String w/ truncated preamble 1, 2"
    );
    let mut jis = b"JIS\0\0\0\0\0".to_vec();
    jis.push(0x30);
    assert_eq!(readable_value(ExifTag::GPSAreaInformation, &TagValue::Undefined(jis, false)), "JIS string 48");
}

#[test]
fn gps_references_are_named() {
    let ascii = |s: &str| TagValue::Ascii(s.to_string());
    assert_eq!(readable_value(ExifTag::GPSSpeedRef, &ascii("K")), "km/h");
    assert_eq!(readable_value(ExifTag::GPSDestDistanceRef, &ascii("M")), "mi");
    assert_eq!(readable_value(ExifTag::GPSImgDirectionRef, &ascii("T")), "True bearing");
    assert_eq!(readable_value(ExifTag::GPSStatus, &ascii("A")), "Measurement in progress");
    assert_eq!(readable_value(ExifTag::GPSMeasureMode, &ascii("3")), "3-dimension");
    assert_eq!(readable_value(ExifTag::GPSMeasureMode, &ascii("x")), "Unknown (x)");
    assert_eq!(readable_value(ExifTag::GPSLatitudeRef, &ascii("N")), "N");
}

#[test]
fn tags_have_names_and_codes() {
    assert_eq!(ExifTag::Make.name(), "Manufacturer");
    assert_eq!(ExifTag::GPSLatitude.name(), "GPS latitude");
    assert_eq!(ExifTag::ExifOffset.code(), 0x8769);
    assert_eq!(rexif::exif::tag_from_code(0x8825), ExifTag::GPSOffset);
    assert_eq!(rexif::exif::tag_from_code(0x1234), ExifTag::UnknownToMe);
    assert_eq!(ExifTag::FNumber.unit(), "f-number");
}
