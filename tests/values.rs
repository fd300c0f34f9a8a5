use rexif::entry::ExifEntry;
use rexif::{ExifTag, IfdEntry, IfdFormat, IfdKind, Namespace, TagValue, URational};

const NAN_BITS: u32 = 0x7fc0_0000;
const OTHER_NAN_BITS: u32 = 0xffc0_0001;

#[test]
fn float_arrays_with_nan_at_same_place_are_equal() {
    let a = TagValue::F32(vec![0x3f80_0000, NAN_BITS, 0x4000_0000]);
    let b = TagValue::F32(vec![0x3f80_0000, OTHER_NAN_BITS, 0x4000_0000]);
    assert_eq!(a, b);
    let c = TagValue::F32(vec![0x3f80_0000, 0x4000_0000, NAN_BITS]);
    assert_ne!(a, c);
    let d = TagValue::F64(vec![0x7ff8_0000_0000_0000]);
    assert_eq!(d, TagValue::F64(vec![0x7ff8_0000_0000_0001]));
    assert_ne!(d, TagValue::F64(vec![0x3ff0_0000_0000_0000]));
}

#[test]
fn float_zero_signs_compare_equal() {
    assert_eq!(TagValue::F32(vec![0]), TagValue::F32(vec![0x8000_0000]));
    assert_ne!(TagValue::F32(vec![0, 1]), TagValue::F32(vec![0]));
}

#[test]
fn values_of_different_kinds_differ() {
    assert_ne!(TagValue::U8(vec![1]), TagValue::Undefined(vec![1], false));
    assert_eq!(
        TagValue::URational(vec![URational { numerator: 1, denominator: 0 }]),
        TagValue::URational(vec![URational { numerator: 1, denominator: 0 }])
    );
}

fn pointer(ifd_data: Vec<u8>) -> ExifEntry {
    ExifEntry {
        namespace: Namespace::Standard,
        ifd: IfdEntry {
            namespace: Namespace::Standard,
            tag: 0x8769,
            format: IfdFormat::U32,
            count: 1,
            data: ifd_data.clone(),
            ifd_data,
            ext_data: vec![],
            le: true,
        },
        tag: ExifTag::ExifOffset,
        value: TagValue::U32(vec![0]),
        unit: "byte offset".to_string(),
        value_more_readable: String::new(),
        kind: IfdKind::Ifd0,
    }
}

#[test]
fn pointer_entries_ignore_stored_offset() {
    let mut a = pointer(vec![26, 0, 0, 0]);
    a.value = TagValue::U32(vec![26]);
    a.value_more_readable = "26".to_string();
    let mut b = pointer(vec![90, 1, 0, 0]);
    b.value = TagValue::U32(vec![346]);
    b.value_more_readable = "346".to_string();
    assert_eq!(a, b);
    let mut c = pointer(vec![26, 0, 0, 0]);
    c.kind = IfdKind::Exif;
    assert_ne!(a, c);
}

#[test]
fn inline_data_of_ordinary_entries_is_compared() {
    let a = IfdEntry {
        namespace: Namespace::Standard,
        tag: 0x0112,
        format: IfdFormat::U16,
        count: 1,
        data: vec![0, 1, 0, 0],
        ifd_data: vec![0, 1, 0, 0],
        ext_data: vec![],
        le: false,
    };
    let mut b = a.clone();
    b.data = vec![0, 3, 0, 0];
    b.ifd_data = vec![0, 3, 0, 0];
    assert_ne!(a, b);
    assert_eq!(a, a.clone());
}

#[test]
fn ascii_value_drops_trailing_nuls() {
    let ifd = IfdEntry {
        namespace: Namespace::Standard,
        tag: 0x010f,
        format: IfdFormat::Ascii,
        count: 6,
        data: b"Nikon\0\0".to_vec(),
        ifd_data: vec![0, 0, 0, 0],
        ext_data: vec![],
        le: false,
    };
    assert_eq!(rexif::value::tag_value_new(&ifd), Some(TagValue::Ascii("Nikon".to_string())));
}

#[test]
fn integer_arrays_render_with_separators() {
    assert_eq!(rexif::readable::value_string(&TagValue::I16(vec![-5, 12, 300])), "-5, 12, 300");
    assert_eq!(
        rexif::readable::value_string(&TagValue::IRational(vec![rexif::IRational {
            numerator: -1,
            denominator: 3
        }])),
        "-1/3"
    );
}

#[test]
fn readers_respect_byte_order() {
    assert_eq!(rexif::lowlevel::read_u16(true, &[0x34, 0x12]), Some(0x1234));
    assert_eq!(rexif::lowlevel::read_u16(false, &[0x12, 0x34]), Some(0x1234));
    assert_eq!(rexif::lowlevel::read_i32(false, &[0xff, 0xff, 0xff, 0xfe]), Some(-2));
    assert_eq!(rexif::lowlevel::read_u32(true, &[1, 2, 3]), None);
    assert_eq!(rexif::lowlevel::read_u16_array(false, 2, &[0, 1, 0, 2, 9]), Some(vec![1, 2]));
    assert_eq!(rexif::lowlevel::read_u16_array(false, 3, &[0, 1, 0, 2, 9]), None);
    assert_eq!(rexif::lowlevel::read_f64_bits(&[0, 0, 0, 0, 0, 0, 0xf0, 0x3f]), Some(0x3ff0_0000_0000_0000));
}

#[test]
fn record_length_and_placement() {
    let mut e = IfdEntry {
        namespace: Namespace::Standard,
        tag: 0x829a,
        format: IfdFormat::URational,
        count: 1,
        data: vec![],
        ifd_data: vec![0, 0, 0, 2],
        ext_data: vec![],
        le: false,
    };
    assert_eq!(e.size(), 8);
    assert_eq!(e.length(), 8);
    assert!(!e.in_ifd());
    assert_eq!(e.data_as_offset(), 2);
    let contents = [9, 9, 0, 0, 0, 1, 0, 0, 0, 4];
    assert!(e.copy_data(&contents));
    assert_eq!(e.data, vec![0, 0, 0, 1, 0, 0, 0, 4]);
    assert!(!e.copy_data(&contents[..9]));
    assert_eq!(rexif::ifdformat_new(5), IfdFormat::URational);
    assert_eq!(rexif::ifdformat_new(13), IfdFormat::Unknown);
}
