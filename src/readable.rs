//! Human-readable text of decoded values.
use vstd::prelude::*;

use crate::exif::ExifTag;
use crate::rational::{IRational, URational};
use crate::lowlevel::{read_u16_array, u16_at};
use crate::value::{lossy_text, text_from_bytes, TagValue, ValueModel};

verus! {

pub open spec fn digit_char(d: int) -> char {
    if d == 0 {
        '0'
    } else if d == 1 {
        '1'
    } else if d == 2 {
        '2'
    } else if d == 3 {
        '3'
    } else if d == 4 {
        '4'
    } else if d == 5 {
        '5'
    } else if d == 6 {
        '6'
    } else if d == 7 {
        '7'
    } else if d == 8 {
        '8'
    } else {
        '9'
    }
}

/// Decimal digits of `n`, without leading zeros.
pub open spec fn decimal(n: nat) -> Seq<char>
    decreases n,
{
    if n < 10 {
        seq![digit_char(n as int)]
    } else {
        decimal(n / 10) + seq![digit_char((n % 10) as int)]
    }
}

/// Decimal text of an integer, with a leading `-` when negative.
pub open spec fn int_text(n: int) -> Seq<char> {
    if n < 0 {
        seq!['-'] + decimal((-n) as nat)
    } else {
        decimal(n as nat)
    }
}

/// Relies on the `Display` impl of `i128`: decimal digits, `-` before a negative number.
#[verifier::external_body]
pub(crate) fn int_string(n: i128) -> (r: String)
    ensures
        r@ == int_text(n as int),
{
    n.to_string()
}

/// The parts separated by `", "`.
pub open spec fn join(parts: Seq<Seq<char>>) -> Seq<char>
    decreases parts.len(),
{
    if parts.len() == 0 {
        Seq::empty()
    } else if parts.len() == 1 {
        parts[0]
    } else {
        join(parts.drop_last()) + ", "@ + parts.last()
    }
}

pub open spec fn rational_text(n: int, d: int) -> Seq<char> {
    int_text(n) + "/"@ + int_text(d)
}

proof fn lemma_join_step(parts: Seq<Seq<char>>, i: int)
    requires
        0 <= i < parts.len(),
    ensures
        join(parts.subrange(0, i + 1)) == if i == 0 {
            parts[0]
        } else {
            join(parts.subrange(0, i)) + ", "@ + parts[i]
        },
{
    assert(parts.subrange(0, i + 1).drop_last() =~= parts.subrange(0, i));
}

/// Text of each element, in order.
pub open spec fn u8_texts(s: Seq<u8>) -> Seq<Seq<char>> {
    Seq::new(s.len(), |i: int| int_text(s[i] as int))
}

pub open spec fn i8_texts(s: Seq<i8>) -> Seq<Seq<char>> {
    Seq::new(s.len(), |i: int| int_text(s[i] as int))
}

pub open spec fn u16_texts(s: Seq<u16>) -> Seq<Seq<char>> {
    Seq::new(s.len(), |i: int| int_text(s[i] as int))
}

pub open spec fn i16_texts(s: Seq<i16>) -> Seq<Seq<char>> {
    Seq::new(s.len(), |i: int| int_text(s[i] as int))
}

pub open spec fn u32_texts(s: Seq<u32>) -> Seq<Seq<char>> {
    Seq::new(s.len(), |i: int| int_text(s[i] as int))
}

pub open spec fn i32_texts(s: Seq<i32>) -> Seq<Seq<char>> {
    Seq::new(s.len(), |i: int| int_text(s[i] as int))
}

pub open spec fn urational_texts(s: Seq<URational>) -> Seq<Seq<char>> {
    Seq::new(s.len(), |i: int| rational_text(s[i].numerator as int, s[i].denominator as int))
}

pub open spec fn irational_texts(s: Seq<IRational>) -> Seq<Seq<char>> {
    Seq::new(s.len(), |i: int| rational_text(s[i].numerator as int, s[i].denominator as int))
}

/// The elements' text separated by `", "`.
fn u8_list_text(v: &[u8]) -> (r: String)
    ensures
        r@ == join(u8_texts(v@)),
{
    let mut r = String::new();
    let mut i: usize = 0;
    while i < v.len()
        invariant
            i <= v@.len(),
            r@ == join(u8_texts(v@).subrange(0, i as int)),
        decreases v@.len() - i,
    {
        proof {
            lemma_join_step(u8_texts(v@), i as int);
        }
        if i > 0 {
            r.append(", ");
        }
        let t = int_string(v[i] as i128);
        r.append(t.as_str());
        i += 1;
    }
    assert(u8_texts(v@).subrange(0, v@.len() as int) =~= u8_texts(v@));
    r
}

/// The elements' text separated by `", "`.
fn i8_list_text(v: &[i8]) -> (r: String)
    ensures
        r@ == join(i8_texts(v@)),
{
    let mut r = String::new();
    let mut i: usize = 0;
    while i < v.len()
        invariant
            i <= v@.len(),
            r@ == join(i8_texts(v@).subrange(0, i as int)),
        decreases v@.len() - i,
    {
        proof {
            lemma_join_step(i8_texts(v@), i as int);
        }
        if i > 0 {
            r.append(", ");
        }
        let t = int_string(v[i] as i128);
        r.append(t.as_str());
        i += 1;
    }
    assert(i8_texts(v@).subrange(0, v@.len() as int) =~= i8_texts(v@));
    r
}

/// The elements' text separated by `", "`.
fn u16_list_text(v: &[u16]) -> (r: String)
    ensures
        r@ == join(u16_texts(v@)),
{
    let mut r = String::new();
    let mut i: usize = 0;
    while i < v.len()
        invariant
            i <= v@.len(),
            r@ == join(u16_texts(v@).subrange(0, i as int)),
        decreases v@.len() - i,
    {
        proof {
            lemma_join_step(u16_texts(v@), i as int);
        }
        if i > 0 {
            r.append(", ");
        }
        let t = int_string(v[i] as i128);
        r.append(t.as_str());
        i += 1;
    }
    assert(u16_texts(v@).subrange(0, v@.len() as int) =~= u16_texts(v@));
    r
}

/// The elements' text separated by `", "`.
fn i16_list_text(v: &[i16]) -> (r: String)
    ensures
        r@ == join(i16_texts(v@)),
{
    let mut r = String::new();
    let mut i: usize = 0;
    while i < v.len()
        invariant
            i <= v@.len(),
            r@ == join(i16_texts(v@).subrange(0, i as int)),
        decreases v@.len() - i,
    {
        proof {
            lemma_join_step(i16_texts(v@), i as int);
        }
        if i > 0 {
            r.append(", ");
        }
        let t = int_string(v[i] as i128);
        r.append(t.as_str());
        i += 1;
    }
    assert(i16_texts(v@).subrange(0, v@.len() as int) =~= i16_texts(v@));
    r
}

/// The elements' text separated by `", "`.
fn u32_list_text(v: &[u32]) -> (r: String)
    ensures
        r@ == join(u32_texts(v@)),
{
    let mut r = String::new();
    let mut i: usize = 0;
    while i < v.len()
        invariant
            i <= v@.len(),
            r@ == join(u32_texts(v@).subrange(0, i as int)),
        decreases v@.len() - i,
    {
        proof {
            lemma_join_step(u32_texts(v@), i as int);
        }
        if i > 0 {
            r.append(", ");
        }
        let t = int_string(v[i] as i128);
        r.append(t.as_str());
        i += 1;
    }
    assert(u32_texts(v@).subrange(0, v@.len() as int) =~= u32_texts(v@));
    r
}

/// The elements' text separated by `", "`.
fn i32_list_text(v: &[i32]) -> (r: String)
    ensures
        r@ == join(i32_texts(v@)),
{
    let mut r = String::new();
    let mut i: usize = 0;
    while i < v.len()
        invariant
            i <= v@.len(),
            r@ == join(i32_texts(v@).subrange(0, i as int)),
        decreases v@.len() - i,
    {
        proof {
            lemma_join_step(i32_texts(v@), i as int);
        }
        if i > 0 {
            r.append(", ");
        }
        let t = int_string(v[i] as i128);
        r.append(t.as_str());
        i += 1;
    }
    assert(i32_texts(v@).subrange(0, v@.len() as int) =~= i32_texts(v@));
    r
}

/// The elements' text separated by `", "`.
fn urational_list_text(v: &[URational]) -> (r: String)
    ensures
        r@ == join(urational_texts(v@)),
{
    let mut r = String::new();
    let mut i: usize = 0;
    while i < v.len()
        invariant
            i <= v@.len(),
            r@ == join(urational_texts(v@).subrange(0, i as int)),
        decreases v@.len() - i,
    {
        proof {
            lemma_join_step(urational_texts(v@), i as int);
        }
        if i > 0 {
            r.append(", ");
        }
        let t = int_string(v[i].numerator as i128);
        r.append(t.as_str());
        r.append("/");
        let d = int_string(v[i].denominator as i128);
        r.append(d.as_str());
        i += 1;
    }
    assert(urational_texts(v@).subrange(0, v@.len() as int) =~= urational_texts(v@));
    r
}

/// The elements' text separated by `", "`.
fn irational_list_text(v: &[IRational]) -> (r: String)
    ensures
        r@ == join(irational_texts(v@)),
{
    let mut r = String::new();
    let mut i: usize = 0;
    while i < v.len()
        invariant
            i <= v@.len(),
            r@ == join(irational_texts(v@).subrange(0, i as int)),
        decreases v@.len() - i,
    {
        proof {
            lemma_join_step(irational_texts(v@), i as int);
        }
        if i > 0 {
            r.append(", ");
        }
        let t = int_string(v[i].numerator as i128);
        r.append(t.as_str());
        r.append("/");
        let d = int_string(v[i].denominator as i128);
        r.append(d.as_str());
        i += 1;
    }
    assert(irational_texts(v@).subrange(0, v@.len() as int) =~= irational_texts(v@));
    r
}

/// Default text of a value: the string itself, or the elements separated by `", "`, with
/// rationals written `numerator/denominator`.
pub open spec fn value_text(v: ValueModel) -> Seq<char> {
    match v {
        ValueModel::Ascii(s) => s,
        ValueModel::U8(s) => join(u8_texts(s)),
        ValueModel::Undefined(s, _) => join(u8_texts(s)),
        ValueModel::I8(s) => join(i8_texts(s)),
        ValueModel::U16(s) => join(u16_texts(s)),
        ValueModel::I16(s) => join(i16_texts(s)),
        ValueModel::U32(s) => join(u32_texts(s)),
        ValueModel::I32(s) => join(i32_texts(s)),
        ValueModel::URational(s) => join(urational_texts(s)),
        ValueModel::IRational(s) => join(irational_texts(s)),
        ValueModel::F32(_) => "<floating-point data>"@,
        ValueModel::F64(_) => "<floating-point data>"@,
        ValueModel::Unknown(..) => "<unknown blob>"@,
        ValueModel::Invalid(..) => "Invalid"@,
    }
}

/// The default text of a value.
pub fn value_string(v: &TagValue) -> (r: String)
    ensures
        r@ == value_text(v@),
{
    match v {
        TagValue::Ascii(s) => s.clone(),
        TagValue::U8(a) => u8_list_text(a),
        TagValue::Undefined(a, _) => u8_list_text(a),
        TagValue::I8(a) => i8_list_text(a),
        TagValue::U16(a) => u16_list_text(a),
        TagValue::I16(a) => i16_list_text(a),
        TagValue::U32(a) => u32_list_text(a),
        TagValue::I32(a) => i32_list_text(a),
        TagValue::URational(a) => urational_list_text(a),
        TagValue::IRational(a) => irational_list_text(a),
        TagValue::F32(_) => String::from_str("<floating-point data>"),
        TagValue::F64(_) => String::from_str("<floating-point data>"),
        TagValue::Unknown(..) => String::from_str("<unknown blob>"),
        TagValue::Invalid(..) => String::from_str("Invalid"),
    }
}

/// The name of a coded value of an enumerated tag, if the code is defined.
pub open spec fn label_of(tag: ExifTag, n: int) -> Option<Seq<char>> {
    match tag {
        ExifTag::Orientation => if n == 1 {
            Some("Straight"@)
        } else if n == 3 {
            Some("Upside down"@)
        } else if n == 6 {
            Some("Rotated to left"@)
        } else if n == 8 {
            Some("Rotated to right"@)
        } else if n == 9 {
            Some("Undefined"@)
        } else {
            None
        },
        ExifTag::ResolutionUnit | ExifTag::FocalPlaneResolutionUnit => if n == 1 {
            Some("Unitless"@)
        } else if n == 2 {
            Some("in"@)
        } else if n == 3 {
            Some("cm"@)
        } else {
            None
        },
        ExifTag::GPSAltitudeRef => if n == 0 {
            Some("Above sea level"@)
        } else if n == 1 {
            Some("Below sea level"@)
        } else {
            None
        },
        ExifTag::GPSDifferential => if n == 0 {
            Some("Measurement without differential correction"@)
        } else if n == 1 {
            Some("Differential correction applied"@)
        } else {
            None
        },
        ExifTag::SensitivityType => if n == 0 {
            Some("Unknown"@)
        } else if n == 1 {
            Some("Standard output sensitivity (SOS)"@)
        } else if n == 2 {
            Some("Recommended exposure index (REI)"@)
        } else if n == 3 {
            Some("ISO speed"@)
        } else if n == 4 {
            Some("Standard output sensitivity (SOS) and recommended exposure index (REI)"@)
        } else if n == 5 {
            Some("Standard output sensitivity (SOS) and ISO speed"@)
        } else if n == 6 {
            Some("Recommended exposure index (REI) and ISO speed"@)
        } else if n == 7 {
            Some("Standard output sensitivity (SOS) and recommended exposure index (REI) and ISO speed"@)
        } else {
            None
        },
        ExifTag::ExposureProgram => if n == 1 {
            Some("Manual control"@)
        } else if n == 2 {
            Some("Program control"@)
        } else if n == 3 {
            Some("Aperture priority"@)
        } else if n == 4 {
            Some("Shutter priority"@)
        } else if n == 5 {
            Some("Program creative (slow program)"@)
        } else if n == 6 {
            Some("Program creative (high-speed program)"@)
        } else if n == 7 {
            Some("Portrait mode"@)
        } else if n == 8 {
            Some("Landscape mode"@)
        } else {
            None
        },
        ExifTag::MeteringMode => if n == 0 {
            Some("Unknown"@)
        } else if n == 1 {
            Some("Average"@)
        } else if n == 2 {
            Some("Center-weighted average"@)
        } else if n == 3 {
            Some("Spot"@)
        } else if n == 4 {
            Some("Multi-spot"@)
        } else if n == 5 {
            Some("Pattern"@)
        } else if n == 6 {
            Some("Partial"@)
        } else if n == 255 {
            Some("Other"@)
        } else {
            None
        },
        ExifTag::LightSource => if n == 0 {
            Some("Unknown"@)
        } else if n == 1 {
            Some("Daylight"@)
        } else if n == 2 {
            Some("Fluorescent"@)
        } else if n == 3 {
            Some("Tungsten"@)
        } else if n == 4 {
            Some("Flash"@)
        } else if n == 9 {
            Some("Fine weather"@)
        } else if n == 10 {
            Some("Cloudy weather"@)
        } else if n == 11 {
            Some("Shade"@)
        } else if n == 12 {
            Some("Daylight fluorescent (D)"@)
        } else if n == 13 {
            Some("Day white fluorescent (N)"@)
        } else if n == 14 {
            Some("Cool white fluorescent (W)"@)
        } else if n == 15 {
            Some("White fluorescent (WW)"@)
        } else if n == 17 {
            Some("Standard light A"@)
        } else if n == 18 {
            Some("Standard light B"@)
        } else if n == 19 {
            Some("Standard light C"@)
        } else if n == 20 {
            Some("D55"@)
        } else if n == 21 {
            Some("D65"@)
        } else if n == 22 {
            Some("D75"@)
        } else if n == 23 {
            Some("D50"@)
        } else if n == 24 {
            Some("ISO studio tungsten"@)
        } else if n == 255 {
            Some("Other"@)
        } else {
            None
        },
        ExifTag::ColorSpace => if n == 1 {
            Some("sRGB"@)
        } else if n == 65535 {
            Some("Uncalibrated"@)
        } else {
            None
        },
        ExifTag::SensingMethod => if n == 1 {
            Some("Not defined"@)
        } else if n == 2 {
            Some("One-chip color area sensor"@)
        } else if n == 3 {
            Some("Two-chip color area sensor"@)
        } else if n == 4 {
            Some("Three-chip color area sensor"@)
        } else if n == 5 {
            Some("Color sequential area sensor"@)
        } else if n == 7 {
            Some("Trilinear sensor"@)
        } else if n == 8 {
            Some("Color sequential linear sensor"@)
        } else {
            None
        },
        ExifTag::Sharpness | ExifTag::Contrast => if n == 0 {
            Some("Normal"@)
        } else if n == 1 {
            Some("Soft"@)
        } else if n == 2 {
            Some("Hard"@)
        } else {
            None
        },
        ExifTag::Saturation => if n == 0 {
            Some("Normal"@)
        } else if n == 1 {
            Some("Low"@)
        } else if n == 2 {
            Some("High"@)
        } else {
            None
        },
        ExifTag::GainControl => if n == 0 {
            Some("None"@)
        } else if n == 1 {
            Some("Low gain up"@)
        } else if n == 2 {
            Some("High gain up"@)
        } else if n == 3 {
            Some("Low gain down"@)
        } else if n == 4 {
            Some("High gain down"@)
        } else {
            None
        },
        ExifTag::ExposureMode => if n == 0 {
            Some("Auto exposure"@)
        } else if n == 1 {
            Some("Manual exposure"@)
        } else if n == 2 {
            Some("Auto bracket"@)
        } else {
            None
        },
        ExifTag::SceneCaptureType => if n == 0 {
            Some("Standard"@)
        } else if n == 1 {
            Some("Landscape"@)
        } else if n == 2 {
            Some("Portrait"@)
        } else if n == 3 {
            Some("Night scene"@)
        } else {
            None
        },
        ExifTag::WhiteBalanceMode => if n == 0 {
            Some("Auto"@)
        } else if n == 1 {
            Some("Manual"@)
        } else {
            None
        },
        ExifTag::CustomRendered => if n == 0 {
            Some("Normal"@)
        } else if n == 1 {
            Some("Custom"@)
        } else {
            None
        },
        ExifTag::SubjectDistanceRange => if n == 0 {
            Some("Unknown"@)
        } else if n == 1 {
            Some("Macro"@)
        } else if n == 2 {
            Some("Close view"@)
        } else if n == 3 {
            Some("Distant view"@)
        } else {
            None
        },
        _ => None,
    }
}

/// Tags whose value is a code from a fixed list.
pub open spec fn is_enumerated(tag: ExifTag) -> bool {
    match tag {
        ExifTag::Orientation | ExifTag::ResolutionUnit | ExifTag::FocalPlaneResolutionUnit | ExifTag::GPSAltitudeRef | ExifTag::GPSDifferential | ExifTag::SensitivityType | ExifTag::ExposureProgram | ExifTag::MeteringMode | ExifTag::LightSource | ExifTag::ColorSpace | ExifTag::SensingMethod | ExifTag::Sharpness | ExifTag::Contrast | ExifTag::Saturation | ExifTag::GainControl | ExifTag::ExposureMode | ExifTag::SceneCaptureType | ExifTag::WhiteBalanceMode | ExifTag::CustomRendered | ExifTag::SubjectDistanceRange => true,
        _ => false,
    }
}

/// Text of the flash tag's bit field.
pub open spec fn flash_text(n: u16) -> Seq<char> {
    let fired = n % 2 == 1;
    let m12 = (n / 2) % 4;
    let m34 = (n / 8) % 4;
    let b0 = if fired {
        "Fired. "@
    } else {
        "Did not fire. "@
    };
    let b6 = if !fired {
        Seq::empty()
    } else if (n / 64) % 2 == 1 {
        "Redeye reduction. "@
    } else {
        "No redeye reduction. "@
    };
    let b12 = if m34 == 3 {
        "Auto mode. "@
    } else if fired && m12 == 2 {
        "Strobe ret not detected. "@
    } else if fired && m12 == 3 {
        "Strobe ret detected. "@
    } else {
        Seq::empty()
    };
    let b34 = if m34 == 1 {
        "Forced fire. "@
    } else if m34 == 2 {
        "Forced suppresion. "@
    } else {
        Seq::empty()
    };
    if (n / 32) % 2 == 1 {
        "Does not have a flash."@
    } else {
        b0 + b12 + b34 + b6
    }
}

/// The name of a one-letter reference of a GPS tag, if the letter is defined.
pub open spec fn ascii_label_of(tag: ExifTag, s: Seq<char>) -> Option<Seq<char>> {
    match tag {
        ExifTag::GPSSpeedRef => if s == "N"@ {
            Some("kn"@)
        } else if s == "K"@ {
            Some("km/h"@)
        } else if s == "M"@ {
            Some("mi/h"@)
        } else {
            None
        },
        ExifTag::GPSDestDistanceRef => if s == "N"@ {
            Some("kn"@)
        } else if s == "K"@ {
            Some("km"@)
        } else if s == "M"@ {
            Some("mi"@)
        } else {
            None
        },
        ExifTag::GPSTrackRef | ExifTag::GPSImgDirectionRef | ExifTag::GPSDestBearingRef => if s
            == "T"@ {
            Some("True bearing"@)
        } else if s == "M"@ {
            Some("Magnetic bearing"@)
        } else {
            None
        },
        ExifTag::GPSStatus => if s == "A"@ {
            Some("Measurement in progress"@)
        } else if s == "V"@ {
            Some("Measurement is interoperability"@)
        } else {
            None
        },
        _ => if s == "2"@ {
            Some("2-dimension"@)
        } else if s == "3"@ {
            Some("3-dimension"@)
        } else {
            None
        },
    }
}

/// The text that `String::from_utf16_lossy` makes of a sequence of UTF-16 code units.
pub uninterp spec fn utf16_lossy_text(u: Seq<u16>) -> Seq<char>;

/// Relies on `String::from_utf16_lossy`: the text depends on the code units alone.
#[verifier::external_body]
fn text_from_utf16(u: &[u16]) -> (r: String)
    ensures
        r@ == utf16_lossy_text(u@),
{
    String::from_utf16_lossy(u)
}

/// The eight-byte character-code preambles of an encoded string.
pub open spec fn ascii_preamble() -> Seq<u8> {
    seq![0x41u8, 0x53, 0x43, 0x49, 0x49, 0, 0, 0]
}

pub open spec fn jis_preamble() -> Seq<u8> {
    seq![0x4au8, 0x49, 0x53, 0, 0, 0, 0, 0]
}

pub open spec fn unicode_preamble() -> Seq<u8> {
    seq![0x55u8, 0x4e, 0x49, 0x43, 0x4f, 0x44, 0x45, 0]
}

/// Text of a string whose character code is named by its first eight bytes: ASCII text
/// (accepted as UTF-8) and UTF-16 text are decoded, JIS text and unknown codes are shown
/// as bytes.
pub open spec fn encoded_string_text(b: Seq<u8>, le: bool) -> Seq<char> {
    if b.len() < 8 {
        "String w/ truncated preamble "@ + join(u8_texts(b))
    } else if b.subrange(0, 8) == ascii_preamble() {
        lossy_text(b.subrange(8, b.len() as int))
    } else if b.subrange(0, 8) == jis_preamble() {
        "JIS string "@ + join(u8_texts(b.subrange(8, b.len() as int)))
    } else if b.subrange(0, 8) == unicode_preamble() {
        let t = b.subrange(8, b.len() as int);
        utf16_lossy_text(Seq::new(((t.len() / 2) as u32) as nat, |i: int| u16_at(le, t, 2 * i)))
    } else {
        "String w/ undefined encoding "@ + join(u8_texts(b))
    }
}

fn has_preamble(b: &[u8], p: [u8; 8]) -> (r: bool)
    requires
        b@.len() >= 8,
    ensures
        r == (b@.subrange(0, 8) == p@),
{
    let mut i: usize = 0;
    while i < 8
        invariant
            b@.len() >= 8,
            i <= 8,
            forall|k: int| 0 <= k < i ==> b@[k] == p@[k],
        decreases 8 - i,
    {
        if b[i] != p[i] {
            assert(b@.subrange(0, 8)[i as int] != p@[i as int]);
            return false;
        }
        i += 1;
    }
    assert(b@.subrange(0, 8) =~= p@);
    true
}

fn encoded_string(b: &[u8], le: bool) -> (r: String)
    ensures
        r@ == encoded_string_text(b@, le),
{
    if b.len() < 8 {
        let mut r = String::from_str("String w/ truncated preamble ");
        let x = u8_list_text(b);
        r.append(x.as_str());
        return r;
    }
    let asc: [u8; 8] = [0x41, 0x53, 0x43, 0x49, 0x49, 0, 0, 0];
    let jis: [u8; 8] = [0x4a, 0x49, 0x53, 0, 0, 0, 0, 0];
    let unicode: [u8; 8] = [0x55, 0x4e, 0x49, 0x43, 0x4f, 0x44, 0x45, 0];
    assert(asc@ =~= ascii_preamble());
    assert(jis@ =~= jis_preamble());
    assert(unicode@ =~= unicode_preamble());
    let rest = &b[8..b.len()];
    if has_preamble(b, asc) {
        text_from_bytes(rest)
    } else if has_preamble(b, jis) {
        let mut r = String::from_str("JIS string ");
        let x = u8_list_text(rest);
        r.append(x.as_str());
        r
    } else if has_preamble(b, unicode) {
        let n = #[verifier::truncate] ((rest.len() / 2) as u32);
        match read_u16_array(le, n, rest) {
            Some(u) => {
                assert(u@ =~= Seq::new(n as nat, |i: int| u16_at(le, rest@, 2 * i)));
                text_from_utf16(u.as_slice())
            },
            None => String::new(),
        }
    } else {
        let mut r = String::from_str("String w/ undefined encoding ");
        let x = u8_list_text(b);
        r.append(x.as_str());
        r
    }
}

pub open spec fn is_ascii_enumerated(tag: ExifTag) -> bool {
    match tag {
        ExifTag::GPSSpeedRef | ExifTag::GPSDestDistanceRef | ExifTag::GPSTrackRef
        | ExifTag::GPSImgDirectionRef | ExifTag::GPSDestBearingRef | ExifTag::GPSStatus
        | ExifTag::GPSMeasureMode => true,
        _ => false,
    }
}

/// Text of tags with a display of their own (other than code names), `None` for the rest.
/// A value of an unexpected kind gives empty text.
pub open spec fn formatted_text(tag: ExifTag, v: ValueModel) -> Option<Seq<char>> {
    let empty = Seq::<char>::empty();
    match tag {
        ExifTag::FocalLengthIn35mmFilm => Some(
            match v {
                ValueModel::U16(s) => if s.len() > 0 {
                    int_text(s[0] as int) + " mm"@
                } else {
                    empty
                },
                _ => empty,
            },
        ),
        ExifTag::ISOSpeedRatings => Some(
            match v {
                ValueModel::U16(s) => if s.len() == 1 {
                    "ISO "@ + int_text(s[0] as int)
                } else if s.len() == 2 || s.len() == 3 {
                    "ISO "@ + int_text(s[0] as int) + " latitude "@ + int_text(s[1] as int)
                } else {
                    "Unknown ("@ + join(u16_texts(s)) + ")"@
                },
                _ => empty,
            },
        ),
        ExifTag::SubjectArea => Some(
            match v {
                ValueModel::U16(s) => if s.len() == 2 {
                    "at pixel "@ + int_text(s[0] as int) + ","@ + int_text(s[1] as int)
                } else if s.len() == 3 {
                    "at center "@ + int_text(s[0] as int) + ","@ + int_text(s[1] as int)
                        + " radius "@ + int_text(s[2] as int)
                } else if s.len() == 4 {
                    "at rectangle "@ + int_text(s[0] as int) + ","@ + int_text(s[1] as int)
                        + " width "@ + int_text(s[2] as int) + " height "@ + int_text(
                        s[3] as int,
                    )
                } else {
                    "Unknown ("@ + join(u16_texts(s)) + ") "@
                },
                _ => empty,
            },
        ),
        ExifTag::SubjectLocation => Some(
            match v {
                ValueModel::U16(s) => if s.len() >= 2 {
                    "at pixel "@ + int_text(s[0] as int) + ","@ + int_text(s[1] as int)
                } else {
                    empty
                },
                _ => empty,
            },
        ),
        ExifTag::Flash => Some(
            match v {
                ValueModel::U16(s) => if s.len() > 0 {
                    flash_text(s[0])
                } else {
                    empty
                },
                _ => empty,
            },
        ),
        ExifTag::OECF | ExifTag::MakerNote | ExifTag::DeviceSettingDescription => Some(
            match v {
                ValueModel::Undefined(b, _) => "Blob of "@ + int_text(b.len() as int)
                    + " bytes"@,
                _ => empty,
            },
        ),
        ExifTag::FileSource => Some(
            match v {
                ValueModel::Undefined(b, _) => if b.len() > 0 && b[0] == 3 {
                    "DSC"@
                } else {
                    "Unknown"@
                },
                _ => empty,
            },
        ),
        ExifTag::SceneType => Some(
            match v {
                ValueModel::Undefined(b, _) => if b.len() == 0 {
                    empty
                } else if b[0] == 1 {
                    "Directly photographed image"@
                } else {
                    "Unknown ("@ + int_text(b[0] as int) + ")"@
                },
                _ => empty,
            },
        ),
        ExifTag::ExifVersion | ExifTag::FlashPixVersion => Some(
            match v {
                ValueModel::Undefined(b, _) => lossy_text(b),
                _ => empty,
            },
        ),
        ExifTag::UserComment | ExifTag::GPSProcessingMethod | ExifTag::GPSAreaInformation => Some(
            match v {
                ValueModel::Undefined(b, le) => encoded_string_text(b, le),
                _ => empty,
            },
        ),
        _ => if is_ascii_enumerated(tag) {
            Some(
                match v {
                    ValueModel::Ascii(s) => match ascii_label_of(tag, s) {
                        Some(l) => l,
                        None => "Unknown ("@ + s + ")"@,
                    },
                    _ => empty,
                },
            )
        } else {
            None
        },
    }
}

/// Text of an undefined code of an enumerated tag.
pub open spec fn unknown_code_text(tag: ExifTag, n: int) -> Seq<char> {
    if tag == ExifTag::GPSAltitudeRef {
        "Unknown, assumed below sea level ("@ + int_text(n) + ")"@
    } else {
        "Unknown ("@ + int_text(n) + ")"@
    }
}

/// The first element of an enumerated tag's value, as the kind of integer it is stored in.
pub open spec fn first_code(tag: ExifTag, v: ValueModel) -> Option<int> {
    match v {
        ValueModel::U8(s) => if tag == ExifTag::GPSAltitudeRef && s.len() > 0 {
            Some(s[0] as int)
        } else {
            None
        },
        ValueModel::U16(s) => if tag != ExifTag::GPSAltitudeRef && s.len() > 0 {
            Some(s[0] as int)
        } else {
            None
        },
        _ => None,
    }
}

/// Human-readable text of a tag's value. Enumerated tags name their code (empty text when
/// the value is not a non-empty array of the expected kind), some tags have a display of
/// their own, and the others use the default text.
pub open spec fn readable_text(tag: ExifTag, v: ValueModel) -> Seq<char> {
    if is_enumerated(tag) {
        match first_code(tag, v) {
            Some(n) => match label_of(tag, n) {
                Some(l) => l,
                None => unknown_code_text(tag, n),
            },
            None => Seq::empty(),
        }
    } else {
        match formatted_text(tag, v) {
            Some(t) => t,
            None => value_text(v),
        }
    }
}

fn label(tag: ExifTag, n: u16) -> (r: Option<&'static str>)
    ensures
        r matches Some(s) ==> label_of(tag, n as int) == Some(s@),
        r is None ==> label_of(tag, n as int) is None,
{
    match tag {
        ExifTag::Orientation => match n {
            1 => Some("Straight"),
            3 => Some("Upside down"),
            6 => Some("Rotated to left"),
            8 => Some("Rotated to right"),
            9 => Some("Undefined"),
            _ => None,
        },
        ExifTag::ResolutionUnit | ExifTag::FocalPlaneResolutionUnit => match n {
            1 => Some("Unitless"),
            2 => Some("in"),
            3 => Some("cm"),
            _ => None,
        },
        ExifTag::GPSAltitudeRef => match n {
            0 => Some("Above sea level"),
            1 => Some("Below sea level"),
            _ => None,
        },
        ExifTag::GPSDifferential => match n {
            0 => Some("Measurement without differential correction"),
            1 => Some("Differential correction applied"),
            _ => None,
        },
        ExifTag::SensitivityType => match n {
            0 => Some("Unknown"),
            1 => Some("Standard output sensitivity (SOS)"),
            2 => Some("Recommended exposure index (REI)"),
            3 => Some("ISO speed"),
            4 => Some("Standard output sensitivity (SOS) and recommended exposure index (REI)"),
            5 => Some("Standard output sensitivity (SOS) and ISO speed"),
            6 => Some("Recommended exposure index (REI) and ISO speed"),
            7 => Some("Standard output sensitivity (SOS) and recommended exposure index (REI) and ISO speed"),
            _ => None,
        },
        ExifTag::ExposureProgram => match n {
            1 => Some("Manual control"),
            2 => Some("Program control"),
            3 => Some("Aperture priority"),
            4 => Some("Shutter priority"),
            5 => Some("Program creative (slow program)"),
            6 => Some("Program creative (high-speed program)"),
            7 => Some("Portrait mode"),
            8 => Some("Landscape mode"),
            _ => None,
        },
        ExifTag::MeteringMode => match n {
            0 => Some("Unknown"),
            1 => Some("Average"),
            2 => Some("Center-weighted average"),
            3 => Some("Spot"),
            4 => Some("Multi-spot"),
            5 => Some("Pattern"),
            6 => Some("Partial"),
            255 => Some("Other"),
            _ => None,
        },
        ExifTag::LightSource => match n {
            0 => Some("Unknown"),
            1 => Some("Daylight"),
            2 => Some("Fluorescent"),
            3 => Some("Tungsten"),
            4 => Some("Flash"),
            9 => Some("Fine weather"),
            10 => Some("Cloudy weather"),
            11 => Some("Shade"),
            12 => Some("Daylight fluorescent (D)"),
            13 => Some("Day white fluorescent (N)"),
            14 => Some("Cool white fluorescent (W)"),
            15 => Some("White fluorescent (WW)"),
            17 => Some("Standard light A"),
            18 => Some("Standard light B"),
            19 => Some("Standard light C"),
            20 => Some("D55"),
            21 => Some("D65"),
            22 => Some("D75"),
            23 => Some("D50"),
            24 => Some("ISO studio tungsten"),
            255 => Some("Other"),
            _ => None,
        },
        ExifTag::ColorSpace => match n {
            1 => Some("sRGB"),
            65535 => Some("Uncalibrated"),
            _ => None,
        },
        ExifTag::SensingMethod => match n {
            1 => Some("Not defined"),
            2 => Some("One-chip color area sensor"),
            3 => Some("Two-chip color area sensor"),
            4 => Some("Three-chip color area sensor"),
            5 => Some("Color sequential area sensor"),
            7 => Some("Trilinear sensor"),
            8 => Some("Color sequential linear sensor"),
            _ => None,
        },
        ExifTag::Sharpness | ExifTag::Contrast => match n {
            0 => Some("Normal"),
            1 => Some("Soft"),
            2 => Some("Hard"),
            _ => None,
        },
        ExifTag::Saturation => match n {
            0 => Some("Normal"),
            1 => Some("Low"),
            2 => Some("High"),
            _ => None,
        },
        ExifTag::GainControl => match n {
            0 => Some("None"),
            1 => Some("Low gain up"),
            2 => Some("High gain up"),
            3 => Some("Low gain down"),
            4 => Some("High gain down"),
            _ => None,
        },
        ExifTag::ExposureMode => match n {
            0 => Some("Auto exposure"),
            1 => Some("Manual exposure"),
            2 => Some("Auto bracket"),
            _ => None,
        },
        ExifTag::SceneCaptureType => match n {
            0 => Some("Standard"),
            1 => Some("Landscape"),
            2 => Some("Portrait"),
            3 => Some("Night scene"),
            _ => None,
        },
        ExifTag::WhiteBalanceMode => match n {
            0 => Some("Auto"),
            1 => Some("Manual"),
            _ => None,
        },
        ExifTag::CustomRendered => match n {
            0 => Some("Normal"),
            1 => Some("Custom"),
            _ => None,
        },
        ExifTag::SubjectDistanceRange => match n {
            0 => Some("Unknown"),
            1 => Some("Macro"),
            2 => Some("Close view"),
            3 => Some("Distant view"),
            _ => None,
        },
        _ => None,
    }
}

fn flash_string(n: u16) -> (r: String)
    ensures
        r@ == flash_text(n),
{
    if (n / 32) % 2 == 1 {
        return String::from_str("Does not have a flash.");
    }
    let fired = n % 2 == 1;
    let m12 = (n / 2) % 4;
    let m34 = (n / 8) % 4;
    let mut r = if fired {
        String::from_str("Fired. ")
    } else {
        String::from_str("Did not fire. ")
    };
    if m34 == 3 {
        r.append("Auto mode. ");
    } else if fired && m12 == 2 {
        r.append("Strobe ret not detected. ");
    } else if fired && m12 == 3 {
        r.append("Strobe ret detected. ");
    }
    if m34 == 1 {
        r.append("Forced fire. ");
    } else if m34 == 2 {
        r.append("Forced suppresion. ");
    }
    if fired {
        if (n / 64) % 2 == 1 {
            r.append("Redeye reduction. ");
        } else {
            r.append("No redeye reduction. ");
        }
    }
    assert(r@ =~= flash_text(n));
    r
}

fn ascii_label(tag: ExifTag, s: &String) -> (r: Option<&'static str>)
    ensures
        r matches Some(l) ==> ascii_label_of(tag, s@) == Some(l@),
        r is None ==> ascii_label_of(tag, s@) is None,
{
    let is = |c: &str| -> (b: bool)
        ensures
            b == (s@ == c@),
        { *s == String::from_str(c) };
    match tag {
        ExifTag::GPSSpeedRef => if is("N") {
            Some("kn")
        } else if is("K") {
            Some("km/h")
        } else if is("M") {
            Some("mi/h")
        } else {
            None
        },
        ExifTag::GPSDestDistanceRef => if is("N") {
            Some("kn")
        } else if is("K") {
            Some("km")
        } else if is("M") {
            Some("mi")
        } else {
            None
        },
        ExifTag::GPSTrackRef | ExifTag::GPSImgDirectionRef | ExifTag::GPSDestBearingRef => if is(
            "T",
        ) {
            Some("True bearing")
        } else if is("M") {
            Some("Magnetic bearing")
        } else {
            None
        },
        ExifTag::GPSStatus => if is("A") {
            Some("Measurement in progress")
        } else if is("V") {
            Some("Measurement is interoperability")
        } else {
            None
        },
        _ => if is("2") {
            Some("2-dimension")
        } else if is("3") {
            Some("3-dimension")
        } else {
            None
        },
    }
}

/// "`prefix`a,b".
fn pair_string(prefix: &str, a: u16, b: u16) -> (r: String)
    ensures
        r@ == prefix@ + int_text(a as int) + ","@ + int_text(b as int),
{
    let mut r = String::from_str(prefix);
    let x = int_string(a as i128);
    r.append(x.as_str());
    r.append(",");
    let y = int_string(b as i128);
    r.append(y.as_str());
    r
}

/// The text of tags with a display of their own, `None` for other tags.
fn formatted_value(tag: ExifTag, v: &TagValue) -> (r: Option<String>)
    ensures
        r matches Some(t) ==> formatted_text(tag, v@) == Some(t@),
        r is None ==> formatted_text(tag, v@) is None,
{
    match tag {
        ExifTag::FocalLengthIn35mmFilm => Some(
            match v {
                TagValue::U16(s) => if s.len() > 0 {
                    let mut r = int_string(s[0] as i128);
                    r.append(" mm");
                    r
                } else {
                    String::new()
                },
                _ => String::new(),
            },
        ),
        ExifTag::ISOSpeedRatings => Some(
            match v {
                TagValue::U16(s) => if s.len() == 1 {
                    let mut r = String::from_str("ISO ");
                    let x = int_string(s[0] as i128);
                    r.append(x.as_str());
                    r
                } else if s.len() == 2 || s.len() == 3 {
                    let mut r = String::from_str("ISO ");
                    let x = int_string(s[0] as i128);
                    r.append(x.as_str());
                    r.append(" latitude ");
                    let y = int_string(s[1] as i128);
                    r.append(y.as_str());
                    r
                } else {
                    let mut r = String::from_str("Unknown (");
                    let x = u16_list_text(s);
                    r.append(x.as_str());
                    r.append(")");
                    r
                },
                _ => String::new(),
            },
        ),
        ExifTag::SubjectArea => Some(
            match v {
                TagValue::U16(s) => if s.len() == 2 {
                    pair_string("at pixel ", s[0], s[1])
                } else if s.len() == 3 {
                    let mut r = pair_string("at center ", s[0], s[1]);
                    r.append(" radius ");
                    let x = int_string(s[2] as i128);
                    r.append(x.as_str());
                    r
                } else if s.len() == 4 {
                    let mut r = pair_string("at rectangle ", s[0], s[1]);
                    r.append(" width ");
                    let x = int_string(s[2] as i128);
                    r.append(x.as_str());
                    r.append(" height ");
                    let y = int_string(s[3] as i128);
                    r.append(y.as_str());
                    r
                } else {
                    let mut r = String::from_str("Unknown (");
                    let x = u16_list_text(s);
                    r.append(x.as_str());
                    r.append(") ");
                    r
                },
                _ => String::new(),
            },
        ),
        ExifTag::SubjectLocation => Some(
            match v {
                TagValue::U16(s) => if s.len() >= 2 {
                    pair_string("at pixel ", s[0], s[1])
                } else {
                    String::new()
                },
                _ => String::new(),
            },
        ),
        ExifTag::Flash => Some(
            match v {
                TagValue::U16(s) => if s.len() > 0 {
                    flash_string(s[0])
                } else {
                    String::new()
                },
                _ => String::new(),
            },
        ),
        ExifTag::OECF | ExifTag::MakerNote | ExifTag::DeviceSettingDescription => Some(
            match v {
                TagValue::Undefined(b, _) => {
                    let mut r = String::from_str("Blob of ");
                    let x = int_string(b.len() as i128);
                    r.append(x.as_str());
                    r.append(" bytes");
                    r
                },
                _ => String::new(),
            },
        ),
        ExifTag::FileSource => Some(
            match v {
                TagValue::Undefined(b, _) => if b.len() > 0 && b[0] == 3 {
                    String::from_str("DSC")
                } else {
                    String::from_str("Unknown")
                },
                _ => String::new(),
            },
        ),
        ExifTag::SceneType => Some(
            match v {
                TagValue::Undefined(b, _) => if b.len() == 0 {
                    String::new()
                } else if b[0] == 1 {
                    String::from_str("Directly photographed image")
                } else {
                    let mut r = String::from_str("Unknown (");
                    let x = int_string(b[0] as i128);
                    r.append(x.as_str());
                    r.append(")");
                    r
                },
                _ => String::new(),
            },
        ),
        ExifTag::ExifVersion | ExifTag::FlashPixVersion => Some(
            match v {
                TagValue::Undefined(b, _) => text_from_bytes(b.as_slice()),
                _ => String::new(),
            },
        ),
        ExifTag::UserComment | ExifTag::GPSProcessingMethod | ExifTag::GPSAreaInformation => Some(
            match v {
                TagValue::Undefined(b, le) => encoded_string(b.as_slice(), *le),
                _ => String::new(),
            },
        ),
        ExifTag::GPSSpeedRef | ExifTag::GPSDestDistanceRef | ExifTag::GPSTrackRef
        | ExifTag::GPSImgDirectionRef | ExifTag::GPSDestBearingRef | ExifTag::GPSStatus
        | ExifTag::GPSMeasureMode => Some(
            match v {
                TagValue::Ascii(s) => match ascii_label(tag, s) {
                    Some(l) => String::from_str(l),
                    None => {
                        let mut r = String::from_str("Unknown (");
                        r.append(s.as_str());
                        r.append(")");
                        r
                    },
                },
                _ => String::new(),
            },
        ),
        _ => None,
    }
}

/// Human-readable text of a value of the given tag.
pub fn readable_value(tag: ExifTag, v: &TagValue) -> (r: String)
    ensures
        r@ == readable_text(tag, v@),
{
    let enumerated = match tag {
        ExifTag::Orientation | ExifTag::ResolutionUnit | ExifTag::FocalPlaneResolutionUnit | ExifTag::GPSAltitudeRef | ExifTag::GPSDifferential | ExifTag::SensitivityType | ExifTag::ExposureProgram | ExifTag::MeteringMode | ExifTag::LightSource | ExifTag::ColorSpace | ExifTag::SensingMethod | ExifTag::Sharpness | ExifTag::Contrast | ExifTag::Saturation | ExifTag::GainControl | ExifTag::ExposureMode | ExifTag::SceneCaptureType | ExifTag::WhiteBalanceMode | ExifTag::CustomRendered | ExifTag::SubjectDistanceRange => true,
        _ => false,
    };
    if !enumerated {
        return match formatted_value(tag, v) {
            Some(t) => t,
            None => value_string(v),
        };
    }
    let code: Option<u16> = match v {
        TagValue::U8(s) => if tag == ExifTag::GPSAltitudeRef && s.len() > 0 {
            Some(s[0] as u16)
        } else {
            None
        },
        TagValue::U16(s) => if tag != ExifTag::GPSAltitudeRef && s.len() > 0 {
            Some(s[0])
        } else {
            None
        },
        _ => None,
    };
    match code {
        None => String::new(),
        Some(n) => match label(tag, n) {
            Some(l) => String::from_str(l),
            None => {
                let mut t = if tag == ExifTag::GPSAltitudeRef {
                    String::from_str("Unknown, assumed below sea level (")
                } else {
                    String::from_str("Unknown (")
                };
                let d = int_string(n as i128);
                t.append(d.as_str());
                t.append(")");
                t
            },
        },
    }
}

} // verus!
