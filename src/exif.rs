//! The tag dictionary: semantic tags, their codes, expected formats and counts, and units.
use vstd::prelude::*;

use crate::types::IfdFormat;

verus! {

/// Recognised tags. Codes are given by `code`; `UnknownToMe` stands for any code that is
/// not in the dictionary.
#[derive(Copy, Clone, Debug, PartialEq, Eq, Structural, Hash)]
pub enum ExifTag {
    UnknownToMe,
    ImageDescription,
    Make,
    Model,
    Orientation,
    XResolution,
    YResolution,
    ResolutionUnit,
    Software,
    DateTime,
    HostComputer,
    WhitePoint,
    PrimaryChromaticities,
    YCbCrCoefficients,
    ReferenceBlackWhite,
    Copyright,
    ExifOffset,
    GPSOffset,
    ExposureTime,
    FNumber,
    ExposureProgram,
    SpectralSensitivity,
    ISOSpeedRatings,
    OECF,
    SensitivityType,
    ExifVersion,
    DateTimeOriginal,
    DateTimeDigitized,
    ShutterSpeedValue,
    ApertureValue,
    BrightnessValue,
    ExposureBiasValue,
    MaxApertureValue,
    SubjectDistance,
    MeteringMode,
    LightSource,
    Flash,
    FocalLength,
    SubjectArea,
    MakerNote,
    UserComment,
    FlashPixVersion,
    ColorSpace,
    RelatedSoundFile,
    FlashEnergy,
    FocalPlaneXResolution,
    FocalPlaneYResolution,
    FocalPlaneResolutionUnit,
    SubjectLocation,
    ExposureIndex,
    SensingMethod,
    FileSource,
    SceneType,
    CFAPattern,
    CustomRendered,
    ExposureMode,
    WhiteBalanceMode,
    DigitalZoomRatio,
    FocalLengthIn35mmFilm,
    SceneCaptureType,
    GainControl,
    Contrast,
    Saturation,
    Sharpness,
    DeviceSettingDescription,
    SubjectDistanceRange,
    ImageUniqueID,
    LensSpecification,
    LensMake,
    LensModel,
    Gamma,
    GPSVersionID,
    GPSLatitudeRef,
    GPSLatitude,
    GPSLongitudeRef,
    GPSLongitude,
    GPSAltitudeRef,
    GPSAltitude,
    GPSTimeStamp,
    GPSSatellites,
    GPSStatus,
    GPSMeasureMode,
    GPSDOP,
    GPSSpeedRef,
    GPSSpeed,
    GPSTrackRef,
    GPSTrack,
    GPSImgDirectionRef,
    GPSImgDirection,
    GPSMapDatum,
    GPSDestLatitudeRef,
    GPSDestLatitude,
    GPSDestLongitudeRef,
    GPSDestLongitude,
    GPSDestBearingRef,
    GPSDestBearing,
    GPSDestDistanceRef,
    GPSDestDistance,
    GPSProcessingMethod,
    GPSAreaInformation,
    GPSDateStamp,
    GPSDifferential,
}

/// The semantic tag of a record's numeric tag code.
pub open spec fn tag_of_code(code: u16) -> ExifTag {
    match code {
        0x010e => ExifTag::ImageDescription,
        0x010f => ExifTag::Make,
        0x0110 => ExifTag::Model,
        0x0112 => ExifTag::Orientation,
        0x011a => ExifTag::XResolution,
        0x011b => ExifTag::YResolution,
        0x0128 => ExifTag::ResolutionUnit,
        0x0131 => ExifTag::Software,
        0x0132 => ExifTag::DateTime,
        0x013c => ExifTag::HostComputer,
        0x013e => ExifTag::WhitePoint,
        0x013f => ExifTag::PrimaryChromaticities,
        0x0211 => ExifTag::YCbCrCoefficients,
        0x0214 => ExifTag::ReferenceBlackWhite,
        0x8298 => ExifTag::Copyright,
        0x8769 => ExifTag::ExifOffset,
        0x8825 => ExifTag::GPSOffset,
        0x829a => ExifTag::ExposureTime,
        0x829d => ExifTag::FNumber,
        0x8822 => ExifTag::ExposureProgram,
        0x8824 => ExifTag::SpectralSensitivity,
        0x8827 => ExifTag::ISOSpeedRatings,
        0x8828 => ExifTag::OECF,
        0x8830 => ExifTag::SensitivityType,
        0x9000 => ExifTag::ExifVersion,
        0x9003 => ExifTag::DateTimeOriginal,
        0x9004 => ExifTag::DateTimeDigitized,
        0x9201 => ExifTag::ShutterSpeedValue,
        0x9202 => ExifTag::ApertureValue,
        0x9203 => ExifTag::BrightnessValue,
        0x9204 => ExifTag::ExposureBiasValue,
        0x9205 => ExifTag::MaxApertureValue,
        0x9206 => ExifTag::SubjectDistance,
        0x9207 => ExifTag::MeteringMode,
        0x9208 => ExifTag::LightSource,
        0x9209 => ExifTag::Flash,
        0x920a => ExifTag::FocalLength,
        0x9214 => ExifTag::SubjectArea,
        0x927c => ExifTag::MakerNote,
        0x9286 => ExifTag::UserComment,
        0xa000 => ExifTag::FlashPixVersion,
        0xa001 => ExifTag::ColorSpace,
        0xa004 => ExifTag::RelatedSoundFile,
        0xa20b => ExifTag::FlashEnergy,
        0xa20e => ExifTag::FocalPlaneXResolution,
        0xa20f => ExifTag::FocalPlaneYResolution,
        0xa210 => ExifTag::FocalPlaneResolutionUnit,
        0xa214 => ExifTag::SubjectLocation,
        0xa215 => ExifTag::ExposureIndex,
        0xa217 => ExifTag::SensingMethod,
        0xa300 => ExifTag::FileSource,
        0xa301 => ExifTag::SceneType,
        0xa302 => ExifTag::CFAPattern,
        0xa401 => ExifTag::CustomRendered,
        0xa402 => ExifTag::ExposureMode,
        0xa403 => ExifTag::WhiteBalanceMode,
        0xa404 => ExifTag::DigitalZoomRatio,
        0xa405 => ExifTag::FocalLengthIn35mmFilm,
        0xa406 => ExifTag::SceneCaptureType,
        0xa407 => ExifTag::GainControl,
        0xa408 => ExifTag::Contrast,
        0xa409 => ExifTag::Saturation,
        0xa40a => ExifTag::Sharpness,
        0xa40b => ExifTag::DeviceSettingDescription,
        0xa40c => ExifTag::SubjectDistanceRange,
        0xa420 => ExifTag::ImageUniqueID,
        0xa432 => ExifTag::LensSpecification,
        0xa433 => ExifTag::LensMake,
        0xa434 => ExifTag::LensModel,
        0xa500 => ExifTag::Gamma,
        0x0000 => ExifTag::GPSVersionID,
        0x0001 => ExifTag::GPSLatitudeRef,
        0x0002 => ExifTag::GPSLatitude,
        0x0003 => ExifTag::GPSLongitudeRef,
        0x0004 => ExifTag::GPSLongitude,
        0x0005 => ExifTag::GPSAltitudeRef,
        0x0006 => ExifTag::GPSAltitude,
        0x0007 => ExifTag::GPSTimeStamp,
        0x0008 => ExifTag::GPSSatellites,
        0x0009 => ExifTag::GPSStatus,
        0x000a => ExifTag::GPSMeasureMode,
        0x000b => ExifTag::GPSDOP,
        0x000c => ExifTag::GPSSpeedRef,
        0x000d => ExifTag::GPSSpeed,
        0x000e => ExifTag::GPSTrackRef,
        0x000f => ExifTag::GPSTrack,
        0x0010 => ExifTag::GPSImgDirectionRef,
        0x0011 => ExifTag::GPSImgDirection,
        0x0012 => ExifTag::GPSMapDatum,
        0x0013 => ExifTag::GPSDestLatitudeRef,
        0x0014 => ExifTag::GPSDestLatitude,
        0x0015 => ExifTag::GPSDestLongitudeRef,
        0x0016 => ExifTag::GPSDestLongitude,
        0x0017 => ExifTag::GPSDestBearingRef,
        0x0018 => ExifTag::GPSDestBearing,
        0x0019 => ExifTag::GPSDestDistanceRef,
        0x001a => ExifTag::GPSDestDistance,
        0x001b => ExifTag::GPSProcessingMethod,
        0x001c => ExifTag::GPSAreaInformation,
        0x001d => ExifTag::GPSDateStamp,
        0x001e => ExifTag::GPSDifferential,
        _ => ExifTag::UnknownToMe,
    }
}

/// The numeric code of a tag; `UnknownToMe` has the code 0xffff.
pub open spec fn code_of_tag(t: ExifTag) -> u16 {
    match t {
        ExifTag::UnknownToMe => 0xffff,
        ExifTag::ImageDescription => 0x010e,
        ExifTag::Make => 0x010f,
        ExifTag::Model => 0x0110,
        ExifTag::Orientation => 0x0112,
        ExifTag::XResolution => 0x011a,
        ExifTag::YResolution => 0x011b,
        ExifTag::ResolutionUnit => 0x0128,
        ExifTag::Software => 0x0131,
        ExifTag::DateTime => 0x0132,
        ExifTag::HostComputer => 0x013c,
        ExifTag::WhitePoint => 0x013e,
        ExifTag::PrimaryChromaticities => 0x013f,
        ExifTag::YCbCrCoefficients => 0x0211,
        ExifTag::ReferenceBlackWhite => 0x0214,
        ExifTag::Copyright => 0x8298,
        ExifTag::ExifOffset => 0x8769,
        ExifTag::GPSOffset => 0x8825,
        ExifTag::ExposureTime => 0x829a,
        ExifTag::FNumber => 0x829d,
        ExifTag::ExposureProgram => 0x8822,
        ExifTag::SpectralSensitivity => 0x8824,
        ExifTag::ISOSpeedRatings => 0x8827,
        ExifTag::OECF => 0x8828,
        ExifTag::SensitivityType => 0x8830,
        ExifTag::ExifVersion => 0x9000,
        ExifTag::DateTimeOriginal => 0x9003,
        ExifTag::DateTimeDigitized => 0x9004,
        ExifTag::ShutterSpeedValue => 0x9201,
        ExifTag::ApertureValue => 0x9202,
        ExifTag::BrightnessValue => 0x9203,
        ExifTag::ExposureBiasValue => 0x9204,
        ExifTag::MaxApertureValue => 0x9205,
        ExifTag::SubjectDistance => 0x9206,
        ExifTag::MeteringMode => 0x9207,
        ExifTag::LightSource => 0x9208,
        ExifTag::Flash => 0x9209,
        ExifTag::FocalLength => 0x920a,
        ExifTag::SubjectArea => 0x9214,
        ExifTag::MakerNote => 0x927c,
        ExifTag::UserComment => 0x9286,
        ExifTag::FlashPixVersion => 0xa000,
        ExifTag::ColorSpace => 0xa001,
        ExifTag::RelatedSoundFile => 0xa004,
        ExifTag::FlashEnergy => 0xa20b,
        ExifTag::FocalPlaneXResolution => 0xa20e,
        ExifTag::FocalPlaneYResolution => 0xa20f,
        ExifTag::FocalPlaneResolutionUnit => 0xa210,
        ExifTag::SubjectLocation => 0xa214,
        ExifTag::ExposureIndex => 0xa215,
        ExifTag::SensingMethod => 0xa217,
        ExifTag::FileSource => 0xa300,
        ExifTag::SceneType => 0xa301,
        ExifTag::CFAPattern => 0xa302,
        ExifTag::CustomRendered => 0xa401,
        ExifTag::ExposureMode => 0xa402,
        ExifTag::WhiteBalanceMode => 0xa403,
        ExifTag::DigitalZoomRatio => 0xa404,
        ExifTag::FocalLengthIn35mmFilm => 0xa405,
        ExifTag::SceneCaptureType => 0xa406,
        ExifTag::GainControl => 0xa407,
        ExifTag::Contrast => 0xa408,
        ExifTag::Saturation => 0xa409,
        ExifTag::Sharpness => 0xa40a,
        ExifTag::DeviceSettingDescription => 0xa40b,
        ExifTag::SubjectDistanceRange => 0xa40c,
        ExifTag::ImageUniqueID => 0xa420,
        ExifTag::LensSpecification => 0xa432,
        ExifTag::LensMake => 0xa433,
        ExifTag::LensModel => 0xa434,
        ExifTag::Gamma => 0xa500,
        ExifTag::GPSVersionID => 0x0000,
        ExifTag::GPSLatitudeRef => 0x0001,
        ExifTag::GPSLatitude => 0x0002,
        ExifTag::GPSLongitudeRef => 0x0003,
        ExifTag::GPSLongitude => 0x0004,
        ExifTag::GPSAltitudeRef => 0x0005,
        ExifTag::GPSAltitude => 0x0006,
        ExifTag::GPSTimeStamp => 0x0007,
        ExifTag::GPSSatellites => 0x0008,
        ExifTag::GPSStatus => 0x0009,
        ExifTag::GPSMeasureMode => 0x000a,
        ExifTag::GPSDOP => 0x000b,
        ExifTag::GPSSpeedRef => 0x000c,
        ExifTag::GPSSpeed => 0x000d,
        ExifTag::GPSTrackRef => 0x000e,
        ExifTag::GPSTrack => 0x000f,
        ExifTag::GPSImgDirectionRef => 0x0010,
        ExifTag::GPSImgDirection => 0x0011,
        ExifTag::GPSMapDatum => 0x0012,
        ExifTag::GPSDestLatitudeRef => 0x0013,
        ExifTag::GPSDestLatitude => 0x0014,
        ExifTag::GPSDestLongitudeRef => 0x0015,
        ExifTag::GPSDestLongitude => 0x0016,
        ExifTag::GPSDestBearingRef => 0x0017,
        ExifTag::GPSDestBearing => 0x0018,
        ExifTag::GPSDestDistanceRef => 0x0019,
        ExifTag::GPSDestDistance => 0x001a,
        ExifTag::GPSProcessingMethod => 0x001b,
        ExifTag::GPSAreaInformation => 0x001c,
        ExifTag::GPSDateStamp => 0x001d,
        ExifTag::GPSDifferential => 0x001e,
    }
}

/// The unit of a tag's value. A unit that starts with `@` names the tag that holds it.
pub open spec fn unit_of_tag(t: ExifTag) -> Seq<char> {
    match t {
        ExifTag::UnknownToMe => ""@,
        ExifTag::ImageDescription => "none"@,
        ExifTag::Make => "none"@,
        ExifTag::Model => "none"@,
        ExifTag::Orientation => "none"@,
        ExifTag::XResolution => "pixels per res unit"@,
        ExifTag::YResolution => "pixels per res unit"@,
        ExifTag::ResolutionUnit => "none"@,
        ExifTag::Software => "none"@,
        ExifTag::DateTime => "none"@,
        ExifTag::HostComputer => "none"@,
        ExifTag::WhitePoint => "CIE 1931 coordinates"@,
        ExifTag::PrimaryChromaticities => "CIE 1931 coordinates"@,
        ExifTag::YCbCrCoefficients => "none"@,
        ExifTag::ReferenceBlackWhite => "RGB or YCbCr"@,
        ExifTag::Copyright => "none"@,
        ExifTag::ExifOffset => "byte offset"@,
        ExifTag::GPSOffset => "byte offset"@,
        ExifTag::ExposureTime => "s"@,
        ExifTag::FNumber => "f-number"@,
        ExifTag::ExposureProgram => "none"@,
        ExifTag::SpectralSensitivity => "ASTM string"@,
        ExifTag::ISOSpeedRatings => "ISO"@,
        ExifTag::OECF => "none"@,
        ExifTag::SensitivityType => "none"@,
        ExifTag::ExifVersion => "none"@,
        ExifTag::DateTimeOriginal => "none"@,
        ExifTag::DateTimeDigitized => "none"@,
        ExifTag::ShutterSpeedValue => "APEX"@,
        ExifTag::ApertureValue => "APEX"@,
        ExifTag::BrightnessValue => "APEX"@,
        ExifTag::ExposureBiasValue => "APEX"@,
        ExifTag::MaxApertureValue => "APEX"@,
        ExifTag::SubjectDistance => "m"@,
        ExifTag::MeteringMode => "none"@,
        ExifTag::LightSource => "none"@,
        ExifTag::Flash => "none"@,
        ExifTag::FocalLength => "mm"@,
        ExifTag::SubjectArea => "px"@,
        ExifTag::MakerNote => "none"@,
        ExifTag::UserComment => "none"@,
        ExifTag::FlashPixVersion => "none"@,
        ExifTag::ColorSpace => "none"@,
        ExifTag::RelatedSoundFile => "none"@,
        ExifTag::FlashEnergy => "BCPS"@,
        ExifTag::FocalPlaneXResolution => "@FocalPlaneResolutionUnit"@,
        ExifTag::FocalPlaneYResolution => "@FocalPlaneResolutionUnit"@,
        ExifTag::FocalPlaneResolutionUnit => "none"@,
        ExifTag::SubjectLocation => "X,Y"@,
        ExifTag::ExposureIndex => "EI"@,
        ExifTag::SensingMethod => "none"@,
        ExifTag::FileSource => "none"@,
        ExifTag::SceneType => "none"@,
        ExifTag::CFAPattern => "none"@,
        ExifTag::CustomRendered => "none"@,
        ExifTag::ExposureMode => "none"@,
        ExifTag::WhiteBalanceMode => "none"@,
        ExifTag::DigitalZoomRatio => "none"@,
        ExifTag::FocalLengthIn35mmFilm => "mm"@,
        ExifTag::SceneCaptureType => "none"@,
        ExifTag::GainControl => "none"@,
        ExifTag::Contrast => "none"@,
        ExifTag::Saturation => "none"@,
        ExifTag::Sharpness => "none"@,
        ExifTag::DeviceSettingDescription => "none"@,
        ExifTag::SubjectDistanceRange => "none"@,
        ExifTag::ImageUniqueID => "none"@,
        ExifTag::LensSpecification => "none"@,
        ExifTag::LensMake => "none"@,
        ExifTag::LensModel => "none"@,
        ExifTag::Gamma => "none"@,
        ExifTag::GPSVersionID => "none"@,
        ExifTag::GPSLatitudeRef => "none"@,
        ExifTag::GPSLatitude => "D/M/S"@,
        ExifTag::GPSLongitudeRef => "none"@,
        ExifTag::GPSLongitude => "D/M/S"@,
        ExifTag::GPSAltitudeRef => "none"@,
        ExifTag::GPSAltitude => "m"@,
        ExifTag::GPSTimeStamp => "UTC time"@,
        ExifTag::GPSSatellites => "none"@,
        ExifTag::GPSStatus => "none"@,
        ExifTag::GPSMeasureMode => "none"@,
        ExifTag::GPSDOP => "none"@,
        ExifTag::GPSSpeedRef => "none"@,
        ExifTag::GPSSpeed => "@GPSSpeedRef"@,
        ExifTag::GPSTrackRef => "none"@,
        ExifTag::GPSTrack => "deg"@,
        ExifTag::GPSImgDirectionRef => "none"@,
        ExifTag::GPSImgDirection => "deg"@,
        ExifTag::GPSMapDatum => "none"@,
        ExifTag::GPSDestLatitudeRef => "none"@,
        ExifTag::GPSDestLatitude => "D/M/S"@,
        ExifTag::GPSDestLongitudeRef => "none"@,
        ExifTag::GPSDestLongitude => "D/M/S"@,
        ExifTag::GPSDestBearingRef => "none"@,
        ExifTag::GPSDestBearing => "deg"@,
        ExifTag::GPSDestDistanceRef => "none"@,
        ExifTag::GPSDestDistance => "@GPSDestDistanceRef"@,
        ExifTag::GPSProcessingMethod => "none"@,
        ExifTag::GPSAreaInformation => "none"@,
        ExifTag::GPSDateStamp => "none"@,
        ExifTag::GPSDifferential => "none"@,
    }
}

/// The format a tag is expected in, and its allowed count range; a range of -1 means
/// any count.
pub open spec fn expected_of_tag(t: ExifTag) -> (IfdFormat, i32, i32) {
    match t {
        ExifTag::UnknownToMe => (IfdFormat::Unknown, -1i32, -1i32),
        ExifTag::ImageDescription => (IfdFormat::Ascii, -1i32, -1i32),
        ExifTag::Make => (IfdFormat::Ascii, -1i32, -1i32),
        ExifTag::Model => (IfdFormat::Ascii, -1i32, -1i32),
        ExifTag::Orientation => (IfdFormat::U16, 1i32, 1i32),
        ExifTag::XResolution => (IfdFormat::URational, 1i32, 1i32),
        ExifTag::YResolution => (IfdFormat::URational, 1i32, 1i32),
        ExifTag::ResolutionUnit => (IfdFormat::U16, 1i32, 1i32),
        ExifTag::Software => (IfdFormat::Ascii, -1i32, -1i32),
        ExifTag::DateTime => (IfdFormat::Ascii, -1i32, -1i32),
        ExifTag::HostComputer => (IfdFormat::Ascii, -1i32, -1i32),
        ExifTag::WhitePoint => (IfdFormat::URational, 2i32, 2i32),
        ExifTag::PrimaryChromaticities => (IfdFormat::URational, 6i32, 6i32),
        ExifTag::YCbCrCoefficients => (IfdFormat::URational, 3i32, 3i32),
        ExifTag::ReferenceBlackWhite => (IfdFormat::URational, 6i32, 6i32),
        ExifTag::Copyright => (IfdFormat::Ascii, -1i32, -1i32),
        ExifTag::ExifOffset => (IfdFormat::U32, 1i32, 1i32),
        ExifTag::GPSOffset => (IfdFormat::U32, 1i32, 1i32),
        ExifTag::ExposureTime => (IfdFormat::URational, 1i32, 1i32),
        ExifTag::FNumber => (IfdFormat::URational, 1i32, 1i32),
        ExifTag::ExposureProgram => (IfdFormat::U16, 1i32, 1i32),
        ExifTag::SpectralSensitivity => (IfdFormat::Ascii, -1i32, -1i32),
        ExifTag::ISOSpeedRatings => (IfdFormat::U16, 1i32, 3i32),
        ExifTag::OECF => (IfdFormat::Undefined, -1i32, -1i32),
        ExifTag::SensitivityType => (IfdFormat::U16, 1i32, 1i32),
        ExifTag::ExifVersion => (IfdFormat::Undefined, -1i32, -1i32),
        ExifTag::DateTimeOriginal => (IfdFormat::Ascii, -1i32, -1i32),
        ExifTag::DateTimeDigitized => (IfdFormat::Ascii, -1i32, -1i32),
        ExifTag::ShutterSpeedValue => (IfdFormat::IRational, 1i32, 1i32),
        ExifTag::ApertureValue => (IfdFormat::URational, 1i32, 1i32),
        ExifTag::BrightnessValue => (IfdFormat::IRational, 1i32, 1i32),
        ExifTag::ExposureBiasValue => (IfdFormat::IRational, 1i32, 1i32),
        ExifTag::MaxApertureValue => (IfdFormat::URational, 1i32, 1i32),
        ExifTag::SubjectDistance => (IfdFormat::URational, 1i32, 1i32),
        ExifTag::MeteringMode => (IfdFormat::U16, 1i32, 1i32),
        ExifTag::LightSource => (IfdFormat::U16, 1i32, 1i32),
        ExifTag::Flash => (IfdFormat::U16, 1i32, 2i32),
        ExifTag::FocalLength => (IfdFormat::URational, 1i32, 1i32),
        ExifTag::SubjectArea => (IfdFormat::U16, 2i32, 4i32),
        ExifTag::MakerNote => (IfdFormat::Undefined, -1i32, -1i32),
        ExifTag::UserComment => (IfdFormat::Undefined, -1i32, -1i32),
        ExifTag::FlashPixVersion => (IfdFormat::Undefined, -1i32, -1i32),
        ExifTag::ColorSpace => (IfdFormat::U16, 1i32, 1i32),
        ExifTag::RelatedSoundFile => (IfdFormat::Ascii, -1i32, -1i32),
        ExifTag::FlashEnergy => (IfdFormat::URational, 1i32, 1i32),
        ExifTag::FocalPlaneXResolution => (IfdFormat::URational, 1i32, 1i32),
        ExifTag::FocalPlaneYResolution => (IfdFormat::URational, 1i32, 1i32),
        ExifTag::FocalPlaneResolutionUnit => (IfdFormat::U16, 1i32, 1i32),
        ExifTag::SubjectLocation => (IfdFormat::U16, 2i32, 2i32),
        ExifTag::ExposureIndex => (IfdFormat::URational, 1i32, 1i32),
        ExifTag::SensingMethod => (IfdFormat::U16, 1i32, 1i32),
        ExifTag::FileSource => (IfdFormat::Undefined, 1i32, 1i32),
        ExifTag::SceneType => (IfdFormat::Undefined, 1i32, 1i32),
        ExifTag::CFAPattern => (IfdFormat::Undefined, -1i32, -1i32),
        ExifTag::CustomRendered => (IfdFormat::U16, 1i32, 1i32),
        ExifTag::ExposureMode => (IfdFormat::U16, 1i32, 1i32),
        ExifTag::WhiteBalanceMode => (IfdFormat::U16, 1i32, 1i32),
        ExifTag::DigitalZoomRatio => (IfdFormat::URational, 1i32, 1i32),
        ExifTag::FocalLengthIn35mmFilm => (IfdFormat::U16, 1i32, 1i32),
        ExifTag::SceneCaptureType => (IfdFormat::U16, 1i32, 1i32),
        ExifTag::GainControl => (IfdFormat::U16, 1i32, 1i32),
        ExifTag::Contrast => (IfdFormat::U16, 1i32, 1i32),
        ExifTag::Saturation => (IfdFormat::U16, 1i32, 1i32),
        ExifTag::Sharpness => (IfdFormat::U16, 1i32, 1i32),
        ExifTag::DeviceSettingDescription => (IfdFormat::Undefined, -1i32, -1i32),
        ExifTag::SubjectDistanceRange => (IfdFormat::U16, 1i32, 1i32),
        ExifTag::ImageUniqueID => (IfdFormat::Ascii, -1i32, -1i32),
        ExifTag::LensSpecification => (IfdFormat::URational, 4i32, 4i32),
        ExifTag::LensMake => (IfdFormat::Ascii, -1i32, -1i32),
        ExifTag::LensModel => (IfdFormat::Ascii, -1i32, -1i32),
        ExifTag::Gamma => (IfdFormat::URational, 1i32, 1i32),
        ExifTag::GPSVersionID => (IfdFormat::U8, 4i32, 4i32),
        ExifTag::GPSLatitudeRef => (IfdFormat::Ascii, -1i32, -1i32),
        ExifTag::GPSLatitude => (IfdFormat::URational, 3i32, 3i32),
        ExifTag::GPSLongitudeRef => (IfdFormat::Ascii, -1i32, -1i32),
        ExifTag::GPSLongitude => (IfdFormat::URational, 3i32, 3i32),
        ExifTag::GPSAltitudeRef => (IfdFormat::U8, 1i32, 1i32),
        ExifTag::GPSAltitude => (IfdFormat::URational, 1i32, 1i32),
        ExifTag::GPSTimeStamp => (IfdFormat::URational, 3i32, 3i32),
        ExifTag::GPSSatellites => (IfdFormat::Ascii, -1i32, -1i32),
        ExifTag::GPSStatus => (IfdFormat::Ascii, -1i32, -1i32),
        ExifTag::GPSMeasureMode => (IfdFormat::Ascii, -1i32, -1i32),
        ExifTag::GPSDOP => (IfdFormat::URational, 1i32, 1i32),
        ExifTag::GPSSpeedRef => (IfdFormat::Ascii, -1i32, -1i32),
        ExifTag::GPSSpeed => (IfdFormat::URational, 1i32, 1i32),
        ExifTag::GPSTrackRef => (IfdFormat::Ascii, -1i32, -1i32),
        ExifTag::GPSTrack => (IfdFormat::URational, 1i32, 1i32),
        ExifTag::GPSImgDirectionRef => (IfdFormat::Ascii, -1i32, -1i32),
        ExifTag::GPSImgDirection => (IfdFormat::URational, 1i32, 1i32),
        ExifTag::GPSMapDatum => (IfdFormat::Ascii, -1i32, -1i32),
        ExifTag::GPSDestLatitudeRef => (IfdFormat::Ascii, -1i32, -1i32),
        ExifTag::GPSDestLatitude => (IfdFormat::URational, 3i32, 3i32),
        ExifTag::GPSDestLongitudeRef => (IfdFormat::Ascii, -1i32, -1i32),
        ExifTag::GPSDestLongitude => (IfdFormat::URational, 3i32, 3i32),
        ExifTag::GPSDestBearingRef => (IfdFormat::Ascii, -1i32, -1i32),
        ExifTag::GPSDestBearing => (IfdFormat::URational, 1i32, 1i32),
        ExifTag::GPSDestDistanceRef => (IfdFormat::Ascii, -1i32, -1i32),
        ExifTag::GPSDestDistance => (IfdFormat::URational, 1i32, 1i32),
        ExifTag::GPSProcessingMethod => (IfdFormat::Undefined, -1i32, -1i32),
        ExifTag::GPSAreaInformation => (IfdFormat::Undefined, -1i32, -1i32),
        ExifTag::GPSDateStamp => (IfdFormat::Ascii, -1i32, -1i32),
        ExifTag::GPSDifferential => (IfdFormat::U16, 1i32, 1i32),
    }
}

/// A short English name of a tag.
pub open spec fn name_of_tag(t: ExifTag) -> Seq<char> {
    match t {
        ExifTag::ImageDescription => "Image Description"@,
        ExifTag::Make => "Manufacturer"@,
        ExifTag::HostComputer => "Host computer"@,
        ExifTag::Model => "Model"@,
        ExifTag::Orientation => "Orientation"@,
        ExifTag::XResolution => "X Resolution"@,
        ExifTag::YResolution => "Y Resolution"@,
        ExifTag::ResolutionUnit => "Resolution Unit"@,
        ExifTag::Software => "Software"@,
        ExifTag::DateTime => "Image date"@,
        ExifTag::WhitePoint => "White Point"@,
        ExifTag::PrimaryChromaticities => "Primary Chromaticities"@,
        ExifTag::YCbCrCoefficients => "YCbCr Coefficients"@,
        ExifTag::ReferenceBlackWhite => "Reference Black/White"@,
        ExifTag::Copyright => "Copyright"@,
        ExifTag::ExifOffset => "This image has an Exif SubIFD"@,
        ExifTag::GPSOffset => "This image has a GPS SubIFD"@,
        ExifTag::ExposureTime => "Exposure time"@,
        ExifTag::SensitivityType => "Sensitivity type"@,
        ExifTag::FNumber => "Aperture"@,
        ExifTag::ExposureProgram => "Exposure program"@,
        ExifTag::SpectralSensitivity => "Spectral sensitivity"@,
        ExifTag::ISOSpeedRatings => "ISO speed ratings"@,
        ExifTag::OECF => "OECF"@,
        ExifTag::ExifVersion => "Exif version"@,
        ExifTag::DateTimeOriginal => "Date of original image"@,
        ExifTag::DateTimeDigitized => "Date of image digitalization"@,
        ExifTag::ShutterSpeedValue => "Shutter speed"@,
        ExifTag::ApertureValue => "Aperture value"@,
        ExifTag::BrightnessValue => "Brightness value"@,
        ExifTag::ExposureBiasValue => "Exposure bias value"@,
        ExifTag::MaxApertureValue => "Maximum aperture value"@,
        ExifTag::SubjectDistance => "Subject distance"@,
        ExifTag::MeteringMode => "Meteting mode"@,
        ExifTag::LightSource => "Light source"@,
        ExifTag::Flash => "Flash"@,
        ExifTag::FocalLength => "Focal length"@,
        ExifTag::SubjectArea => "Subject area"@,
        ExifTag::MakerNote => "Maker note"@,
        ExifTag::UserComment => "User comment"@,
        ExifTag::FlashPixVersion => "Flashpix version"@,
        ExifTag::ColorSpace => "Color space"@,
        ExifTag::FlashEnergy => "Flash energy"@,
        ExifTag::RelatedSoundFile => "Related sound file"@,
        ExifTag::FocalPlaneXResolution => "Focal plane X resolution"@,
        ExifTag::FocalPlaneYResolution => "Focal plane Y resolution"@,
        ExifTag::FocalPlaneResolutionUnit => "Focal plane resolution unit"@,
        ExifTag::SubjectLocation => "Subject location"@,
        ExifTag::ExposureIndex => "Exposure index"@,
        ExifTag::SensingMethod => "Sensing method"@,
        ExifTag::FileSource => "File source"@,
        ExifTag::SceneType => "Scene type"@,
        ExifTag::CFAPattern => "CFA Pattern"@,
        ExifTag::CustomRendered => "Custom rendered"@,
        ExifTag::ExposureMode => "Exposure mode"@,
        ExifTag::WhiteBalanceMode => "White balance mode"@,
        ExifTag::DigitalZoomRatio => "Digital zoom ratio"@,
        ExifTag::FocalLengthIn35mmFilm => "Equivalent focal length in 35mm"@,
        ExifTag::SceneCaptureType => "Scene capture type"@,
        ExifTag::GainControl => "Gain control"@,
        ExifTag::Contrast => "Contrast"@,
        ExifTag::Saturation => "Saturation"@,
        ExifTag::Sharpness => "Sharpness"@,
        ExifTag::LensSpecification => "Lens specification"@,
        ExifTag::LensMake => "Lens manufacturer"@,
        ExifTag::LensModel => "Lens model"@,
        ExifTag::Gamma => "Gamma"@,
        ExifTag::DeviceSettingDescription => "Device setting description"@,
        ExifTag::SubjectDistanceRange => "Subject distance range"@,
        ExifTag::ImageUniqueID => "Image unique ID"@,
        ExifTag::GPSVersionID => "GPS version ID"@,
        ExifTag::GPSLatitudeRef => "GPS latitude ref"@,
        ExifTag::GPSLatitude => "GPS latitude"@,
        ExifTag::GPSLongitudeRef => "GPS longitude ref"@,
        ExifTag::GPSLongitude => "GPS longitude"@,
        ExifTag::GPSAltitudeRef => "GPS altitude ref"@,
        ExifTag::GPSAltitude => "GPS altitude"@,
        ExifTag::GPSTimeStamp => "GPS timestamp"@,
        ExifTag::GPSSatellites => "GPS satellites"@,
        ExifTag::GPSStatus => "GPS status"@,
        ExifTag::GPSMeasureMode => "GPS measure mode"@,
        ExifTag::GPSDOP => "GPS Data Degree of Precision (DOP)"@,
        ExifTag::GPSSpeedRef => "GPS speed ref"@,
        ExifTag::GPSSpeed => "GPS speed"@,
        ExifTag::GPSTrackRef => "GPS track ref"@,
        ExifTag::GPSTrack => "GPS track"@,
        ExifTag::GPSImgDirectionRef => "GPS image direction ref"@,
        ExifTag::GPSImgDirection => "GPS image direction"@,
        ExifTag::GPSMapDatum => "GPS map datum"@,
        ExifTag::GPSDestLatitudeRef => "GPS destination latitude ref"@,
        ExifTag::GPSDestLatitude => "GPS destination latitude"@,
        ExifTag::GPSDestLongitudeRef => "GPS destination longitude ref"@,
        ExifTag::GPSDestLongitude => "GPS destination longitude"@,
        ExifTag::GPSDestBearingRef => "GPS destination bearing ref"@,
        ExifTag::GPSDestBearing => "GPS destination bearing"@,
        ExifTag::GPSDestDistanceRef => "GPS destination distance ref"@,
        ExifTag::GPSDestDistance => "GPS destination distance"@,
        ExifTag::GPSProcessingMethod => "GPS processing method"@,
        ExifTag::GPSAreaInformation => "GPS area information"@,
        ExifTag::GPSDateStamp => "GPS date stamp"@,
        ExifTag::GPSDifferential => "GPS differential"@,
        ExifTag::UnknownToMe => "Unknown to this library, or manufacturer-specific"@,
    }
}

/// The dictionary gives each code it knows a tag whose code is that code.
pub proof fn lemma_dictionary_codes(code: u16)
    ensures
        tag_of_code(code) != ExifTag::UnknownToMe ==> code_of_tag(tag_of_code(code)) == code,
{
}

/// Looks a tag code up in the dictionary.
pub fn tag_from_code(code: u16) -> (r: ExifTag)
    ensures
        r == tag_of_code(code),
{
    match code {
        0x010e => ExifTag::ImageDescription,
        0x010f => ExifTag::Make,
        0x0110 => ExifTag::Model,
        0x0112 => ExifTag::Orientation,
        0x011a => ExifTag::XResolution,
        0x011b => ExifTag::YResolution,
        0x0128 => ExifTag::ResolutionUnit,
        0x0131 => ExifTag::Software,
        0x0132 => ExifTag::DateTime,
        0x013c => ExifTag::HostComputer,
        0x013e => ExifTag::WhitePoint,
        0x013f => ExifTag::PrimaryChromaticities,
        0x0211 => ExifTag::YCbCrCoefficients,
        0x0214 => ExifTag::ReferenceBlackWhite,
        0x8298 => ExifTag::Copyright,
        0x8769 => ExifTag::ExifOffset,
        0x8825 => ExifTag::GPSOffset,
        0x829a => ExifTag::ExposureTime,
        0x829d => ExifTag::FNumber,
        0x8822 => ExifTag::ExposureProgram,
        0x8824 => ExifTag::SpectralSensitivity,
        0x8827 => ExifTag::ISOSpeedRatings,
        0x8828 => ExifTag::OECF,
        0x8830 => ExifTag::SensitivityType,
        0x9000 => ExifTag::ExifVersion,
        0x9003 => ExifTag::DateTimeOriginal,
        0x9004 => ExifTag::DateTimeDigitized,
        0x9201 => ExifTag::ShutterSpeedValue,
        0x9202 => ExifTag::ApertureValue,
        0x9203 => ExifTag::BrightnessValue,
        0x9204 => ExifTag::ExposureBiasValue,
        0x9205 => ExifTag::MaxApertureValue,
        0x9206 => ExifTag::SubjectDistance,
        0x9207 => ExifTag::MeteringMode,
        0x9208 => ExifTag::LightSource,
        0x9209 => ExifTag::Flash,
        0x920a => ExifTag::FocalLength,
        0x9214 => ExifTag::SubjectArea,
        0x927c => ExifTag::MakerNote,
        0x9286 => ExifTag::UserComment,
        0xa000 => ExifTag::FlashPixVersion,
        0xa001 => ExifTag::ColorSpace,
        0xa004 => ExifTag::RelatedSoundFile,
        0xa20b => ExifTag::FlashEnergy,
        0xa20e => ExifTag::FocalPlaneXResolution,
        0xa20f => ExifTag::FocalPlaneYResolution,
        0xa210 => ExifTag::FocalPlaneResolutionUnit,
        0xa214 => ExifTag::SubjectLocation,
        0xa215 => ExifTag::ExposureIndex,
        0xa217 => ExifTag::SensingMethod,
        0xa300 => ExifTag::FileSource,
        0xa301 => ExifTag::SceneType,
        0xa302 => ExifTag::CFAPattern,
        0xa401 => ExifTag::CustomRendered,
        0xa402 => ExifTag::ExposureMode,
        0xa403 => ExifTag::WhiteBalanceMode,
        0xa404 => ExifTag::DigitalZoomRatio,
        0xa405 => ExifTag::FocalLengthIn35mmFilm,
        0xa406 => ExifTag::SceneCaptureType,
        0xa407 => ExifTag::GainControl,
        0xa408 => ExifTag::Contrast,
        0xa409 => ExifTag::Saturation,
        0xa40a => ExifTag::Sharpness,
        0xa40b => ExifTag::DeviceSettingDescription,
        0xa40c => ExifTag::SubjectDistanceRange,
        0xa420 => ExifTag::ImageUniqueID,
        0xa432 => ExifTag::LensSpecification,
        0xa433 => ExifTag::LensMake,
        0xa434 => ExifTag::LensModel,
        0xa500 => ExifTag::Gamma,
        0x0000 => ExifTag::GPSVersionID,
        0x0001 => ExifTag::GPSLatitudeRef,
        0x0002 => ExifTag::GPSLatitude,
        0x0003 => ExifTag::GPSLongitudeRef,
        0x0004 => ExifTag::GPSLongitude,
        0x0005 => ExifTag::GPSAltitudeRef,
        0x0006 => ExifTag::GPSAltitude,
        0x0007 => ExifTag::GPSTimeStamp,
        0x0008 => ExifTag::GPSSatellites,
        0x0009 => ExifTag::GPSStatus,
        0x000a => ExifTag::GPSMeasureMode,
        0x000b => ExifTag::GPSDOP,
        0x000c => ExifTag::GPSSpeedRef,
        0x000d => ExifTag::GPSSpeed,
        0x000e => ExifTag::GPSTrackRef,
        0x000f => ExifTag::GPSTrack,
        0x0010 => ExifTag::GPSImgDirectionRef,
        0x0011 => ExifTag::GPSImgDirection,
        0x0012 => ExifTag::GPSMapDatum,
        0x0013 => ExifTag::GPSDestLatitudeRef,
        0x0014 => ExifTag::GPSDestLatitude,
        0x0015 => ExifTag::GPSDestLongitudeRef,
        0x0016 => ExifTag::GPSDestLongitude,
        0x0017 => ExifTag::GPSDestBearingRef,
        0x0018 => ExifTag::GPSDestBearing,
        0x0019 => ExifTag::GPSDestDistanceRef,
        0x001a => ExifTag::GPSDestDistance,
        0x001b => ExifTag::GPSProcessingMethod,
        0x001c => ExifTag::GPSAreaInformation,
        0x001d => ExifTag::GPSDateStamp,
        0x001e => ExifTag::GPSDifferential,
        _ => ExifTag::UnknownToMe,
    }
}

impl ExifTag {
    /// The numeric tag code; 0xffff for `UnknownToMe`.
    pub fn code(&self) -> (r: u16)
        ensures
            r == code_of_tag(*self),
    {
        match self {
            ExifTag::UnknownToMe => 0xffff,
            ExifTag::ImageDescription => 0x010e,
            ExifTag::Make => 0x010f,
            ExifTag::Model => 0x0110,
            ExifTag::Orientation => 0x0112,
            ExifTag::XResolution => 0x011a,
            ExifTag::YResolution => 0x011b,
            ExifTag::ResolutionUnit => 0x0128,
            ExifTag::Software => 0x0131,
            ExifTag::DateTime => 0x0132,
            ExifTag::HostComputer => 0x013c,
            ExifTag::WhitePoint => 0x013e,
            ExifTag::PrimaryChromaticities => 0x013f,
            ExifTag::YCbCrCoefficients => 0x0211,
            ExifTag::ReferenceBlackWhite => 0x0214,
            ExifTag::Copyright => 0x8298,
            ExifTag::ExifOffset => 0x8769,
            ExifTag::GPSOffset => 0x8825,
            ExifTag::ExposureTime => 0x829a,
            ExifTag::FNumber => 0x829d,
            ExifTag::ExposureProgram => 0x8822,
            ExifTag::SpectralSensitivity => 0x8824,
            ExifTag::ISOSpeedRatings => 0x8827,
            ExifTag::OECF => 0x8828,
            ExifTag::SensitivityType => 0x8830,
            ExifTag::ExifVersion => 0x9000,
            ExifTag::DateTimeOriginal => 0x9003,
            ExifTag::DateTimeDigitized => 0x9004,
            ExifTag::ShutterSpeedValue => 0x9201,
            ExifTag::ApertureValue => 0x9202,
            ExifTag::BrightnessValue => 0x9203,
            ExifTag::ExposureBiasValue => 0x9204,
            ExifTag::MaxApertureValue => 0x9205,
            ExifTag::SubjectDistance => 0x9206,
            ExifTag::MeteringMode => 0x9207,
            ExifTag::LightSource => 0x9208,
            ExifTag::Flash => 0x9209,
            ExifTag::FocalLength => 0x920a,
            ExifTag::SubjectArea => 0x9214,
            ExifTag::MakerNote => 0x927c,
            ExifTag::UserComment => 0x9286,
            ExifTag::FlashPixVersion => 0xa000,
            ExifTag::ColorSpace => 0xa001,
            ExifTag::RelatedSoundFile => 0xa004,
            ExifTag::FlashEnergy => 0xa20b,
            ExifTag::FocalPlaneXResolution => 0xa20e,
            ExifTag::FocalPlaneYResolution => 0xa20f,
            ExifTag::FocalPlaneResolutionUnit => 0xa210,
            ExifTag::SubjectLocation => 0xa214,
            ExifTag::ExposureIndex => 0xa215,
            ExifTag::SensingMethod => 0xa217,
            ExifTag::FileSource => 0xa300,
            ExifTag::SceneType => 0xa301,
            ExifTag::CFAPattern => 0xa302,
            ExifTag::CustomRendered => 0xa401,
            ExifTag::ExposureMode => 0xa402,
            ExifTag::WhiteBalanceMode => 0xa403,
            ExifTag::DigitalZoomRatio => 0xa404,
            ExifTag::FocalLengthIn35mmFilm => 0xa405,
            ExifTag::SceneCaptureType => 0xa406,
            ExifTag::GainControl => 0xa407,
            ExifTag::Contrast => 0xa408,
            ExifTag::Saturation => 0xa409,
            ExifTag::Sharpness => 0xa40a,
            ExifTag::DeviceSettingDescription => 0xa40b,
            ExifTag::SubjectDistanceRange => 0xa40c,
            ExifTag::ImageUniqueID => 0xa420,
            ExifTag::LensSpecification => 0xa432,
            ExifTag::LensMake => 0xa433,
            ExifTag::LensModel => 0xa434,
            ExifTag::Gamma => 0xa500,
            ExifTag::GPSVersionID => 0x0000,
            ExifTag::GPSLatitudeRef => 0x0001,
            ExifTag::GPSLatitude => 0x0002,
            ExifTag::GPSLongitudeRef => 0x0003,
            ExifTag::GPSLongitude => 0x0004,
            ExifTag::GPSAltitudeRef => 0x0005,
            ExifTag::GPSAltitude => 0x0006,
            ExifTag::GPSTimeStamp => 0x0007,
            ExifTag::GPSSatellites => 0x0008,
            ExifTag::GPSStatus => 0x0009,
            ExifTag::GPSMeasureMode => 0x000a,
            ExifTag::GPSDOP => 0x000b,
            ExifTag::GPSSpeedRef => 0x000c,
            ExifTag::GPSSpeed => 0x000d,
            ExifTag::GPSTrackRef => 0x000e,
            ExifTag::GPSTrack => 0x000f,
            ExifTag::GPSImgDirectionRef => 0x0010,
            ExifTag::GPSImgDirection => 0x0011,
            ExifTag::GPSMapDatum => 0x0012,
            ExifTag::GPSDestLatitudeRef => 0x0013,
            ExifTag::GPSDestLatitude => 0x0014,
            ExifTag::GPSDestLongitudeRef => 0x0015,
            ExifTag::GPSDestLongitude => 0x0016,
            ExifTag::GPSDestBearingRef => 0x0017,
            ExifTag::GPSDestBearing => 0x0018,
            ExifTag::GPSDestDistanceRef => 0x0019,
            ExifTag::GPSDestDistance => 0x001a,
            ExifTag::GPSProcessingMethod => 0x001b,
            ExifTag::GPSAreaInformation => 0x001c,
            ExifTag::GPSDateStamp => 0x001d,
            ExifTag::GPSDifferential => 0x001e,
        }
    }

    /// A short English name of the tag.
    pub fn name(&self) -> (r: &'static str)
        ensures
            r@ == name_of_tag(*self),
    {
        match self {
            ExifTag::ImageDescription => "Image Description",
            ExifTag::Make => "Manufacturer",
            ExifTag::HostComputer => "Host computer",
            ExifTag::Model => "Model",
            ExifTag::Orientation => "Orientation",
            ExifTag::XResolution => "X Resolution",
            ExifTag::YResolution => "Y Resolution",
            ExifTag::ResolutionUnit => "Resolution Unit",
            ExifTag::Software => "Software",
            ExifTag::DateTime => "Image date",
            ExifTag::WhitePoint => "White Point",
            ExifTag::PrimaryChromaticities => "Primary Chromaticities",
            ExifTag::YCbCrCoefficients => "YCbCr Coefficients",
            ExifTag::ReferenceBlackWhite => "Reference Black/White",
            ExifTag::Copyright => "Copyright",
            ExifTag::ExifOffset => "This image has an Exif SubIFD",
            ExifTag::GPSOffset => "This image has a GPS SubIFD",
            ExifTag::ExposureTime => "Exposure time",
            ExifTag::SensitivityType => "Sensitivity type",
            ExifTag::FNumber => "Aperture",
            ExifTag::ExposureProgram => "Exposure program",
            ExifTag::SpectralSensitivity => "Spectral sensitivity",
            ExifTag::ISOSpeedRatings => "ISO speed ratings",
            ExifTag::OECF => "OECF",
            ExifTag::ExifVersion => "Exif version",
            ExifTag::DateTimeOriginal => "Date of original image",
            ExifTag::DateTimeDigitized => "Date of image digitalization",
            ExifTag::ShutterSpeedValue => "Shutter speed",
            ExifTag::ApertureValue => "Aperture value",
            ExifTag::BrightnessValue => "Brightness value",
            ExifTag::ExposureBiasValue => "Exposure bias value",
            ExifTag::MaxApertureValue => "Maximum aperture value",
            ExifTag::SubjectDistance => "Subject distance",
            ExifTag::MeteringMode => "Meteting mode",
            ExifTag::LightSource => "Light source",
            ExifTag::Flash => "Flash",
            ExifTag::FocalLength => "Focal length",
            ExifTag::SubjectArea => "Subject area",
            ExifTag::MakerNote => "Maker note",
            ExifTag::UserComment => "User comment",
            ExifTag::FlashPixVersion => "Flashpix version",
            ExifTag::ColorSpace => "Color space",
            ExifTag::FlashEnergy => "Flash energy",
            ExifTag::RelatedSoundFile => "Related sound file",
            ExifTag::FocalPlaneXResolution => "Focal plane X resolution",
            ExifTag::FocalPlaneYResolution => "Focal plane Y resolution",
            ExifTag::FocalPlaneResolutionUnit => "Focal plane resolution unit",
            ExifTag::SubjectLocation => "Subject location",
            ExifTag::ExposureIndex => "Exposure index",
            ExifTag::SensingMethod => "Sensing method",
            ExifTag::FileSource => "File source",
            ExifTag::SceneType => "Scene type",
            ExifTag::CFAPattern => "CFA Pattern",
            ExifTag::CustomRendered => "Custom rendered",
            ExifTag::ExposureMode => "Exposure mode",
            ExifTag::WhiteBalanceMode => "White balance mode",
            ExifTag::DigitalZoomRatio => "Digital zoom ratio",
            ExifTag::FocalLengthIn35mmFilm => "Equivalent focal length in 35mm",
            ExifTag::SceneCaptureType => "Scene capture type",
            ExifTag::GainControl => "Gain control",
            ExifTag::Contrast => "Contrast",
            ExifTag::Saturation => "Saturation",
            ExifTag::Sharpness => "Sharpness",
            ExifTag::LensSpecification => "Lens specification",
            ExifTag::LensMake => "Lens manufacturer",
            ExifTag::LensModel => "Lens model",
            ExifTag::Gamma => "Gamma",
            ExifTag::DeviceSettingDescription => "Device setting description",
            ExifTag::SubjectDistanceRange => "Subject distance range",
            ExifTag::ImageUniqueID => "Image unique ID",
            ExifTag::GPSVersionID => "GPS version ID",
            ExifTag::GPSLatitudeRef => "GPS latitude ref",
            ExifTag::GPSLatitude => "GPS latitude",
            ExifTag::GPSLongitudeRef => "GPS longitude ref",
            ExifTag::GPSLongitude => "GPS longitude",
            ExifTag::GPSAltitudeRef => "GPS altitude ref",
            ExifTag::GPSAltitude => "GPS altitude",
            ExifTag::GPSTimeStamp => "GPS timestamp",
            ExifTag::GPSSatellites => "GPS satellites",
            ExifTag::GPSStatus => "GPS status",
            ExifTag::GPSMeasureMode => "GPS measure mode",
            ExifTag::GPSDOP => "GPS Data Degree of Precision (DOP)",
            ExifTag::GPSSpeedRef => "GPS speed ref",
            ExifTag::GPSSpeed => "GPS speed",
            ExifTag::GPSTrackRef => "GPS track ref",
            ExifTag::GPSTrack => "GPS track",
            ExifTag::GPSImgDirectionRef => "GPS image direction ref",
            ExifTag::GPSImgDirection => "GPS image direction",
            ExifTag::GPSMapDatum => "GPS map datum",
            ExifTag::GPSDestLatitudeRef => "GPS destination latitude ref",
            ExifTag::GPSDestLatitude => "GPS destination latitude",
            ExifTag::GPSDestLongitudeRef => "GPS destination longitude ref",
            ExifTag::GPSDestLongitude => "GPS destination longitude",
            ExifTag::GPSDestBearingRef => "GPS destination bearing ref",
            ExifTag::GPSDestBearing => "GPS destination bearing",
            ExifTag::GPSDestDistanceRef => "GPS destination distance ref",
            ExifTag::GPSDestDistance => "GPS destination distance",
            ExifTag::GPSProcessingMethod => "GPS processing method",
            ExifTag::GPSAreaInformation => "GPS area information",
            ExifTag::GPSDateStamp => "GPS date stamp",
            ExifTag::GPSDifferential => "GPS differential",
            ExifTag::UnknownToMe => "Unknown to this library, or manufacturer-specific",
        }
    }

    /// The unit of the tag's value.
    pub fn unit(&self) -> (r: &'static str)
        ensures
            r@ == unit_of_tag(*self),
    {
        match self {
            ExifTag::UnknownToMe => "",
            ExifTag::ImageDescription => "none",
            ExifTag::Make => "none",
            ExifTag::Model => "none",
            ExifTag::Orientation => "none",
            ExifTag::XResolution => "pixels per res unit",
            ExifTag::YResolution => "pixels per res unit",
            ExifTag::ResolutionUnit => "none",
            ExifTag::Software => "none",
            ExifTag::DateTime => "none",
            ExifTag::HostComputer => "none",
            ExifTag::WhitePoint => "CIE 1931 coordinates",
            ExifTag::PrimaryChromaticities => "CIE 1931 coordinates",
            ExifTag::YCbCrCoefficients => "none",
            ExifTag::ReferenceBlackWhite => "RGB or YCbCr",
            ExifTag::Copyright => "none",
            ExifTag::ExifOffset => "byte offset",
            ExifTag::GPSOffset => "byte offset",
            ExifTag::ExposureTime => "s",
            ExifTag::FNumber => "f-number",
            ExifTag::ExposureProgram => "none",
            ExifTag::SpectralSensitivity => "ASTM string",
            ExifTag::ISOSpeedRatings => "ISO",
            ExifTag::OECF => "none",
            ExifTag::SensitivityType => "none",
            ExifTag::ExifVersion => "none",
            ExifTag::DateTimeOriginal => "none",
            ExifTag::DateTimeDigitized => "none",
            ExifTag::ShutterSpeedValue => "APEX",
            ExifTag::ApertureValue => "APEX",
            ExifTag::BrightnessValue => "APEX",
            ExifTag::ExposureBiasValue => "APEX",
            ExifTag::MaxApertureValue => "APEX",
            ExifTag::SubjectDistance => "m",
            ExifTag::MeteringMode => "none",
            ExifTag::LightSource => "none",
            ExifTag::Flash => "none",
            ExifTag::FocalLength => "mm",
            ExifTag::SubjectArea => "px",
            ExifTag::MakerNote => "none",
            ExifTag::UserComment => "none",
            ExifTag::FlashPixVersion => "none",
            ExifTag::ColorSpace => "none",
            ExifTag::RelatedSoundFile => "none",
            ExifTag::FlashEnergy => "BCPS",
            ExifTag::FocalPlaneXResolution => "@FocalPlaneResolutionUnit",
            ExifTag::FocalPlaneYResolution => "@FocalPlaneResolutionUnit",
            ExifTag::FocalPlaneResolutionUnit => "none",
            ExifTag::SubjectLocation => "X,Y",
            ExifTag::ExposureIndex => "EI",
            ExifTag::SensingMethod => "none",
            ExifTag::FileSource => "none",
            ExifTag::SceneType => "none",
            ExifTag::CFAPattern => "none",
            ExifTag::CustomRendered => "none",
            ExifTag::ExposureMode => "none",
            ExifTag::WhiteBalanceMode => "none",
            ExifTag::DigitalZoomRatio => "none",
            ExifTag::FocalLengthIn35mmFilm => "mm",
            ExifTag::SceneCaptureType => "none",
            ExifTag::GainControl => "none",
            ExifTag::Contrast => "none",
            ExifTag::Saturation => "none",
            ExifTag::Sharpness => "none",
            ExifTag::DeviceSettingDescription => "none",
            ExifTag::SubjectDistanceRange => "none",
            ExifTag::ImageUniqueID => "none",
            ExifTag::LensSpecification => "none",
            ExifTag::LensMake => "none",
            ExifTag::LensModel => "none",
            ExifTag::Gamma => "none",
            ExifTag::GPSVersionID => "none",
            ExifTag::GPSLatitudeRef => "none",
            ExifTag::GPSLatitude => "D/M/S",
            ExifTag::GPSLongitudeRef => "none",
            ExifTag::GPSLongitude => "D/M/S",
            ExifTag::GPSAltitudeRef => "none",
            ExifTag::GPSAltitude => "m",
            ExifTag::GPSTimeStamp => "UTC time",
            ExifTag::GPSSatellites => "none",
            ExifTag::GPSStatus => "none",
            ExifTag::GPSMeasureMode => "none",
            ExifTag::GPSDOP => "none",
            ExifTag::GPSSpeedRef => "none",
            ExifTag::GPSSpeed => "@GPSSpeedRef",
            ExifTag::GPSTrackRef => "none",
            ExifTag::GPSTrack => "deg",
            ExifTag::GPSImgDirectionRef => "none",
            ExifTag::GPSImgDirection => "deg",
            ExifTag::GPSMapDatum => "none",
            ExifTag::GPSDestLatitudeRef => "none",
            ExifTag::GPSDestLatitude => "D/M/S",
            ExifTag::GPSDestLongitudeRef => "none",
            ExifTag::GPSDestLongitude => "D/M/S",
            ExifTag::GPSDestBearingRef => "none",
            ExifTag::GPSDestBearing => "deg",
            ExifTag::GPSDestDistanceRef => "none",
            ExifTag::GPSDestDistance => "@GPSDestDistanceRef",
            ExifTag::GPSProcessingMethod => "none",
            ExifTag::GPSAreaInformation => "none",
            ExifTag::GPSDateStamp => "none",
            ExifTag::GPSDifferential => "none",
        }
    }

    /// The expected format and the allowed count range (-1 for any count).
    pub fn expected(&self) -> (r: (IfdFormat, i32, i32))
        ensures
            r == expected_of_tag(*self),
    {
        match self {
            ExifTag::UnknownToMe => (IfdFormat::Unknown, -1i32, -1i32),
            ExifTag::ImageDescription => (IfdFormat::Ascii, -1i32, -1i32),
            ExifTag::Make => (IfdFormat::Ascii, -1i32, -1i32),
            ExifTag::Model => (IfdFormat::Ascii, -1i32, -1i32),
            ExifTag::Orientation => (IfdFormat::U16, 1i32, 1i32),
            ExifTag::XResolution => (IfdFormat::URational, 1i32, 1i32),
            ExifTag::YResolution => (IfdFormat::URational, 1i32, 1i32),
            ExifTag::ResolutionUnit => (IfdFormat::U16, 1i32, 1i32),
            ExifTag::Software => (IfdFormat::Ascii, -1i32, -1i32),
            ExifTag::DateTime => (IfdFormat::Ascii, -1i32, -1i32),
            ExifTag::HostComputer => (IfdFormat::Ascii, -1i32, -1i32),
            ExifTag::WhitePoint => (IfdFormat::URational, 2i32, 2i32),
            ExifTag::PrimaryChromaticities => (IfdFormat::URational, 6i32, 6i32),
            ExifTag::YCbCrCoefficients => (IfdFormat::URational, 3i32, 3i32),
            ExifTag::ReferenceBlackWhite => (IfdFormat::URational, 6i32, 6i32),
            ExifTag::Copyright => (IfdFormat::Ascii, -1i32, -1i32),
            ExifTag::ExifOffset => (IfdFormat::U32, 1i32, 1i32),
            ExifTag::GPSOffset => (IfdFormat::U32, 1i32, 1i32),
            ExifTag::ExposureTime => (IfdFormat::URational, 1i32, 1i32),
            ExifTag::FNumber => (IfdFormat::URational, 1i32, 1i32),
            ExifTag::ExposureProgram => (IfdFormat::U16, 1i32, 1i32),
            ExifTag::SpectralSensitivity => (IfdFormat::Ascii, -1i32, -1i32),
            ExifTag::ISOSpeedRatings => (IfdFormat::U16, 1i32, 3i32),
            ExifTag::OECF => (IfdFormat::Undefined, -1i32, -1i32),
            ExifTag::SensitivityType => (IfdFormat::U16, 1i32, 1i32),
            ExifTag::ExifVersion => (IfdFormat::Undefined, -1i32, -1i32),
            ExifTag::DateTimeOriginal => (IfdFormat::Ascii, -1i32, -1i32),
            ExifTag::DateTimeDigitized => (IfdFormat::Ascii, -1i32, -1i32),
            ExifTag::ShutterSpeedValue => (IfdFormat::IRational, 1i32, 1i32),
            ExifTag::ApertureValue => (IfdFormat::URational, 1i32, 1i32),
            ExifTag::BrightnessValue => (IfdFormat::IRational, 1i32, 1i32),
            ExifTag::ExposureBiasValue => (IfdFormat::IRational, 1i32, 1i32),
            ExifTag::MaxApertureValue => (IfdFormat::URational, 1i32, 1i32),
            ExifTag::SubjectDistance => (IfdFormat::URational, 1i32, 1i32),
            ExifTag::MeteringMode => (IfdFormat::U16, 1i32, 1i32),
            ExifTag::LightSource => (IfdFormat::U16, 1i32, 1i32),
            ExifTag::Flash => (IfdFormat::U16, 1i32, 2i32),
            ExifTag::FocalLength => (IfdFormat::URational, 1i32, 1i32),
            ExifTag::SubjectArea => (IfdFormat::U16, 2i32, 4i32),
            ExifTag::MakerNote => (IfdFormat::Undefined, -1i32, -1i32),
            ExifTag::UserComment => (IfdFormat::Undefined, -1i32, -1i32),
            ExifTag::FlashPixVersion => (IfdFormat::Undefined, -1i32, -1i32),
            ExifTag::ColorSpace => (IfdFormat::U16, 1i32, 1i32),
            ExifTag::RelatedSoundFile => (IfdFormat::Ascii, -1i32, -1i32),
            ExifTag::FlashEnergy => (IfdFormat::URational, 1i32, 1i32),
            ExifTag::FocalPlaneXResolution => (IfdFormat::URational, 1i32, 1i32),
            ExifTag::FocalPlaneYResolution => (IfdFormat::URational, 1i32, 1i32),
            ExifTag::FocalPlaneResolutionUnit => (IfdFormat::U16, 1i32, 1i32),
            ExifTag::SubjectLocation => (IfdFormat::U16, 2i32, 2i32),
            ExifTag::ExposureIndex => (IfdFormat::URational, 1i32, 1i32),
            ExifTag::SensingMethod => (IfdFormat::U16, 1i32, 1i32),
            ExifTag::FileSource => (IfdFormat::Undefined, 1i32, 1i32),
            ExifTag::SceneType => (IfdFormat::Undefined, 1i32, 1i32),
            ExifTag::CFAPattern => (IfdFormat::Undefined, -1i32, -1i32),
            ExifTag::CustomRendered => (IfdFormat::U16, 1i32, 1i32),
            ExifTag::ExposureMode => (IfdFormat::U16, 1i32, 1i32),
            ExifTag::WhiteBalanceMode => (IfdFormat::U16, 1i32, 1i32),
            ExifTag::DigitalZoomRatio => (IfdFormat::URational, 1i32, 1i32),
            ExifTag::FocalLengthIn35mmFilm => (IfdFormat::U16, 1i32, 1i32),
            ExifTag::SceneCaptureType => (IfdFormat::U16, 1i32, 1i32),
            ExifTag::GainControl => (IfdFormat::U16, 1i32, 1i32),
            ExifTag::Contrast => (IfdFormat::U16, 1i32, 1i32),
            ExifTag::Saturation => (IfdFormat::U16, 1i32, 1i32),
            ExifTag::Sharpness => (IfdFormat::U16, 1i32, 1i32),
            ExifTag::DeviceSettingDescription => (IfdFormat::Undefined, -1i32, -1i32),
            ExifTag::SubjectDistanceRange => (IfdFormat::U16, 1i32, 1i32),
            ExifTag::ImageUniqueID => (IfdFormat::Ascii, -1i32, -1i32),
            ExifTag::LensSpecification => (IfdFormat::URational, 4i32, 4i32),
            ExifTag::LensMake => (IfdFormat::Ascii, -1i32, -1i32),
            ExifTag::LensModel => (IfdFormat::Ascii, -1i32, -1i32),
            ExifTag::Gamma => (IfdFormat::URational, 1i32, 1i32),
            ExifTag::GPSVersionID => (IfdFormat::U8, 4i32, 4i32),
            ExifTag::GPSLatitudeRef => (IfdFormat::Ascii, -1i32, -1i32),
            ExifTag::GPSLatitude => (IfdFormat::URational, 3i32, 3i32),
            ExifTag::GPSLongitudeRef => (IfdFormat::Ascii, -1i32, -1i32),
            ExifTag::GPSLongitude => (IfdFormat::URational, 3i32, 3i32),
            ExifTag::GPSAltitudeRef => (IfdFormat::U8, 1i32, 1i32),
            ExifTag::GPSAltitude => (IfdFormat::URational, 1i32, 1i32),
            ExifTag::GPSTimeStamp => (IfdFormat::URational, 3i32, 3i32),
            ExifTag::GPSSatellites => (IfdFormat::Ascii, -1i32, -1i32),
            ExifTag::GPSStatus => (IfdFormat::Ascii, -1i32, -1i32),
            ExifTag::GPSMeasureMode => (IfdFormat::Ascii, -1i32, -1i32),
            ExifTag::GPSDOP => (IfdFormat::URational, 1i32, 1i32),
            ExifTag::GPSSpeedRef => (IfdFormat::Ascii, -1i32, -1i32),
            ExifTag::GPSSpeed => (IfdFormat::URational, 1i32, 1i32),
            ExifTag::GPSTrackRef => (IfdFormat::Ascii, -1i32, -1i32),
            ExifTag::GPSTrack => (IfdFormat::URational, 1i32, 1i32),
            ExifTag::GPSImgDirectionRef => (IfdFormat::Ascii, -1i32, -1i32),
            ExifTag::GPSImgDirection => (IfdFormat::URational, 1i32, 1i32),
            ExifTag::GPSMapDatum => (IfdFormat::Ascii, -1i32, -1i32),
            ExifTag::GPSDestLatitudeRef => (IfdFormat::Ascii, -1i32, -1i32),
            ExifTag::GPSDestLatitude => (IfdFormat::URational, 3i32, 3i32),
            ExifTag::GPSDestLongitudeRef => (IfdFormat::Ascii, -1i32, -1i32),
            ExifTag::GPSDestLongitude => (IfdFormat::URational, 3i32, 3i32),
            ExifTag::GPSDestBearingRef => (IfdFormat::Ascii, -1i32, -1i32),
            ExifTag::GPSDestBearing => (IfdFormat::URational, 1i32, 1i32),
            ExifTag::GPSDestDistanceRef => (IfdFormat::Ascii, -1i32, -1i32),
            ExifTag::GPSDestDistance => (IfdFormat::URational, 1i32, 1i32),
            ExifTag::GPSProcessingMethod => (IfdFormat::Undefined, -1i32, -1i32),
            ExifTag::GPSAreaInformation => (IfdFormat::Undefined, -1i32, -1i32),
            ExifTag::GPSDateStamp => (IfdFormat::Ascii, -1i32, -1i32),
            ExifTag::GPSDifferential => (IfdFormat::U16, 1i32, 1i32),
        }
    }
}

} // verus!
