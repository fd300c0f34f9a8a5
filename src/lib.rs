//! Extraction and re-emission of EXIF metadata stored in TIFF and JPEG containers.
//!
//! The byte codec (directory records, the directory walker and the serializer with its
//! offset back-patching) is verified against the specifications stated on each function.
use vstd::prelude::*;

pub mod lowlevel;
pub mod rational;
pub mod compare;
pub mod types;
pub mod value;
pub mod exif;
pub mod readable;
pub mod entry;
pub mod tiff;
pub mod image;
pub mod data;
pub mod roundtrip;

pub use crate::data::{ExifData, EXIF_HEADER};
pub use crate::entry::{exif_postprocessing, ExifEntry};
pub use crate::exif::ExifTag;
pub use crate::image::{detect_type, find_embedded_tiff_in_jpeg, FileType};
pub use crate::rational::{IRational, URational};
pub use crate::tiff::{parse_ifd, parse_ifds, parse_tiff, Warning};
pub use crate::types::{ifdformat_new, ExifError, IfdEntry, IfdFormat, IfdKind, Namespace, Patch};
pub use crate::value::TagValue;

verus! {

use crate::entry::entries_view;
use crate::image::{exif_segment, file_type_of};
use crate::tiff::{tiff_byte_order, tiff_entries, tiff_error, tiff_ok, tiff_warnings};

/// The TIFF stream a container holds: the whole of a TIFF container, the Exif segment's
/// content in a JPEG container, `None` when there is none.
pub open spec fn embedded_tiff(s: Seq<u8>) -> Option<Seq<u8>> {
    match file_type_of(s) {
        FileType::TIFF => Some(s),
        FileType::JPEG => match exif_segment(s, 2) {
            Some((o, n)) => Some(s.subrange(o, o + n)),
            None => None,
        },
        FileType::Unknown => None,
    }
}

pub open spec fn mime_of(t: FileType) -> Seq<char> {
    if t == FileType::JPEG {
        "image/jpeg"@
    } else {
        "image/tiff"@
    }
}

/// Decodes a TIFF or JPEG container. Returns the metadata, or the error that stopped
/// decoding, together with the warnings raised against the tag dictionary.
pub fn parse_buffer_quiet(contents: &[u8]) -> (r: (Result<ExifData, ExifError>, Vec<Warning>))
    ensures
        file_type_of(contents@) == FileType::Unknown ==> r.0 == Err::<ExifData, ExifError>(
            ExifError::FileTypeUnknown,
        ),
        file_type_of(contents@) == FileType::JPEG && embedded_tiff(contents@) is None ==> (
        r.0 matches Err(ExifError::JpegWithoutExif(_))),
        embedded_tiff(contents@) matches Some(t) ==> {
            &&& r.0 is Ok <==> tiff_ok(t)
            &&& r.0 matches Err(e) ==> tiff_error(t, e)
            &&& r.0 matches Ok(d) ==> {
                &&& d.mime@ == mime_of(file_type_of(contents@))
                &&& entries_view(d.entries@) == tiff_entries(t)
                &&& d.le == (tiff_byte_order(t) == Some(true))
                &&& r.1@ == tiff_warnings(t)
            }
        },
{
    let mut warnings: Vec<Warning> = Vec::new();
    let len = contents.len();
    let kind = detect_type(contents);
    let (res, le, mime) = match kind {
        FileType::Unknown => return (Err(ExifError::FileTypeUnknown), warnings),
        FileType::TIFF => {
            let (res, le) = parse_tiff(contents, &mut warnings);
            (res, le, "image/tiff")
        },
        FileType::JPEG => {
            let (offset, size) = match find_embedded_tiff_in_jpeg(contents) {
                Ok(p) => p,
                Err(e) => return (Err(e), warnings),
            };
            let (res, le) = parse_tiff(&contents[offset..offset + size], &mut warnings);
            (res, le, "image/jpeg")
        },
    };
    match res {
        Ok(entries) => (Ok(ExifData::new(mime, entries, le)), warnings),
        Err(e) => (Err(e), warnings),
    }
}

} // verus!
