//! Container detection: a bare TIFF stream, or a JPEG stream whose Exif application
//! segment holds one.
use vstd::prelude::*;

use crate::tiff::tiff_byte_order;
use crate::types::ExifError;

verus! {

/// The six bytes that open an Exif application segment: `Exif\0\0`.
pub open spec fn exif_signature() -> Seq<u8> {
    seq![0x45u8, 0x78, 0x69, 0x66, 0, 0]
}

#[derive(Copy, Clone, Debug, PartialEq, Eq, Structural)]
pub enum FileType {
    Unknown,
    JPEG,
    TIFF,
}

/// A JPEG start-of-image marker followed by a JFIF or Exif application segment header.
pub open spec fn jpeg_signature(s: Seq<u8>) -> bool {
    &&& s.len() >= 11
    &&& s[0] == 0xff && s[1] == 0xd8 && s[2] == 0xff
    &&& (s[6] == 0x4a && s[7] == 0x46 && s[8] == 0x49 && s[9] == 0x46 && s[10] == 0) || (s[6]
        == 0x45 && s[7] == 0x78 && s[8] == 0x69 && s[9] == 0x66 && s[10] == 0)
}

pub open spec fn file_type_of(s: Seq<u8>) -> FileType {
    if s.len() < 11 {
        FileType::Unknown
    } else if jpeg_signature(s) {
        FileType::JPEG
    } else if tiff_byte_order(s) is Some {
        FileType::TIFF
    } else {
        FileType::Unknown
    }
}

/// Tells a JPEG stream from a TIFF stream by their first bytes; anything shorter than
/// eleven bytes is unknown.
pub fn detect_type(contents: &[u8]) -> (r: FileType)
    ensures
        r == file_type_of(contents@),
{
    if contents.len() < 11 {
        return FileType::Unknown;
    }
    if contents[0] == 0xff && contents[1] == 0xd8 && contents[2] == 0xff && ((contents[6] == 0x4a
        && contents[7] == 0x46 && contents[8] == 0x49 && contents[9] == 0x46 && contents[10]
        == 0) || (contents[6] == 0x45 && contents[7] == 0x78 && contents[8] == 0x69
        && contents[9] == 0x66 && contents[10] == 0)) {
        return FileType::JPEG;
    }
    if contents[0] == 0x49 && contents[1] == 0x49 && contents[2] == 42 && contents[3] == 0 {
        return FileType::TIFF;
    }
    if contents[0] == 0x4d && contents[1] == 0x4d && contents[2] == 0 && contents[3] == 42 {
        return FileType::TIFF;
    }
    FileType::Unknown
}

/// Walks the JPEG segments from position `off`: each is a two-byte marker (at least
/// 0xff00) and a big-endian size that counts itself. The first Exif segment (marker
/// 0xffe1, starting with the Exif signature) gives the position and length of its TIFF
/// stream. Start or end of image data, a malformed segment, or the end of the stream
/// before such a segment give `None`.
pub open spec fn exif_segment(s: Seq<u8>, off: int) -> Option<(int, int)>
    decreases s.len() - off,
{
    if off < 0 || off >= s.len() || s.len() < off + 4 {
        None
    } else {
        let marker = s[off] * 256 + s[off + 1];
        let size = s[off + 2] * 256 + s[off + 3];
        if marker < 0xff00 || size < 2 || s.len() < off + 2 + size {
            None
        } else if marker == 0xffe1 {
            if size < 8 || s.subrange(off + 4, off + 10) != exif_signature() {
                None
            } else {
                Some((off + 10, size - 8))
            }
        } else if marker == 0xffda || marker == 0xffd9 {
            None
        } else {
            exif_segment(s, off + 2 + size)
        }
    }
}

/// Finds the TIFF stream embedded in a JPEG stream's Exif segment: its position and
/// length. Fails with `JpegWithoutExif` when there is none.
pub fn find_embedded_tiff_in_jpeg(contents: &[u8]) -> (r: Result<(usize, usize), ExifError>)
    ensures
        r is Ok <==> exif_segment(contents@, 2) is Some,
        r matches Ok((o, n)) ==> exif_segment(contents@, 2) == Some((o as int, n as int)) && o
            + n <= contents@.len(),
        r is Err ==> (r matches Err(ExifError::JpegWithoutExif(_))),
{
    let len = contents.len();
    let mut offset: usize = 2;
    while offset < len
        invariant
            len == contents@.len(),
            2 <= offset,
            exif_segment(contents@, 2) == exif_segment(contents@, offset as int),
        decreases len - offset,
    {
        if len - offset < 4 {
            return Err(ExifError::JpegWithoutExif(String::from_str("Truncated next marker")));
        }
        let marker: u16 = (contents[offset] as u16) * 256 + (contents[offset + 1] as u16);
        let size: usize = (contents[offset + 2] as usize) * 256 + (contents[offset + 3] as usize);
        if marker < 0xff00 {
            return Err(ExifError::JpegWithoutExif(String::from_str("Invalid marker")));
        }
        if size < 2 {
            return Err(
                ExifError::JpegWithoutExif(
                    String::from_str("JPEG marker size must be at least 2"),
                ),
            );
        }
        if len - offset - 2 < size {
            return Err(ExifError::JpegWithoutExif(String::from_str("JPEG truncated in marker body")));
        }
        if marker == 0xffe1 {
            if size < 8 {
                return Err(ExifError::JpegWithoutExif(String::from_str("EXIF preamble truncated")));
            }
            let p = offset + 4;
            if !(contents[p] == 0x45 && contents[p + 1] == 0x78 && contents[p + 2] == 0x69
                && contents[p + 3] == 0x66 && contents[p + 4] == 0 && contents[p + 5] == 0) {
                proof {
                    let sig = contents@.subrange(p as int, p + 6);
                    assert(sig != exif_signature()) by {
                        if sig == exif_signature() {
                            assert(sig[0] == contents@[p as int]);
                            assert(sig[5] == contents@[p + 5]);
                        }
                    }
                }
                return Err(ExifError::JpegWithoutExif(String::from_str("EXIF preamble unrecognized")));
            }
            assert(contents@.subrange(p as int, p + 6) =~= exif_signature());
            return Ok((offset + 10, size - 8));
        }
        if marker == 0xffda {
            return Err(ExifError::JpegWithoutExif(String::from_str("Image data found before EXIF")));
        }
        if marker == 0xffd9 {
            return Err(ExifError::JpegWithoutExif(String::from_str("Image end found before EXIF")));
        }
        offset = offset + 2 + size;
    }
    Err(ExifError::JpegWithoutExif(String::from_str("Scan past EOF and no EXIF found")))
}

} // verus!
