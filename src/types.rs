//! The directory record model: formats, namespaces, directory kinds, errors and the raw
//! twelve-byte record with its inline-or-elsewhere data.
use vstd::prelude::*;

use crate::compare::same_bytes;
use crate::lowlevel::{copy_range, get_u32, push_u16, push_u32, u16_bytes, u32_at, u32_bytes};

verus! {

/// Tag code of the record that points at the Exif sub-directory.
pub const EXIF_OFFSET_CODE: u16 = 0x8769;

/// Tag code of the record that points at the GPS sub-directory.
pub const GPS_OFFSET_CODE: u16 = 0x8825;

/// The data formats of a directory record. `code` gives the numeric format code.
#[derive(Copy, Clone, Debug, PartialEq, Eq, Structural)]
pub enum IfdFormat {
    Unknown,
    U8,
    Ascii,
    U16,
    U32,
    URational,
    I8,
    Undefined,
    I16,
    I32,
    IRational,
    F32,
    F64,
}

pub open spec fn format_of_code(n: u16) -> IfdFormat {
    match n {
        1 => IfdFormat::U8,
        2 => IfdFormat::Ascii,
        3 => IfdFormat::U16,
        4 => IfdFormat::U32,
        5 => IfdFormat::URational,
        6 => IfdFormat::I8,
        7 => IfdFormat::Undefined,
        8 => IfdFormat::I16,
        9 => IfdFormat::I32,
        10 => IfdFormat::IRational,
        11 => IfdFormat::F32,
        12 => IfdFormat::F64,
        _ => IfdFormat::Unknown,
    }
}

pub open spec fn code_of_format(f: IfdFormat) -> u16 {
    match f {
        IfdFormat::Unknown => 0,
        IfdFormat::U8 => 1,
        IfdFormat::Ascii => 2,
        IfdFormat::U16 => 3,
        IfdFormat::U32 => 4,
        IfdFormat::URational => 5,
        IfdFormat::I8 => 6,
        IfdFormat::Undefined => 7,
        IfdFormat::I16 => 8,
        IfdFormat::I32 => 9,
        IfdFormat::IRational => 10,
        IfdFormat::F32 => 11,
        IfdFormat::F64 => 12,
    }
}

/// Size in bytes of one element of the format.
pub open spec fn element_size(f: IfdFormat) -> u8 {
    match f {
        IfdFormat::U16 | IfdFormat::I16 => 2,
        IfdFormat::U32 | IfdFormat::I32 | IfdFormat::F32 => 4,
        IfdFormat::URational | IfdFormat::IRational | IfdFormat::F64 => 8,
        _ => 1,
    }
}

/// Converts a numeric format code to its format; unrecognised codes give `Unknown`.
pub fn ifdformat_new(n: u16) -> (r: IfdFormat)
    ensures
        r == format_of_code(n),
{
    match n {
        1 => IfdFormat::U8,
        2 => IfdFormat::Ascii,
        3 => IfdFormat::U16,
        4 => IfdFormat::U32,
        5 => IfdFormat::URational,
        6 => IfdFormat::I8,
        7 => IfdFormat::Undefined,
        8 => IfdFormat::I16,
        9 => IfdFormat::I32,
        10 => IfdFormat::IRational,
        11 => IfdFormat::F32,
        12 => IfdFormat::F64,
        _ => IfdFormat::Unknown,
    }
}

impl IfdFormat {
    /// The numeric format code written in a directory record.
    pub fn code(&self) -> (r: u16)
        ensures
            r == code_of_format(*self),
    {
        match self {
            IfdFormat::Unknown => 0,
            IfdFormat::U8 => 1,
            IfdFormat::Ascii => 2,
            IfdFormat::U16 => 3,
            IfdFormat::U32 => 4,
            IfdFormat::URational => 5,
            IfdFormat::I8 => 6,
            IfdFormat::Undefined => 7,
            IfdFormat::I16 => 8,
            IfdFormat::I32 => 9,
            IfdFormat::IRational => 10,
            IfdFormat::F32 => 11,
            IfdFormat::F64 => 12,
        }
    }
}

/// Tag namespaces. Only `Standard` records can be written back; the others are reserved
/// for manufacturer-specific tag sets.
#[derive(Copy, Clone, Debug, PartialEq, Eq, Structural)]
pub enum Namespace {
    Standard,
    Nikon,
    Canon,
}

/// The directory an entry was found in.
#[derive(Copy, Clone, Debug, PartialEq, Eq, Structural)]
pub enum IfdKind {
    Ifd0,
    Ifd1,
    Exif,
    Gps,
    Makernote,
    Interoperability,
}

/// Fatal errors of decoding and encoding.
#[derive(Clone, Debug, PartialEq)]
pub enum ExifError {
    FileTypeUnknown,
    JpegWithoutExif(String),
    TiffTruncated,
    TiffBadPreamble(String),
    IfdTruncated,
    ExifIfdTruncated(String),
    ExifIfdEntryNotFound,
    UnsupportedNamespace,
    MissingExifOffset,
}

/// A one-line description of an error.
pub open spec fn error_text(e: ExifError) -> Seq<char> {
    match e {
        ExifError::FileTypeUnknown => "File type unknown"@,
        ExifError::JpegWithoutExif(s) => "JPEG without EXIF section: "@ + s@,
        ExifError::TiffTruncated => "TIFF truncated at start"@,
        ExifError::TiffBadPreamble(s) => "TIFF with bad preamble: "@ + s@,
        ExifError::IfdTruncated => "TIFF IFD truncated"@,
        ExifError::ExifIfdTruncated(s) => "TIFF Exif IFD truncated: "@ + s@,
        ExifError::ExifIfdEntryNotFound => "TIFF Exif IFD not found"@,
        ExifError::UnsupportedNamespace => "Only standard namespace can be serialized"@,
        ExifError::MissingExifOffset => "Expected to have seen ExifOffset tag in IFD0"@,
    }
}

impl ExifError {
    /// A one-line description of the error.
    pub fn message(&self) -> (r: String)
        ensures
            r@ == error_text(*self),
    {
        match self {
            ExifError::FileTypeUnknown => String::from_str("File type unknown"),
            ExifError::JpegWithoutExif(s) => {
                let mut m = String::from_str("JPEG without EXIF section: ");
                m.append(s.as_str());
                m
            },
            ExifError::TiffTruncated => String::from_str("TIFF truncated at start"),
            ExifError::TiffBadPreamble(s) => {
                let mut m = String::from_str("TIFF with bad preamble: ");
                m.append(s.as_str());
                m
            },
            ExifError::IfdTruncated => String::from_str("TIFF IFD truncated"),
            ExifError::ExifIfdTruncated(s) => {
                let mut m = String::from_str("TIFF Exif IFD truncated: ");
                m.append(s.as_str());
                m
            },
            ExifError::ExifIfdEntryNotFound => String::from_str("TIFF Exif IFD not found"),
            ExifError::UnsupportedNamespace => String::from_str(
                "Only standard namespace can be serialized",
            ),
            ExifError::MissingExifOffset => String::from_str(
                "Expected to have seen ExifOffset tag in IFD0",
            ),
        }
    }
}

/// A raw directory record.
///
/// `ifd_data` holds the record's four-byte data field. When the data is longer than four
/// bytes that field is an offset into the container, and `copy_data` fetches the bytes
/// from there into `ext_data` and `data`; otherwise `data` is a copy of `ifd_data`.
#[derive(Clone, Debug)]
pub struct IfdEntry {
    pub namespace: Namespace,
    pub tag: u16,
    pub format: IfdFormat,
    pub count: u32,
    pub data: Vec<u8>,
    pub ifd_data: Vec<u8>,
    pub ext_data: Vec<u8>,
    /// Byte order of integers and offsets in the record: little-endian when true.
    pub le: bool,
}

/// The mathematical content of an `IfdEntry`.
pub ghost struct EntryModel {
    pub namespace: Namespace,
    pub tag: u16,
    pub format: IfdFormat,
    pub count: u32,
    pub data: Seq<u8>,
    pub ifd_data: Seq<u8>,
    pub ext_data: Seq<u8>,
    pub le: bool,
}

impl View for IfdEntry {
    type V = EntryModel;

    open spec fn view(&self) -> EntryModel {
        EntryModel {
            namespace: self.namespace,
            tag: self.tag,
            format: self.format,
            count: self.count,
            data: self.data@,
            ifd_data: self.ifd_data@,
            ext_data: self.ext_data@,
            le: self.le,
        }
    }
}

impl EntryModel {
    /// Number of data bytes the record describes: element size times count.
    pub open spec fn length(self) -> nat {
        element_size(self.format) as nat * self.count as nat
    }

    /// The data fits in the record's own four-byte field.
    pub open spec fn in_ifd(self) -> bool {
        self.length() <= 4
    }

    /// The offset held in the data field of an out-of-line record.
    pub open spec fn data_offset(self) -> nat {
        u32_at(self.le, self.ifd_data, 0) as nat
    }

    /// The bytes of `contents` that an out-of-line record refers to.
    pub open spec fn external_bytes(self, contents: Seq<u8>) -> Seq<u8> {
        contents.subrange(self.data_offset() as int, (self.data_offset() + self.length()) as int)
    }

    /// Records pointing at a sub-directory; their data is a position, not content.
    pub open spec fn is_subdir_pointer(self) -> bool {
        self.tag == EXIF_OFFSET_CODE || self.tag == GPS_OFFSET_CODE
    }

    /// Equality that ignores where the data was stored: the data bytes are compared only
    /// for inline records that are not sub-directory pointers.
    pub open spec fn same_as(self, o: EntryModel) -> bool {
        &&& self.namespace == o.namespace
        &&& self.tag == o.tag
        &&& self.format == o.format
        &&& self.count == o.count
        &&& self.le == o.le
        &&& (self.in_ifd() && !self.is_subdir_pointer()) ==> (self.data == o.data
            && self.ifd_data == o.ifd_data && self.ext_data == o.ext_data)
    }

    /// The twelve bytes of the record as written, with `field` as its data field.
    pub open spec fn record_bytes(self, field: Seq<u8>) -> Seq<u8> {
        u16_bytes(self.le, self.tag) + u16_bytes(self.le, code_of_format(self.format))
            + u32_bytes(self.le, self.count) + field
    }
}

/// A deferred write: once the payload's final position is known, that position is written
/// at `offset_pos` and the payload is appended.
pub struct Patch {
    pub offset_pos: u32,
    pub data: Vec<u8>,
}

impl Patch {
    pub fn new(offset_pos: u32, data: &[u8]) -> (r: Patch)
        ensures
            r.offset_pos == offset_pos,
            r.data@ == data@,
    {
        Patch { offset_pos, data: copy_range(data, 0, data.len()) }
    }
}

impl PartialEq for IfdEntry {
    fn eq(&self, other: &IfdEntry) -> (r: bool)
        ensures
            r == self@.same_as(other@),
    {
        let data_eq = if self.in_ifd() && self.tag != EXIF_OFFSET_CODE && self.tag
            != GPS_OFFSET_CODE {
            same_bytes(&self.data, &other.data) && same_bytes(&self.ifd_data, &other.ifd_data)
                && same_bytes(&self.ext_data, &other.ext_data)
        } else {
            true
        };
        self.namespace == other.namespace && self.tag == other.tag && self.format == other.format
            && self.count == other.count && self.le == other.le && data_eq
    }
}

impl vstd::std_specs::cmp::PartialEqSpecImpl for IfdEntry {
    open spec fn obeys_eq_spec() -> bool {
        false
    }

    open spec fn eq_spec(&self, o: &IfdEntry) -> bool {
        self@.same_as(o@)
    }
}

impl IfdEntry {
    /// The offset held in the data field. Meaningful for out-of-line records and for
    /// sub-directory pointers.
    pub fn data_as_offset(&self) -> (r: usize)
        requires
            self.ifd_data@.len() >= 4,
        ensures
            r == self@.data_offset(),
    {
        get_u32(self.le, self.ifd_data.as_slice(), 0) as usize
    }

    /// The offset held in the data field, if the field has four bytes.
    pub fn try_data_as_offset(&self) -> (r: Option<usize>)
        ensures
            r == (if self.ifd_data@.len() >= 4 {
                Some(self@.data_offset() as usize)
            } else {
                None::<usize>
            }),
    {
        if self.ifd_data.len() >= 4 {
            Some(self.data_as_offset())
        } else {
            None
        }
    }

    /// Size of one element of the record's format (not of the whole data).
    pub fn size(&self) -> (r: u8)
        ensures
            r == element_size(self.format),
    {
        match self.format {
            IfdFormat::U16 | IfdFormat::I16 => 2,
            IfdFormat::U32 | IfdFormat::I32 | IfdFormat::F32 => 4,
            IfdFormat::URational | IfdFormat::IRational | IfdFormat::F64 => 8,
            _ => 1,
        }
    }

    /// Total data length: element size times count.
    pub fn length(&self) -> (r: u64)
        ensures
            r == self@.length(),
    {
        (self.size() as u64) * (self.count as u64)
    }

    /// Whether the data is held in the record itself rather than elsewhere in the container.
    pub fn in_ifd(&self) -> (r: bool)
        ensures
            r == self@.in_ifd(),
    {
        self.length() <= 4
    }

    /// Resolves the record's data. Inline data is copied from the data field; otherwise
    /// `length` bytes are copied from `contents` at the stored offset. Returns false, and
    /// changes nothing, when that range lies outside `contents`.
    pub fn copy_data(&mut self, contents: &[u8]) -> (r: bool)
        requires
            old(self).ifd_data@.len() == 4,
        ensures
            r == (old(self)@.in_ifd() || old(self)@.data_offset() + old(self)@.length()
                <= contents@.len()),
            !r ==> final(self)@ == old(self)@,
            r && old(self)@.in_ifd() ==> final(self)@ == (EntryModel {
                data: old(self)@.ifd_data,
                ..old(self)@
            }),
            r && !old(self)@.in_ifd() ==> final(self)@ == (EntryModel {
                data: old(self)@.external_bytes(contents@),
                ext_data: old(self)@.external_bytes(contents@),
                ..old(self)@
            }),
    {
        if self.in_ifd() {
            self.data = copy_range(self.ifd_data.as_slice(), 0, self.ifd_data.len());
            assert(self.data@ =~= self.ifd_data@);
            return true;
        }
        let offset = self.data_as_offset();
        let len = self.length();
        if offset > contents.len() || len > (contents.len() - offset) as u64 {
            return false;
        }
        let end = offset + len as usize;
        self.ext_data = copy_range(contents, offset, end);
        self.data = copy_range(contents, offset, end);
        true
    }

    /// Appends the twelve-byte record. Inline data is written as it is; otherwise four zero
    /// bytes hold the place of the data's offset and a patch for that place is queued.
    /// Only `Standard` records can be written.
    pub fn serialize(&self, serialized: &mut Vec<u8>, data_patches: &mut Vec<Patch>) -> (r: Result<
        (),
        ExifError,
    >)
        ensures
            self.namespace != Namespace::Standard ==> r == Err::<(), ExifError>(
                ExifError::UnsupportedNamespace,
            ) && final(serialized)@ == old(serialized)@ && final(data_patches)@ == old(
                data_patches,
            )@,
            self.namespace == Namespace::Standard ==> r is Ok,
            self.namespace == Namespace::Standard && self@.in_ifd() ==> final(serialized)@
                == old(serialized)@ + self@.record_bytes(self.data@) && final(data_patches)@
                == old(data_patches)@,
            self.namespace == Namespace::Standard && !self@.in_ifd() ==> {
                &&& final(serialized)@ == old(serialized)@ + self@.record_bytes(seq![0u8, 0, 0, 0])
                &&& final(data_patches)@.len() == old(data_patches)@.len() + 1
                &&& final(data_patches)@.drop_last() == old(data_patches)@
                &&& final(data_patches)@.last().offset_pos == (old(serialized)@.len() + 8) as u32
                &&& final(data_patches)@.last().data@ == self.data@
            },
    {
        if self.namespace != Namespace::Standard {
            return Err(ExifError::UnsupportedNamespace);
        }
        push_u16(serialized, self.le, self.tag);
        push_u16(serialized, self.le, self.format.code());
        push_u32(serialized, self.le, self.count);
        if self.in_ifd() {
            let mut i: usize = 0;
            let ghost base = serialized@;
            while i < self.data.len()
                invariant
                    i <= self.data@.len(),
                    serialized@ == base + self.data@.subrange(0, i as int),
                decreases self.data@.len() - i,
            {
                serialized.push(self.data[i]);
                i += 1;
                assert(serialized@ =~= base + self.data@.subrange(0, i as int));
            }
            assert(self.data@.subrange(0, self.data@.len() as int) =~= self.data@);
        } else {
            let pos = serialized.len() as u32;
            data_patches.push(Patch::new(pos, self.data.as_slice()));
            serialized.push(0);
            serialized.push(0);
            serialized.push(0);
            serialized.push(0);
            assert(data_patches@.drop_last() =~= old(data_patches)@);
        }
        proof {
            assert(final(serialized)@ =~= old(serialized)@ + self@.record_bytes(
                if self@.in_ifd() { self.data@ } else { seq![0u8, 0, 0, 0] },
            ));
        }
        Ok(())
    }
}

} // verus!
