//! The directory walker: reads the top-level directory and the Exif and GPS
//! sub-directories it points at, and decodes their records.
use vstd::prelude::*;

use crate::entry::{
    entries_view, entry_same, exif_postprocessing, is_pointer_tag, postprocessed, ExifEntry,
    ExifEntryModel,
};
use crate::exif::{expected_of_tag, tag_from_code, tag_of_code, unit_of_tag, ExifTag};
use crate::lowlevel::{copy_range, get_u16, get_u32, u16_at, u16_bytes, u32_at, u32_bytes};
use crate::readable::{int_string, readable_text, readable_value};
use crate::types::{
    code_of_format, format_of_code, ifdformat_new, EntryModel, ExifError, IfdEntry, IfdFormat,
    IfdKind, Namespace, EXIF_OFFSET_CODE, GPS_OFFSET_CODE,
};
use crate::value::{tag_value_new, value_of, TagValue, ValueModel};
use vstd::arithmetic::div_mod::{lemma_div_denominator, lemma_fundamental_div_mod};

verus! {

/// A non-fatal disagreement between a record and the tag dictionary. The record is kept
/// with the value it actually holds.
#[derive(Copy, Clone, Debug, PartialEq, Eq, Structural)]
pub enum Warning {
    FormatMismatch { tag: u16, expected: IfdFormat, found: IfdFormat },
    CountMismatch { tag: u16, min: i32, max: i32, count: u32 },
}

/// The twelve-byte record at position `p` of `s`, before its data is resolved.
pub open spec fn record_at(le: bool, s: Seq<u8>, p: int) -> EntryModel {
    EntryModel {
        namespace: Namespace::Standard,
        tag: u16_at(le, s, p),
        format: format_of_code(u16_at(le, s, p + 2)),
        count: u32_at(le, s, p + 4),
        data: Seq::empty(),
        ifd_data: s.subrange(p + 8, p + 12),
        ext_data: Seq::empty(),
        le,
    }
}

/// A record's value, or `Invalid` with the raw bytes when the data is too short.
pub open spec fn decoded_value(m: EntryModel) -> ValueModel {
    match value_of(m) {
        Some(v) => v,
        None => ValueModel::Invalid(m.data, m.le, code_of_format(m.format), m.count),
    }
}

/// The decoded entry of a resolved record found in directory `kind`.
pub open spec fn exif_entry_of(m: EntryModel, kind: IfdKind) -> ExifEntryModel {
    let tag = tag_of_code(m.tag);
    ExifEntryModel {
        namespace: m.namespace,
        ifd: m,
        tag,
        value: decoded_value(m),
        unit: unit_of_tag(tag),
        readable: readable_text(tag, decoded_value(m)),
        kind,
    }
}

/// The warnings a resolved record raises against the dictionary.
pub open spec fn entry_warnings(m: EntryModel) -> Seq<Warning> {
    let tag = tag_of_code(m.tag);
    let (format, min, max) = expected_of_tag(tag);
    if tag == ExifTag::UnknownToMe {
        Seq::empty()
    } else {
        (if format != m.format {
            seq![Warning::FormatMismatch { tag: m.tag, expected: format, found: m.format }]
        } else {
            Seq::empty()
        }) + (if min != -1 && ((m.count as i32) < min || (m.count as i32) > max) {
            seq![Warning::CountMismatch { tag: m.tag, min, max, count: m.count }]
        } else {
            Seq::empty()
        })
    }
}

/// Two decoded sub-directory pointer records that differ only in their data, that is in
/// where the sub-directory was stored, give equal entries.
pub proof fn lemma_pointer_entries_ignore_offset(a: EntryModel, b: EntryModel, kind: IfdKind)
    requires
        is_pointer_tag(tag_of_code(a.tag)),
        a.namespace == b.namespace,
        a.tag == b.tag,
        a.format == b.format,
        a.count == b.count,
        a.le == b.le,
    ensures
        entry_same(exif_entry_of(a, kind), exif_entry_of(b, kind)),
{
    assert(a.tag == EXIF_OFFSET_CODE || a.tag == GPS_OFFSET_CODE);
}

/// A record as `IfdEntry::serialize` writes it reads back with the same tag, format,
/// count and data field.
pub proof fn lemma_record_round_trip(m: EntryModel, field: Seq<u8>)
    requires
        field.len() == 4,
    ensures
        ({
            let r = record_at(m.le, m.record_bytes(field), 0);
            &&& r.tag == m.tag
            &&& r.format == m.format
            &&& r.count == m.count
            &&& r.ifd_data == field
            &&& r.le == m.le
        }),
{
    let s = m.record_bytes(field);
    let le = m.le;
    lemma_u16_round_trip(le, m.tag);
    lemma_u16_round_trip(le, code_of_format(m.format));
    lemma_u32_round_trip(le, m.count);
    assert(s.subrange(0, 2) =~= u16_bytes(le, m.tag));
    assert(s.subrange(2, 4) =~= u16_bytes(le, code_of_format(m.format)));
    assert(s.subrange(4, 8) =~= u32_bytes(le, m.count));
    assert(s.subrange(8, 12) =~= field);
    assert(u16_at(le, s, 0) == u16_at(le, u16_bytes(le, m.tag), 0));
    assert(u16_at(le, s, 2) == u16_at(le, u16_bytes(le, code_of_format(m.format)), 0));
    assert(u32_at(le, s, 4) == u32_at(le, u32_bytes(le, m.count), 0));
}

/// An inline record with four data bytes, as `IfdEntry::serialize` writes it, decodes back
/// to the same record wherever it stands.
pub proof fn lemma_inline_record_round_trip(m: EntryModel, s: Seq<u8>, p: int)
    requires
        m.namespace == Namespace::Standard,
        m.in_ifd(),
        m.data.len() == 4,
        m.ifd_data == m.data,
        m.ext_data.len() == 0,
        0 <= p,
        p + 12 <= s.len(),
        s.subrange(p, p + 12) == m.record_bytes(m.data),
    ensures
        resolved(record_at(m.le, s, p), s) == Some(m),
{
    lemma_record_in_place(m.le, s, p);
    lemma_record_round_trip(m, m.data);
    let r = record_at(m.le, s, p);
    assert(r.length() == m.length());
    assert(m.ext_data =~= Seq::<u8>::empty());
}

/// An out-of-line record whose data field was back-filled with the position `q` of its
/// payload decodes back to the record written, with that position as its data field; the
/// two compare equal.
pub proof fn lemma_patched_record_round_trip(m: EntryModel, s: Seq<u8>, p: int, q: int)
    requires
        m.namespace == Namespace::Standard,
        !m.in_ifd(),
        m.data.len() == m.length(),
        m.ext_data == m.data,
        0 <= p,
        p + 12 <= s.len(),
        0 <= q < 0x1_0000_0000,
        q + m.length() <= s.len(),
        s.subrange(p, p + 12) == m.record_bytes(u32_bytes(m.le, q as u32)),
        s.subrange(q, q + m.length()) == m.data,
    ensures
        resolved(record_at(m.le, s, p), s) == Some(
            EntryModel { ifd_data: u32_bytes(m.le, q as u32), ..m },
        ),
        m.same_as(EntryModel { ifd_data: u32_bytes(m.le, q as u32), ..m }),
{
    let field = u32_bytes(m.le, q as u32);
    lemma_record_in_place(m.le, s, p);
    lemma_record_round_trip(m, field);
    lemma_u32_round_trip(m.le, q as u32);
    let r = record_at(m.le, s, p);
    assert(r.length() == m.length());
    assert(r.data_offset() == q);
}

/// Reading a record from a stream is reading it from the record's own twelve bytes.
proof fn lemma_record_in_place(le: bool, s: Seq<u8>, p: int)
    requires
        0 <= p,
        p + 12 <= s.len(),
    ensures
        record_at(le, s, p) == record_at(le, s.subrange(p, p + 12), 0),
{
    let t = s.subrange(p, p + 12);
    assert(s.subrange(p + 8, p + 12) =~= t.subrange(8, 12));
}

pub(crate) proof fn lemma_u16_round_trip(le: bool, v: u16)
    ensures
        u16_at(le, u16_bytes(le, v), 0) == v,
{
    lemma_fundamental_div_mod(v as int, 256);
}

pub(crate) proof fn lemma_u32_round_trip(le: bool, v: u32)
    ensures
        u32_at(le, u32_bytes(le, v), 0) == v,
{
    let q1 = v as int / 0x100;
    let q2 = v as int / 0x1_0000;
    lemma_fundamental_div_mod(v as int, 0x100);
    lemma_fundamental_div_mod(q1, 0x100);
    lemma_fundamental_div_mod(q2, 0x100);
    lemma_div_denominator(v as int, 0x100, 0x100);
    lemma_div_denominator(v as int, 0x1_0000, 0x100);
    assert(q1 / 0x100 == q2);
    assert(q2 / 0x100 == v as int / 0x100_0000);
}

/// The record with its data fetched, or `None` when out-of-line data lies past the end.
pub open spec fn resolved(m: EntryModel, s: Seq<u8>) -> Option<EntryModel> {
    if m.in_ifd() {
        Some(EntryModel { data: m.ifd_data, ..m })
    } else if m.data_offset() + m.length() <= s.len() {
        Some(EntryModel { data: m.external_bytes(s), ext_data: m.external_bytes(s), ..m })
    } else {
        None
    }
}

/// The directory whose entry count is at `off` fits in `s` with all its records.
pub open spec fn dir_fits(le: bool, s: Seq<u8>, off: int) -> bool {
    0 <= off && off + 2 <= s.len() && off + 2 + 12 * u16_at(le, s, off) <= s.len()
}

/// Entries decoded from the first `n` records of the table at `base`; records whose data
/// lies past the end are dropped.
pub open spec fn dir_entries(le: bool, s: Seq<u8>, base: int, n: nat, kind: IfdKind) -> Seq<
    ExifEntryModel,
>
    decreases n,
{
    if n == 0 {
        Seq::empty()
    } else {
        dir_entries(le, s, base, (n - 1) as nat, kind) + match resolved(
            record_at(le, s, base + 12 * (n - 1)),
            s,
        ) {
            Some(m) => seq![exif_entry_of(m, kind)],
            None => Seq::empty(),
        }
    }
}

/// Warnings raised by the first `n` records of the table at `base`.
pub open spec fn dir_warnings(le: bool, s: Seq<u8>, base: int, n: nat) -> Seq<Warning>
    decreases n,
{
    if n == 0 {
        Seq::empty()
    } else {
        dir_warnings(le, s, base, (n - 1) as nat) + match resolved(
            record_at(le, s, base + 12 * (n - 1)),
            s,
        ) {
            Some(m) => entry_warnings(m),
            None => Seq::empty(),
        }
    }
}

fn read_record(le: bool, contents: &[u8], p: usize) -> (r: IfdEntry)
    requires
        p + 12 <= contents.len(),
    ensures
        r@ == record_at(le, contents@, p as int),
{
    let tag = get_u16(le, contents, p);
    let format = get_u16(le, contents, p + 2);
    let count = get_u32(le, contents, p + 4);
    let ifd_data = copy_range(contents, p + 8, p + 12);
    let r = IfdEntry {
        namespace: Namespace::Standard,
        tag,
        format: ifdformat_new(format),
        count,
        data: Vec::new(),
        ifd_data,
        ext_data: Vec::new(),
        le,
    };
    assert(r@.data =~= Seq::<u8>::empty());
    assert(r@.ext_data =~= Seq::<u8>::empty());
    r
}

/// Reads `count` twelve-byte records from the start of `contents`, and for a top-level
/// directory the four-byte position of the next directory after them (0 for a
/// sub-directory). `None` when `contents` is too short.
pub fn parse_ifd(subifd: bool, le: bool, count: u16, contents: &[u8]) -> (r: Option<
    (Vec<IfdEntry>, usize),
>)
    ensures
        r is Some <==> 12 * count <= contents@.len() && (subifd || 12 * count + 4
            <= contents@.len()),
        r matches Some((v, next)) ==> {
            &&& v@.len() == count
            &&& forall|i: int| 0 <= i < count ==> #[trigger] v@[i]@ == record_at(le, contents@, 12 * i)
            &&& next == if subifd {
                0
            } else {
                u32_at(le, contents@, 12 * count) as usize
            }
        },
{
    if count as usize > contents.len() / 12 {
        return None;
    }
    let n = count as usize;
    if !subifd && contents.len() - 12 * n < 4 {
        return None;
    }
    let mut entries: Vec<IfdEntry> = Vec::new();
    let mut i: usize = 0;
    while i < n
        invariant
            n == count,
            12 * n <= contents.len(),
            i <= n,
            entries@.len() == i,
            forall|k: int| 0 <= k < i ==> #[trigger] entries@[k]@ == record_at(le, contents@, 12 * k),
        decreases n - i,
    {
        let entry = read_record(le, contents, 12 * i);
        entries.push(entry);
        i += 1;
    }
    let next_ifd = if subifd {
        0
    } else {
        get_u32(le, contents, 12 * n) as usize
    };
    Some((entries, next_ifd))
}

/// Decodes a resolved record into an entry of directory `kind`, looking its tag up in
/// the dictionary; disagreements with the dictionary are appended to `warnings`.
pub fn parse_exif_entry(ifd: IfdEntry, warnings: &mut Vec<Warning>, kind: IfdKind) -> (e:
    ExifEntry)
    ensures
        e@ == exif_entry_of(ifd@, kind),
        final(warnings)@ == old(warnings)@ + entry_warnings(ifd@),
{
    let tag = tag_from_code(ifd.tag);
    let value = match tag_value_new(&ifd) {
        Some(v) => v,
        None => TagValue::Invalid(
            copy_range(ifd.data.as_slice(), 0, ifd.data.len()),
            ifd.le,
            ifd.format.code(),
            ifd.count,
        ),
    };
    assert(ifd.data@.subrange(0, ifd.data@.len() as int) =~= ifd.data@);
    let readable = readable_value(tag, &value);
    let (format, min_count, max_count) = tag.expected();
    let ghost old_warnings = warnings@;
    if tag != ExifTag::UnknownToMe {
        if format != ifd.format {
            warnings.push(
                Warning::FormatMismatch { tag: ifd.tag, expected: format, found: ifd.format },
            );
        }
        if min_count != -1 && ((ifd.count as i32) < min_count || (ifd.count as i32) > max_count) {
            warnings.push(
                Warning::CountMismatch {
                    tag: ifd.tag,
                    min: min_count,
                    max: max_count,
                    count: ifd.count,
                },
            );
        }
    }
    assert(warnings@ =~= old_warnings + entry_warnings(ifd@));
    ExifEntry {
        namespace: ifd.namespace,
        ifd,
        tag,
        value,
        unit: String::from_str(tag.unit()),
        value_more_readable: readable,
        kind,
    }
}

/// "Truncated <what> (<available> < <needed>)".
fn truncation_message(what: &str, available: usize, needed: u64) -> String {
    let mut m = String::from_str("Truncated ");
    m.append(what);
    m.append(" (");
    let a = int_string(available as i128);
    m.append(a.as_str());
    m.append(" < ");
    let b = int_string(needed as i128);
    m.append(b.as_str());
    m.append(")");
    m
}

/// Decodes the directory whose entry count is at `ioffset`, appending its entries (tagged
/// with `kind`) and their warnings. Records whose data lies past the end are skipped; a
/// directory that does not fit fails with `ExifIfdTruncated` and appends nothing.
#[verifier::rlimit(40)]
fn parse_exif_ifd(
    le: bool,
    contents: &[u8],
    ioffset: usize,
    exif_entries: &mut Vec<ExifEntry>,
    warnings: &mut Vec<Warning>,
    kind: IfdKind,
) -> (r: Result<(), ExifError>)
    ensures
        r is Ok <==> dir_fits(le, contents@, ioffset as int),
        r is Err ==> (r matches Err(ExifError::ExifIfdTruncated(_))) && final(exif_entries)@
            == old(exif_entries)@ && final(warnings)@ == old(warnings)@,
        r is Ok ==> entries_view(final(exif_entries)@) == entries_view(old(exif_entries)@)
            + dir_entries(
            le,
            contents@,
            ioffset + 2,
            u16_at(le, contents@, ioffset as int) as nat,
            kind,
        ) && final(warnings)@ == old(warnings)@ + dir_warnings(
            le,
            contents@,
            ioffset + 2,
            u16_at(le, contents@, ioffset as int) as nat,
        ),
{
    if ioffset > contents.len() || contents.len() - ioffset < 2 {
        return Err(
            ExifError::ExifIfdTruncated(
                truncation_message(
                    "at dir entry count",
                    contents.len(),
                    if ioffset < usize::MAX - 2 {
                        ioffset as u64 + 2
                    } else {
                        u64::MAX
                    },
                ),
            ),
        );
    }
    let count = get_u16(le, contents, ioffset);
    let base = ioffset + 2;
    let n = count as usize;
    if contents.len() - base < 12 * n {
        return Err(
            ExifError::ExifIfdTruncated(String::from_str("Truncated at dir listing")),
        );
    }
    let ghost old_entries = entries_view(exif_entries@);
    let ghost old_warnings = warnings@;
    let mut i: usize = 0;
    while i < n
        invariant
            n == u16_at(le, contents@, ioffset as int),
            base == ioffset + 2,
            base + 12 * n <= contents.len(),
            i <= n,
            entries_view(exif_entries@) == old_entries + dir_entries(
                le,
                contents@,
                base as int,
                i as nat,
                kind,
            ),
            warnings@ == old_warnings + dir_warnings(le, contents@, base as int, i as nat),
        decreases n - i,
    {
        let mut entry = read_record(le, contents, base + 12 * i);
        let ghost rec = entry@;
        if entry.copy_data(contents) {
            let e = parse_exif_entry(entry, warnings, kind);
            let ghost before = exif_entries@;
            exif_entries.push(e);
            assert(entries_view(exif_entries@) =~= entries_view(before) + seq![e@]);
        }
        proof {
            assert(resolved(rec, contents@) is Some ==> resolved(rec, contents@) == Some(entry@));
        }
        i += 1;
        assert(entries_view(exif_entries@) =~= old_entries + dir_entries(
            le,
            contents@,
            base as int,
            i as nat,
            kind,
        ));
        assert(warnings@ =~= old_warnings + dir_warnings(le, contents@, base as int, i as nat));
    }
    Ok(())
}

/// The directory kind a top-level record points at, if it is a sub-directory pointer.
pub open spec fn subdir_kind(tag: u16) -> Option<IfdKind> {
    if tag == EXIF_OFFSET_CODE {
        Some(IfdKind::Exif)
    } else if tag == GPS_OFFSET_CODE {
        Some(IfdKind::Gps)
    } else {
        None
    }
}

/// The sub-directories pointed at by the first `n` records of the table at `base` all fit.
pub open spec fn subdirs_fit(le: bool, s: Seq<u8>, base: int, n: nat) -> bool
    decreases n,
{
    n == 0 || (subdirs_fit(le, s, base, (n - 1) as nat) && {
        let rec = record_at(le, s, base + 12 * (n - 1));
        subdir_kind(rec.tag) is Some ==> dir_fits(le, s, rec.data_offset() as int)
    })
}

/// Entries of the sub-directories pointed at by the first `n` records at `base`, in the
/// order of the pointers.
pub open spec fn subdir_entries(le: bool, s: Seq<u8>, base: int, n: nat) -> Seq<ExifEntryModel>
    decreases n,
{
    if n == 0 {
        Seq::empty()
    } else {
        let rec = record_at(le, s, base + 12 * (n - 1));
        let off = rec.data_offset() as int;
        subdir_entries(le, s, base, (n - 1) as nat) + match subdir_kind(rec.tag) {
            Some(k) => dir_entries(le, s, off + 2, u16_at(le, s, off) as nat, k),
            None => Seq::empty(),
        }
    }
}

/// Warnings of the sub-directories pointed at by the first `n` records at `base`.
pub open spec fn subdir_warnings(le: bool, s: Seq<u8>, base: int, n: nat) -> Seq<Warning>
    decreases n,
{
    if n == 0 {
        Seq::empty()
    } else {
        let rec = record_at(le, s, base + 12 * (n - 1));
        let off = rec.data_offset() as int;
        subdir_warnings(le, s, base, (n - 1) as nat) + match subdir_kind(rec.tag) {
            Some(k) => dir_warnings(le, s, off + 2, u16_at(le, s, off) as nat),
            None => Seq::empty(),
        }
    }
}

proof fn lemma_subdirs_fit_prefix(le: bool, s: Seq<u8>, base: int, m: nat, n: nat)
    requires
        m <= n,
        subdirs_fit(le, s, base, n),
    ensures
        subdirs_fit(le, s, base, m),
    decreases n,
{
    if m < n {
        lemma_subdirs_fit_prefix(le, s, base, m, (n - 1) as nat);
    }
}

/// The top-level directory at `off`, its next-directory pointer, and every sub-directory
/// it points at fit in `s`.
pub open spec fn ifds_fit(le: bool, s: Seq<u8>, off: int) -> bool {
    let n = u16_at(le, s, off) as nat;
    &&& dir_fits(le, s, off)
    &&& off + 2 + 12 * n + 4 <= s.len()
    &&& subdirs_fit(le, s, off + 2, n)
}

/// All entries of the top-level directory at `off` followed by those of its
/// sub-directories, before the cross-tag pass.
pub open spec fn ifds_entries(le: bool, s: Seq<u8>, off: int) -> Seq<ExifEntryModel> {
    let n = u16_at(le, s, off) as nat;
    dir_entries(le, s, off + 2, n, IfdKind::Ifd0) + subdir_entries(le, s, off + 2, n)
}

pub open spec fn ifds_warnings(le: bool, s: Seq<u8>, off: int) -> Seq<Warning> {
    let n = u16_at(le, s, off) as nat;
    dir_warnings(le, s, off + 2, n) + subdir_warnings(le, s, off + 2, n)
}

/// The cross-tag pass applied to the first `n` entries in turn; each sees all the
/// others as they stand at its turn.
pub open spec fn post_steps(s: Seq<ExifEntryModel>, n: nat) -> Seq<ExifEntryModel>
    decreases n,
{
    if n == 0 {
        s
    } else {
        let t = post_steps(s, (n - 1) as nat);
        if n - 1 < t.len() {
            t.update(n - 1, postprocessed(t[n - 1], t.remove(n - 1)))
        } else {
            t
        }
    }
}

proof fn lemma_post_steps_len(s: Seq<ExifEntryModel>, n: nat)
    ensures
        post_steps(s, n).len() == s.len(),
    decreases n,
{
    if n > 0 {
        lemma_post_steps_len(s, (n - 1) as nat);
    }
}

/// The cross-tag pass applied to every entry in turn.
pub open spec fn post_all(s: Seq<ExifEntryModel>) -> Seq<ExifEntryModel> {
    post_steps(s, s.len())
}

/// Runs the cross-tag pass over every entry, in order.
fn postprocess_all(entries: &mut Vec<ExifEntry>)
    ensures
        entries_view(final(entries)@) == post_steps(
            entries_view(old(entries)@),
            old(entries)@.len(),
        ),
{
    let ghost s = entries_view(entries@);
    let mut n: usize = 0;
    while n < entries.len()
        invariant
            n <= entries@.len(),
            entries@.len() == s.len(),
            s.len() == old(entries)@.len(),
            s == entries_view(old(entries)@),
            entries_view(entries@) == post_steps(s, n as nat),
        decreases entries@.len() - n,
    {
        proof {
            lemma_post_steps_len(s, n as nat);
        }
        let ghost t = entries@;
        let mut e = entries.remove(n);
        assert(entries_view(entries@) =~= entries_view(t).remove(n as int));
        exif_postprocessing(&mut e, entries.as_slice());
        entries.insert(n, e);
        assert(entries_view(entries@) =~= entries_view(t).update(
            n as int,
            postprocessed(entries_view(t)[n as int], entries_view(t).remove(n as int)),
        ));
        n += 1;
    }
}

/// Decodes the sub-directory a top-level record points at, if it is a pointer.
fn parse_subdir(
    le: bool,
    contents: &[u8],
    entry: &IfdEntry,
    exif_entries: &mut Vec<ExifEntry>,
    warnings: &mut Vec<Warning>,
) -> (r: Result<(), ExifError>)
    requires
        entry@.ifd_data.len() == 4,
        entry@.le == le,
    ensures
        r is Err ==> (r matches Err(ExifError::ExifIfdTruncated(_))),
        ({
            let off = entry@.data_offset() as int;
            match subdir_kind(entry@.tag) {
                None => r is Ok && final(exif_entries)@ == old(exif_entries)@ && final(warnings)@
                    == old(warnings)@,
                Some(k) => {
                    &&& r is Ok <==> dir_fits(le, contents@, off)
                    &&& r is Ok ==> entries_view(final(exif_entries)@) == entries_view(
                        old(exif_entries)@,
                    ) + dir_entries(le, contents@, off + 2, u16_at(le, contents@, off) as nat, k)
                        && final(warnings)@ == old(warnings)@ + dir_warnings(
                        le,
                        contents@,
                        off + 2,
                        u16_at(le, contents@, off) as nat,
                    )
                },
            }
        }),
{
    let kind = if entry.tag == EXIF_OFFSET_CODE {
        IfdKind::Exif
    } else if entry.tag == GPS_OFFSET_CODE {
        IfdKind::Gps
    } else {
        return Ok(());
    };
    let exif_offset = match entry.try_data_as_offset() {
        Some(o) => o,
        None => usize::MAX,
    };
    if contents.len() < exif_offset {
        return Err(ExifError::ExifIfdTruncated(String::from_str("Exif SubIFD goes past EOF")));
    }
    parse_exif_ifd(le, contents, exif_offset, exif_entries, warnings, kind)
}

/// Decodes the top-level directory at `ifd0_offset` and the Exif and GPS sub-directories
/// it points at, then runs the cross-tag pass over all entries.
pub fn parse_ifds(le: bool, ifd0_offset: usize, contents: &[u8], warnings: &mut Vec<Warning>) -> (r:
    Result<Vec<ExifEntry>, ExifError>)
    ensures
        r is Ok <==> ifds_fit(le, contents@, ifd0_offset as int),
        r is Err ==> {
            if dir_fits(le, contents@, ifd0_offset as int) && ifd0_offset + 2 + 12 * u16_at(
                le,
                contents@,
                ifd0_offset as int,
            ) + 4 > contents@.len() {
                r == Err::<Vec<ExifEntry>, ExifError>(ExifError::IfdTruncated)
            } else {
                r matches Err(ExifError::ExifIfdTruncated(_))
            }
        },
        r matches Ok(v) ==> {
            &&& entries_view(v@) == post_all(ifds_entries(le, contents@, ifd0_offset as int))
            &&& final(warnings)@ == old(warnings)@ + ifds_warnings(
                le,
                contents@,
                ifd0_offset as int,
            )
        },
{
    let mut exif_entries: Vec<ExifEntry> = Vec::new();
    let ghost w0 = warnings@;
    match parse_exif_ifd(le, contents, ifd0_offset, &mut exif_entries, warnings, IfdKind::Ifd0) {
        Ok(()) => {},
        Err(e) => return Err(e),
    }
    let offset = ifd0_offset;
    let len = contents.len();
    let count = get_u16(le, contents, offset);
    let n = count as usize;
    let base = offset + 2;
    if contents.len() - base < 12 * n + 4 {
        return Err(ExifError::IfdTruncated);
    }
    let table = &contents[base..base + 12 * n + 4];
    let (ifd, _) = match parse_ifd(false, le, count, table) {
        Some(p) => p,
        None => return Err(ExifError::IfdTruncated),
    };
    let ghost first = entries_view(exif_entries@);
    let ghost w1 = warnings@;
    let mut i: usize = 0;
    while i < n
        invariant
            offset == ifd0_offset,
            n == u16_at(le, contents@, offset as int),
            base == offset + 2,
            base + 12 * n + 4 <= contents.len(),
            table@ == contents@.subrange(base as int, base + 12 * n + 4),
            ifd@.len() == n,
            forall|k: int| 0 <= k < n ==> #[trigger] ifd@[k]@ == record_at(le, table@, 12 * k),
            i <= n,
            subdirs_fit(le, contents@, base as int, i as nat),
            entries_view(exif_entries@) == first + subdir_entries(
                le,
                contents@,
                base as int,
                i as nat,
            ),
            warnings@ == w1 + subdir_warnings(le, contents@, base as int, i as nat),
        decreases n - i,
    {
        let entry = &ifd[i];
        proof {
            assert(ifd@[i as int]@ == record_at(le, table@, 12 * i));
            assert(table@.subrange(12 * i + 8, 12 * i + 12) =~= contents@.subrange(
                base + 12 * i + 8,
                base + 12 * i + 12,
            ));
            assert(record_at(le, table@, 12 * i) == record_at(le, contents@, base + 12 * i));
        }
        let ghost before = entries_view(exif_entries@);
        let res = parse_subdir(le, contents, entry, &mut exif_entries, warnings);
        if let Err(e) = res {
            proof {
                assert(!subdirs_fit(le, contents@, base as int, (i + 1) as nat));
                if subdirs_fit(le, contents@, base as int, n as nat) {
                    lemma_subdirs_fit_prefix(le, contents@, base as int, (i + 1) as nat, n as nat);
                }
            }
            return Err(e);
        }
        i += 1;
        assert(entries_view(exif_entries@) =~= first + subdir_entries(
            le,
            contents@,
            base as int,
            i as nat,
        ));
        assert(warnings@ =~= w1 + subdir_warnings(le, contents@, base as int, i as nat));
    }
    assert(warnings@ =~= w0 + ifds_warnings(le, contents@, ifd0_offset as int));
    let ghost all = entries_view(exif_entries@);
    assert(all =~= ifds_entries(le, contents@, ifd0_offset as int));
    postprocess_all(&mut exif_entries);
    proof {
        lemma_post_steps_len(all, all.len());
    }
    Ok(exif_entries)
}

/// Byte order given by a TIFF header: `II*\0` is little-endian, `MM\0*` big-endian.
pub open spec fn tiff_byte_order(s: Seq<u8>) -> Option<bool> {
    if s.len() >= 4 && s[0] == 0x49 && s[1] == 0x49 && s[2] == 42 && s[3] == 0 {
        Some(true)
    } else if s.len() >= 4 && s[0] == 0x4d && s[1] == 0x4d && s[2] == 0 && s[3] == 42 {
        Some(false)
    } else {
        None
    }
}

/// The TIFF stream `s` decodes: header, top-level directory and sub-directories fit.
pub open spec fn tiff_ok(s: Seq<u8>) -> bool {
    s.len() >= 8 && match tiff_byte_order(s) {
        Some(le) => ifds_fit(le, s, u32_at(le, s, 4) as int),
        None => false,
    }
}

/// The entries a TIFF stream that decodes yields.
pub open spec fn tiff_entries(s: Seq<u8>) -> Seq<ExifEntryModel> {
    let le = tiff_byte_order(s)->Some_0;
    post_all(ifds_entries(le, s, u32_at(le, s, 4) as int))
}

pub open spec fn tiff_warnings(s: Seq<u8>) -> Seq<Warning> {
    let le = tiff_byte_order(s)->Some_0;
    ifds_warnings(le, s, u32_at(le, s, 4) as int)
}

/// The error decoding the TIFF stream `s` fails with.
pub open spec fn tiff_error(s: Seq<u8>, e: ExifError) -> bool {
    if s.len() < 8 {
        e == ExifError::TiffTruncated
    } else {
        match tiff_byte_order(s) {
            None => e is TiffBadPreamble,
            Some(le) => {
                let off = u32_at(le, s, 4) as int;
                if dir_fits(le, s, off) && off + 2 + 12 * u16_at(le, s, off) + 4 > s.len() {
                    e == ExifError::IfdTruncated
                } else {
                    e is ExifIfdTruncated
                }
            },
        }
    }
}

pub open spec fn hex_digit(d: int) -> char {
    if d < 10 {
        crate::readable::digit_char(d)
    } else if d == 10 {
        'a'
    } else if d == 11 {
        'b'
    } else if d == 12 {
        'c'
    } else if d == 13 {
        'd'
    } else if d == 14 {
        'e'
    } else {
        'f'
    }
}

/// Lower-case hexadecimal digits of a byte, without leading zero.
pub open spec fn hex_text(b: u8) -> Seq<char> {
    if b < 16 {
        seq![hex_digit(b as int)]
    } else {
        seq![hex_digit(b as int / 16), hex_digit(b as int % 16)]
    }
}

fn hex_digit_str(d: u8) -> (r: &'static str)
    requires
        d < 16,
    ensures
        r@ == seq![hex_digit(d as int)],
{
    match d {
        0 => {
            proof {
                reveal_strlit("0");
            }
            "0"
        },
        1 => {
            proof {
                reveal_strlit("1");
            }
            "1"
        },
        2 => {
            proof {
                reveal_strlit("2");
            }
            "2"
        },
        3 => {
            proof {
                reveal_strlit("3");
            }
            "3"
        },
        4 => {
            proof {
                reveal_strlit("4");
            }
            "4"
        },
        5 => {
            proof {
                reveal_strlit("5");
            }
            "5"
        },
        6 => {
            proof {
                reveal_strlit("6");
            }
            "6"
        },
        7 => {
            proof {
                reveal_strlit("7");
            }
            "7"
        },
        8 => {
            proof {
                reveal_strlit("8");
            }
            "8"
        },
        9 => {
            proof {
                reveal_strlit("9");
            }
            "9"
        },
        10 => {
            proof {
                reveal_strlit("a");
            }
            "a"
        },
        11 => {
            proof {
                reveal_strlit("b");
            }
            "b"
        },
        12 => {
            proof {
                reveal_strlit("c");
            }
            "c"
        },
        13 => {
            proof {
                reveal_strlit("d");
            }
            "d"
        },
        14 => {
            proof {
                reveal_strlit("e");
            }
            "e"
        },
        _ => {
            proof {
                reveal_strlit("f");
            }
            "f"
        },
    }
}

fn push_hex(m: &mut String, b: u8)
    ensures
        final(m)@ == old(m)@ + hex_text(b),
{
    if b >= 16 {
        m.append(hex_digit_str(b / 16));
    }
    m.append(hex_digit_str(b % 16));
    assert(final(m)@ =~= old(m)@ + hex_text(b));
}

/// "Preamble is a b c d", the first four bytes in hexadecimal.
fn preamble_message(contents: &[u8]) -> (r: String)
    requires
        contents@.len() >= 4,
    ensures
        r@ == "Preamble is "@ + hex_text(contents@[0]) + " "@ + hex_text(contents@[1]) + " "@
            + hex_text(contents@[2]) + " "@ + hex_text(contents@[3]),
{
    let mut m = String::from_str("Preamble is ");
    push_hex(&mut m, contents[0]);
    m.append(" ");
    push_hex(&mut m, contents[1]);
    m.append(" ");
    push_hex(&mut m, contents[2]);
    m.append(" ");
    push_hex(&mut m, contents[3]);
    m
}

/// Decodes a TIFF stream: an eight-byte header (byte order, magic 42, offset of the
/// top-level directory), then the directories. Also returns the byte order (true for
/// little-endian; false when the header is rejected).
pub fn parse_tiff(contents: &[u8], warnings: &mut Vec<Warning>) -> (r: (
    Result<Vec<ExifEntry>, ExifError>,
    bool,
))
    ensures
        r.0 is Ok <==> tiff_ok(contents@),
        r.0 matches Err(e) ==> tiff_error(contents@, e),
        r.0 matches Ok(v) ==> entries_view(v@) == tiff_entries(contents@) && final(warnings)@
            == old(warnings)@ + tiff_warnings(contents@),
        r.1 == (contents@.len() >= 8 && tiff_byte_order(contents@) == Some(true)),
{
    let le;
    if contents.len() < 8 {
        return (Err(ExifError::TiffTruncated), false);
    } else if contents[0] == 0x49 && contents[1] == 0x49 && contents[2] == 42 && contents[3]
        == 0 {
        le = true;
    } else if contents[0] == 0x4d && contents[1] == 0x4d && contents[2] == 0 && contents[3]
        == 42 {
        le = false;
    } else {
        return (Err(ExifError::TiffBadPreamble(preamble_message(contents))), false);
    }
    let offset = get_u32(le, contents, 4) as usize;
    (parse_ifds(le, offset, contents, warnings), le)
}

} // verus!
