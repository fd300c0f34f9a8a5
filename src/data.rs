//! Container metadata and its serialization: directories are written record by record,
//! out-of-line data is queued as patches and appended after each directory, and the
//! placeholders are back-filled with the data's final positions.
use vstd::prelude::*;

use crate::entry::{entries_view, entry_same, ExifEntry, ExifEntryModel};
use crate::exif::ExifTag;
use crate::image::exif_signature;
use crate::tiff::{
    lemma_inline_record_round_trip, lemma_patched_record_round_trip, lemma_u16_round_trip,
    lemma_u32_round_trip, record_at, resolved,
};
use crate::lowlevel::{push_u16, push_u32, u16_at, u16_bytes, u32_at, u32_bytes};
use crate::types::{EntryModel, ExifError, IfdKind, Namespace, Patch};

verus! {

/// The signature that opens an Exif application segment.
pub const EXIF_HEADER: [u8; 6] = [0x45, 0x78, 0x69, 0x66, 0x00, 0x00];

/// All metadata of a container.
#[derive(Clone, Debug)]
pub struct ExifData {
    /// MIME type of the container: "image/jpeg" or "image/tiff".
    pub mime: String,
    pub entries: Vec<ExifEntry>,
    /// Byte order of the TIFF stream: little-endian when true.
    pub le: bool,
}

/// Equality of metadata: same MIME type and byte order, and entries equal one by one.
pub open spec fn data_same(a: ExifData, b: ExifData) -> bool {
    let x = entries_view(a.entries@);
    let y = entries_view(b.entries@);
    &&& a.mime@ == b.mime@
    &&& a.le == b.le
    &&& x.len() == y.len()
    &&& forall|i: int| 0 <= i < x.len() ==> #[trigger] entry_same(x[i], y[i])
}

impl PartialEq for ExifData {
    fn eq(&self, other: &ExifData) -> (r: bool)
        ensures
            r == data_same(*self, *other),
    {
        if !(self.mime == other.mime && self.le == other.le && self.entries.len()
            == other.entries.len()) {
            return false;
        }
        let mut i: usize = 0;
        while i < self.entries.len()
            invariant
                self.entries@.len() == other.entries@.len(),
                i <= self.entries@.len(),
                forall|k: int|
                    0 <= k < i ==> #[trigger] entry_same(
                        entries_view(self.entries@)[k],
                        entries_view(other.entries@)[k],
                    ),
            decreases self.entries@.len() - i,
        {
            proof {
                assert(entries_view(self.entries@)[i as int] == self.entries@[i as int]@);
                assert(entries_view(other.entries@)[i as int] == other.entries@[i as int]@);
            }
            if !self.entries[i].eq(&other.entries[i]) {
                return false;
            }
            i += 1;
        }
        true
    }
}

impl vstd::std_specs::cmp::PartialEqSpecImpl for ExifData {
    open spec fn obeys_eq_spec() -> bool {
        false
    }

    open spec fn eq_spec(&self, o: &ExifData) -> bool {
        data_same(*self, *o)
    }
}

/// The TIFF signature for the byte order: `II*\0` or `MM\0*`.
pub open spec fn tiff_signature(le: bool) -> Seq<u8> {
    if le {
        seq![0x49u8, 0x49, 42, 0]
    } else {
        seq![0x4du8, 0x4d, 0, 42]
    }
}

/// The entries of `s` that belong to directory `kind`, in order.
pub open spec fn kind_entries(s: Seq<ExifEntryModel>, kind: IfdKind) -> Seq<ExifEntryModel>
    decreases s.len(),
{
    if s.len() == 0 {
        Seq::empty()
    } else {
        kind_entries(s.drop_last(), kind) + if s.last().kind == kind {
            seq![s.last()]
        } else {
            Seq::empty()
        }
    }
}

pub open spec fn all_standard(s: Seq<ExifEntryModel>) -> bool {
    forall|i: int| 0 <= i < s.len() ==> #[trigger] s[i].ifd.namespace == Namespace::Standard
}

pub open spec fn has_tag(s: Seq<ExifEntryModel>, t: ExifTag) -> bool {
    exists|i: int| 0 <= i < s.len() && #[trigger] s[i].tag == t
}

/// The error serializing `s` fails with, if any: a record outside the standard namespace,
/// or sub-directory entries without the top-level pointer entry that locates them.
pub open spec fn serialize_error(s: Seq<ExifEntryModel>) -> Option<ExifError> {
    let ifd0 = kind_entries(s, IfdKind::Ifd0);
    let exif = kind_entries(s, IfdKind::Exif);
    let gps = kind_entries(s, IfdKind::Gps);
    if !all_standard(ifd0) {
        Some(ExifError::UnsupportedNamespace)
    } else if exif.len() > 0 && !has_tag(ifd0, ExifTag::ExifOffset) {
        Some(ExifError::MissingExifOffset)
    } else if exif.len() > 0 && !all_standard(exif) {
        Some(ExifError::UnsupportedNamespace)
    } else if gps.len() > 0 && !has_tag(ifd0, ExifTag::GPSOffset) {
        Some(ExifError::MissingExifOffset)
    } else if gps.len() > 0 && !all_standard(gps) {
        Some(ExifError::UnsupportedNamespace)
    } else {
        None
    }
}

proof fn lemma_kind_entries_step(s: Seq<ExifEntryModel>, kind: IfdKind, i: int)
    requires
        0 <= i < s.len(),
    ensures
        kind_entries(s.subrange(0, i + 1), kind) == kind_entries(s.subrange(0, i), kind) + if s[i].kind
            == kind {
            seq![s[i]]
        } else {
            Seq::empty()
        },
{
    assert(s.subrange(0, i + 1).drop_last() =~= s.subrange(0, i));
}

/// `o` with the four bytes of `v` written at `pos`, as far as `o` reaches.
pub open spec fn overwritten(o: Seq<u8>, pos: int, le: bool, v: u32) -> Seq<u8> {
    Seq::new(o.len(), |j: int| if pos <= j < pos + 4 { u32_bytes(le, v)[j - pos] } else { o[j] })
}

/// One patch applied to `o`: the payload `d` is appended and its position is written at
/// `pos`.
pub open spec fn patch_applied(o: Seq<u8>, pos: u32, d: Seq<u8>, le: bool) -> Seq<u8> {
    overwritten(o + d, pos as int, le, o.len() as u32)
}

/// The patches as (placeholder position, payload) pairs.
pub open spec fn patch_list(ps: Seq<Patch>) -> Seq<(u32, Seq<u8>)> {
    ps.map_values(|p: Patch| (p.offset_pos, p.data@))
}

/// The patches applied to `o` in order.
pub open spec fn patched(o: Seq<u8>, ps: Seq<(u32, Seq<u8>)>, le: bool) -> Seq<u8>
    decreases ps.len(),
{
    if ps.len() == 0 {
        o
    } else {
        patch_applied(patched(o, ps.drop_last(), le), ps.last().0, ps.last().1, le)
    }
}

/// The data field a record is first written with: its data when inline, otherwise four
/// zero bytes that a patch later fills.
pub open spec fn placeholder_field(m: EntryModel) -> Seq<u8> {
    if m.in_ifd() {
        m.data
    } else {
        seq![0u8, 0, 0, 0]
    }
}

/// The records of `ks`, one after another.
pub open spec fn records_bytes(ks: Seq<ExifEntryModel>) -> Seq<u8>
    decreases ks.len(),
{
    if ks.len() == 0 {
        Seq::empty()
    } else {
        records_bytes(ks.drop_last()) + ks.last().ifd.record_bytes(placeholder_field(ks.last().ifd))
    }
}

/// The patches queued by writing the records of `ks` at position `start`: for each
/// out-of-line record, the position of its data field and its data.
pub open spec fn records_patches(ks: Seq<ExifEntryModel>, start: int) -> Seq<(u32, Seq<u8>)>
    decreases ks.len(),
{
    if ks.len() == 0 {
        Seq::empty()
    } else {
        let m = ks.last().ifd;
        records_patches(ks.drop_last(), start) + if m.in_ifd() {
            Seq::empty()
        } else {
            seq![((start + records_bytes(ks.drop_last()).len() + 8) as u32, m.data)]
        }
    }
}

/// Where the data field of the last entry of `ks` with tag `t` lands when the records are
/// written at `start`.
pub open spec fn last_tag_field(ks: Seq<ExifEntryModel>, t: ExifTag, start: int) -> Option<int>
    decreases ks.len(),
{
    if ks.len() == 0 {
        None
    } else if ks.last().tag == t {
        Some(start + records_bytes(ks).len() - 4)
    } else {
        last_tag_field(ks.drop_last(), t, start)
    }
}

/// `t` followed by a sub-directory holding `ks`, whose position is written at `pos`: entry
/// count, records, a zero next-directory position, then the out-of-line data with each
/// placeholder back-filled.
pub open spec fn subdir_written(t: Seq<u8>, ks: Seq<ExifEntryModel>, pos: int, le: bool) -> Seq<
    u8,
> {
    let start = t.len() as int;
    let a = overwritten(t + u16_bytes(le, ks.len() as u16), pos, le, start as u32);
    patched(a + records_bytes(ks) + seq![0u8, 0, 0, 0], records_patches(ks, start + 2int), le)
}

/// The TIFF stream that serializing `s` produces: header, top-level directory with its
/// data, then the Exif and the GPS sub-directories when they have entries.
pub open spec fn serialized_tiff(s: Seq<ExifEntryModel>, le: bool) -> Seq<u8> {
    let ifd0 = kind_entries(s, IfdKind::Ifd0);
    let exif = kind_entries(s, IfdKind::Exif);
    let gps = kind_entries(s, IfdKind::Gps);
    let b0 = tiff_signature(le) + u32_bytes(le, 8) + u16_bytes(le, ifd0.len() as u16)
        + records_bytes(ifd0) + seq![0u8, 0, 0, 0];
    let t0 = patched(b0, records_patches(ifd0, 10), le);
    let t1 = if exif.len() > 0 {
        subdir_written(t0, exif, last_tag_field(ifd0, ExifTag::ExifOffset, 10)->Some_0, le)
    } else {
        t0
    };
    if gps.len() > 0 {
        subdir_written(t1, gps, last_tag_field(ifd0, ExifTag::GPSOffset, 10)->Some_0, le)
    } else {
        t1
    }
}

/// Total length of the payloads of `ps`.
pub open spec fn payloads_len(ps: Seq<(u32, Seq<u8>)>) -> nat
    decreases ps.len(),
{
    if ps.len() == 0 {
        0
    } else {
        payloads_len(ps.drop_last()) + ps.last().1.len()
    }
}

/// Where the payload of patch `k` is appended when the patches are applied to a stream of
/// length `base`.
pub open spec fn payload_start(base: int, ps: Seq<(u32, Seq<u8>)>, k: int) -> int {
    base + payloads_len(ps.subrange(0, k))
}

/// The placeholders of `ps` lie in the first `len` bytes and do not overlap.
pub open spec fn placeholders_apart(ps: Seq<(u32, Seq<u8>)>, len: int) -> bool {
    &&& forall|k: int| 0 <= k < ps.len() ==> #[trigger] ps[k].0 + 4 <= len
    &&& forall|k: int, l: int|
        0 <= k < ps.len() && 0 <= l < ps.len() && k != l ==> #[trigger] ps[k].0 + 4 <= #[trigger] ps[l].0
            || ps[l].0 + 4 <= ps[k].0
}

pub open spec fn in_placeholder(ps: Seq<(u32, Seq<u8>)>, j: int) -> bool {
    exists|k: int| 0 <= k < ps.len() && #[trigger] ps[k].0 <= j < ps[k].0 + 4
}

/// Back-patching: once the patches are applied, each placeholder holds (in the stream's
/// byte order, modulo 2^32) the position where its payload was appended, each payload lies
/// there unchanged, and every byte of the unpatched stream outside the placeholders is
/// kept.
pub proof fn lemma_patches_land(o: Seq<u8>, ps: Seq<(u32, Seq<u8>)>, le: bool)
    requires
        placeholders_apart(ps, o.len() as int),
    ensures
        patched(o, ps, le).len() == o.len() + payloads_len(ps),
        forall|k: int|
            0 <= k < ps.len() ==> #[trigger] patched(o, ps, le).subrange(
                ps[k].0 as int,
                ps[k].0 + 4,
            ) == u32_bytes(le, payload_start(o.len() as int, ps, k) as u32),
        forall|k: int|
            0 <= k < ps.len() ==> #[trigger] patched(o, ps, le).subrange(
                payload_start(o.len() as int, ps, k),
                payload_start(o.len() as int, ps, k) + ps[k].1.len(),
            ) == ps[k].1,
        forall|j: int|
            0 <= j < o.len() && !in_placeholder(ps, j) ==> #[trigger] patched(o, ps, le)[j] == o[j],
    decreases ps.len(),
{
    if ps.len() == 0 {
        return;
    }
    let n = ps.len() - 1;
    let front = ps.drop_last();
    let q = ps.last();
    assert forall|k: int, l: int|
        0 <= k < front.len() && 0 <= l < front.len() && k != l implies #[trigger] front[k].0 + 4
        <= #[trigger] front[l].0 || front[l].0 + 4 <= front[k].0 by {
        assert(front[k] == ps[k] && front[l] == ps[l]);
    }
    assert forall|k: int| 0 <= k < front.len() implies #[trigger] front[k].0 + 4 <= o.len() by {
        assert(front[k] == ps[k]);
    }
    lemma_patches_land(o, front, le);
    let p = patched(o, front, le);
    let r = patched(o, ps, le);
    assert(r == overwritten(p + q.1, q.0 as int, le, p.len() as u32));
    assert(ps.subrange(0, n) =~= front);
    assert(ps.subrange(0, n + 1) =~= ps);
    assert(payload_start(o.len() as int, ps, n) == p.len());
    assert(q == ps[n]);
    assert(ps[n].0 + 4 <= o.len());
    // the last placeholder and payload
    assert(r.subrange(q.0 as int, q.0 + 4) =~= u32_bytes(le, p.len() as u32));
    assert(r.subrange(p.len() as int, (p.len() + q.1.len()) as int) =~= q.1);
    // earlier placeholders and payloads are untouched by the last overwrite
    assert forall|k: int| 0 <= k < ps.len() implies #[trigger] r.subrange(
        ps[k].0 as int,
        ps[k].0 + 4,
    ) == u32_bytes(le, payload_start(o.len() as int, ps, k) as u32) by {
        if k < n {
            assert(front[k] == ps[k]);
            assert(ps.subrange(0, k) =~= front.subrange(0, k));
            assert(ps[k].0 + 4 <= q.0 || q.0 + 4 <= ps[k].0);
            assert(r.subrange(ps[k].0 as int, ps[k].0 + 4) =~= p.subrange(
                front[k].0 as int,
                front[k].0 + 4,
            ));
        }
    }
    assert forall|k: int| 0 <= k < ps.len() implies #[trigger] r.subrange(
        payload_start(o.len() as int, ps, k),
        payload_start(o.len() as int, ps, k) + ps[k].1.len(),
    ) == ps[k].1 by {
        if k < n {
            assert(front[k] == ps[k]);
            assert(ps.subrange(0, k) =~= front.subrange(0, k));
            lemma_payloads_prefix(front, k);
            let a = payload_start(o.len() as int, ps, k);
            assert(a == payload_start(o.len() as int, front, k));
            assert(a + ps[k].1.len() <= p.len());
            assert(r.subrange(a, a + ps[k].1.len()) =~= p.subrange(a, a + front[k].1.len()));
        } else {
            assert(payload_start(o.len() as int, ps, k) == p.len());
            assert(ps[k] == q);
        }
    }
    assert forall|j: int| 0 <= j < o.len() && !in_placeholder(ps, j) implies #[trigger] r[j]
        == o[j] by {
        assert(!(q.0 <= j < q.0 + 4)) by {
            if q.0 <= j < q.0 + 4 {
                assert(ps[n].0 <= j < ps[n].0 + 4);
            }
        }
        assert(!in_placeholder(front, j)) by {
            if in_placeholder(front, j) {
                let k = choose|k: int| 0 <= k < front.len() && #[trigger] front[k].0 <= j < front[k].0 + 4;
                assert(ps[k] == front[k]);
            }
        }
    }
}

/// The placeholders queued by writing the records of `ks` at `start` lie within those
/// records and do not overlap, as long as the stream stays below 4 GiB; so the
/// back-patching law applies to them.
pub proof fn lemma_records_placeholders_apart(ks: Seq<ExifEntryModel>, start: int)
    requires
        0 <= start,
        start + records_bytes(ks).len() < 0x1_0000_0000,
    ensures
        placeholders_apart(records_patches(ks, start), start + records_bytes(ks).len()),
        forall|k: int|
            0 <= k < records_patches(ks, start).len() ==> start + 8 <= #[trigger] records_patches(
                ks,
                start,
            )[k].0,
    decreases ks.len(),
{
    if ks.len() == 0 {
        return;
    }
    let front = ks.drop_last();
    let e = ks.last();
    let rf = records_bytes(front).len();
    assert(records_bytes(ks).len() >= rf);
    lemma_records_placeholders_apart(front, start);
    let pf = records_patches(front, start);
    let pk = records_patches(ks, start);
    if e.ifd.in_ifd() {
        assert(pk =~= pf);
    } else {
        assert(records_bytes(ks).len() == rf + 12);
        let newp = ((start + rf + 8) as u32, e.ifd.data);
        assert(pk =~= pf.push(newp));
        assert(newp.0 == start + rf + 8);
        assert forall|k: int, l: int|
            0 <= k < pk.len() && 0 <= l < pk.len() && k != l implies #[trigger] pk[k].0 + 4
            <= #[trigger] pk[l].0 || pk[l].0 + 4 <= pk[k].0 by {
            if k < pf.len() {
                assert(pk[k] == pf[k]);
            }
            if l < pf.len() {
                assert(pk[l] == pf[l]);
            }
        }
        assert forall|k: int| 0 <= k < pk.len() implies #[trigger] pk[k].0 + 4 <= start
            + records_bytes(ks).len() by {
            if k < pf.len() {
                assert(pk[k] == pf[k]);
            }
        }
        assert forall|k: int| 0 <= k < pk.len() implies start + 8 <= #[trigger] pk[k].0 by {
            if k < pf.len() {
                assert(pk[k] == pf[k]);
            }
        }
    }
}

/// The shape decoding gives a record: inline data is the four-byte field itself, and
/// out-of-line data has the record's length and is also held as external data.
pub open spec fn resolved_shape(m: EntryModel, le: bool) -> bool {
    &&& m.namespace == Namespace::Standard
    &&& m.le == le
    &&& m.in_ifd() ==> m.data.len() == 4 && m.ifd_data == m.data && m.ext_data.len() == 0
    &&& !m.in_ifd() ==> m.data.len() == m.length() && m.ext_data == m.data
}

pub open spec fn all_resolved_shape(ks: Seq<ExifEntryModel>, le: bool) -> bool {
    forall|i: int| 0 <= i < ks.len() ==> resolved_shape(#[trigger] ks[i].ifd, le)
}

/// Records of decoded shape take twelve bytes each, one after another.
proof fn lemma_records_layout(ks: Seq<ExifEntryModel>, le: bool)
    requires
        all_resolved_shape(ks, le),
    ensures
        records_bytes(ks).len() == 12 * ks.len(),
        forall|i: int|
            0 <= i < ks.len() ==> #[trigger] records_bytes(ks).subrange(12 * i, 12 * i + 12)
                == ks[i].ifd.record_bytes(placeholder_field(ks[i].ifd)),
    decreases ks.len(),
{
    if ks.len() == 0 {
        return;
    }
    let front = ks.drop_last();
    assert forall|i: int| 0 <= i < front.len() implies resolved_shape(#[trigger] front[i].ifd, le) by {
        assert(front[i] == ks[i]);
    }
    lemma_records_layout(front, le);
    let e = ks.last();
    assert(resolved_shape(ks[ks.len() - 1].ifd, le));
    let rb = records_bytes(ks);
    let rf = records_bytes(front);
    assert(rb == rf + e.ifd.record_bytes(placeholder_field(e.ifd)));
    assert forall|i: int| 0 <= i < ks.len() implies #[trigger] rb.subrange(12 * i, 12 * i + 12)
        == ks[i].ifd.record_bytes(placeholder_field(ks[i].ifd)) by {
        if i < front.len() {
            assert(front[i] == ks[i]);
            assert(rb.subrange(12 * i, 12 * i + 12) =~= rf.subrange(12 * i, 12 * i + 12));
        } else {
            assert(rb.subrange(12 * i, 12 * i + 12) =~= e.ifd.record_bytes(placeholder_field(e.ifd)));
        }
    }
}

/// Number of out-of-line records in `ks`.
pub open spec fn out_of_line_count(ks: Seq<ExifEntryModel>) -> nat
    decreases ks.len(),
{
    if ks.len() == 0 {
        0
    } else {
        out_of_line_count(ks.drop_last()) + if ks.last().ifd.in_ifd() {
            0nat
        } else {
            1nat
        }
    }
}

/// Index in `ks` of the record that queued patch `k`: the `k`-th out-of-line record.
pub open spec fn patch_owner(ks: Seq<ExifEntryModel>, k: int) -> int
    decreases ks.len(),
{
    if ks.len() == 0 {
        0
    } else if k == out_of_line_count(ks.drop_last()) && !ks.last().ifd.in_ifd() {
        ks.len() - 1
    } else {
        patch_owner(ks.drop_last(), k)
    }
}

/// Patch `k` queued by writing the records of `ks` at `start` belongs to the out-of-line
/// record `patch_owner(ks, k)`: its placeholder is that record's data field and its payload
/// that record's data; and the out-of-line record `i` queued patch
/// `out_of_line_count(ks[..i])`.
proof fn lemma_records_patch_owner(ks: Seq<ExifEntryModel>, start: int)
    requires
        forall|i: int|
            0 <= i < ks.len() ==> (#[trigger] ks[i]).ifd.in_ifd() || placeholder_field(ks[i].ifd).len()
                == 4,
        forall|i: int| 0 <= i < ks.len() ==> #[trigger] ks[i].ifd.record_bytes(placeholder_field(ks[i].ifd)).len() == 12,
        0 <= start,
        start + 12 * ks.len() < 0x1_0000_0000,
    ensures
        records_bytes(ks).len() == 12 * ks.len(),
        records_patches(ks, start).len() == out_of_line_count(ks),
        forall|k: int|
            #![trigger records_patches(ks, start)[k]]
            0 <= k < records_patches(ks, start).len() ==> 0 <= patch_owner(ks, k) < ks.len()
                && !ks[patch_owner(ks, k)].ifd.in_ifd() && records_patches(ks, start)[k] == ((start
                + 12 * patch_owner(ks, k) + 8) as u32, ks[patch_owner(ks, k)].ifd.data),
        forall|i: int|
            #![trigger out_of_line_count(ks.subrange(0, i))]
            0 <= i < ks.len() && !ks[i].ifd.in_ifd() ==> out_of_line_count(ks.subrange(0, i))
                < records_patches(ks, start).len() && records_patches(ks, start)[out_of_line_count(
                ks.subrange(0, i),
            ) as int] == ((start + 12 * i + 8) as u32, ks[i].ifd.data),
    decreases ks.len(),
{
    if ks.len() == 0 {
        return;
    }
    let front = ks.drop_last();
    let n = ks.len() - 1;
    assert forall|i: int| 0 <= i < front.len() implies (#[trigger] front[i]).ifd.in_ifd()
        || placeholder_field(front[i].ifd).len() == 4 by {
        assert(front[i] == ks[i]);
    }
    assert forall|i: int| 0 <= i < front.len() implies #[trigger] front[i].ifd.record_bytes(
        placeholder_field(front[i].ifd),
    ).len() == 12 by {
        assert(front[i] == ks[i]);
    }
    lemma_records_patch_owner(front, start);
    let pf = records_patches(front, start);
    let pk = records_patches(ks, start);
    let e = ks.last();
    assert(e == ks[n]);
    assert(e.ifd.record_bytes(placeholder_field(e.ifd)).len() == 12);
    assert(front.len() == n);
    if e.ifd.in_ifd() {
        assert(pk =~= pf);
    } else {
        assert(pk =~= pf.push(((start + 12 * n + 8) as u32, e.ifd.data)));
    }
    assert forall|k: int|
        #![trigger records_patches(ks, start)[k]]
        0 <= k < records_patches(ks, start).len() implies 0 <= patch_owner(ks, k) < ks.len() && !ks[patch_owner(
            ks,
            k,
        )].ifd.in_ifd() && records_patches(ks, start)[k] == ((start + 12 * patch_owner(ks, k) + 8) as u32, ks[patch_owner(
            ks,
            k,
        )].ifd.data) by {
        if k < pf.len() {
            assert(pk[k] == pf[k]);
            let w = patch_owner(front, k);
            assert(0 <= w < front.len());
            assert(front[w] == ks[w]);
            assert(patch_owner(ks, k) == w);
        } else {
            assert(patch_owner(ks, k) == n);
        }
    }
    assert forall|i: int|
        #![trigger out_of_line_count(ks.subrange(0, i))]
        0 <= i < ks.len() && !ks[i].ifd.in_ifd() implies out_of_line_count(ks.subrange(0, i))
        < pk.len() && pk[out_of_line_count(ks.subrange(0, i)) as int] == ((start + 12 * i + 8) as u32,
        ks[i].ifd.data) by {
        if i < n {
            assert(front[i] == ks[i]);
            assert(ks.subrange(0, i) =~= front.subrange(0, i));
            let k = out_of_line_count(front.subrange(0, i)) as int;
            assert(k < pf.len());
            assert(pk[k] == pf[k]);
        } else {
            assert(ks.subrange(0, i) =~= front);
        }
    }
    assert(records_bytes(ks).len() == 12 * ks.len());
    assert(records_patches(ks, start).len() == out_of_line_count(ks));
    assert forall|k: int| 0 <= k < records_patches(ks, start).len() implies 0 <= #[trigger] patch_owner(ks, k) < ks.len() by {
        // names patch `k`, which brings the facts about it into view
        assert(records_patches(ks, start)[k] == records_patches(ks, start)[k]);
    }
    assert forall|k: int| 0 <= k < records_patches(ks, start).len() implies !ks[#[trigger] patch_owner(ks, k)].ifd.in_ifd() by {
        // names patch `k`, which brings the facts about it into view
        assert(records_patches(ks, start)[k] == records_patches(ks, start)[k]);
    }
}

/// The record at `p` of `out` resolves to a record equal to `m0`, with the same data.
pub open spec fn reads_back(out: Seq<u8>, le: bool, p: int, m0: EntryModel) -> bool {
    match resolved(record_at(le, out, p), out) {
        Some(m) => m.same_as(m0) && m.data == m0.data,
        None => false,
    }
}

/// What the directory lemmas below assume: `o` holds the records of `ks`, of the shape
/// decoding gives, at `start`, and the patched stream stays below 4 GiB.
pub open spec fn directory_written(o: Seq<u8>, ks: Seq<ExifEntryModel>, le: bool, start: int) -> bool {
    &&& all_resolved_shape(ks, le)
    &&& 0 <= start
    &&& start + 12 * ks.len() <= o.len()
    &&& o.subrange(start, start + 12 * ks.len()) == records_bytes(ks)
    &&& o.len() + payloads_len(records_patches(ks, start)) < 0x1_0000_0000
}

/// The facts about the queued patches that reading a directory back relies on.
proof fn lemma_directory_patches(o: Seq<u8>, ks: Seq<ExifEntryModel>, le: bool, start: int)
    requires
        directory_written(o, ks, le, start),
    ensures
        records_bytes(ks).len() == 12 * ks.len(),
        placeholders_apart(records_patches(ks, start), o.len() as int),
        forall|k: int|
            #![trigger records_patches(ks, start)[k]]
            0 <= k < records_patches(ks, start).len() ==> 0 <= patch_owner(ks, k) < ks.len()
                && !ks[patch_owner(ks, k)].ifd.in_ifd() && records_patches(ks, start)[k] == ((start
                + 12 * patch_owner(ks, k) + 8) as u32, ks[patch_owner(ks, k)].ifd.data),
        forall|i: int|
            #![trigger out_of_line_count(ks.subrange(0, i))]
            0 <= i < ks.len() && !ks[i].ifd.in_ifd() ==> out_of_line_count(ks.subrange(0, i))
                < records_patches(ks, start).len() && records_patches(ks, start)[out_of_line_count(
                ks.subrange(0, i),
            ) as int] == ((start + 12 * i + 8) as u32, ks[i].ifd.data),
{
    lemma_records_layout(ks, le);
    assert forall|i: int| 0 <= i < ks.len() implies (#[trigger] ks[i]).ifd.in_ifd()
        || placeholder_field(ks[i].ifd).len() == 4 by {}
    assert forall|i: int| 0 <= i < ks.len() implies #[trigger] ks[i].ifd.record_bytes(
        placeholder_field(ks[i].ifd),
    ).len() == 12 by {
        assert(resolved_shape(ks[i].ifd, le));
    }
    lemma_records_patch_owner(ks, start);
    lemma_records_placeholders_apart(ks, start);
    assert forall|k: int| 0 <= k < records_patches(ks, start).len() implies 0
        <= #[trigger] patch_owner(ks, k) < ks.len() by {
        // names patch `k`, which brings the facts about it into view
        assert(records_patches(ks, start)[k] == records_patches(ks, start)[k]);
    }
    assert forall|k: int| 0 <= k < records_patches(ks, start).len() implies !ks[#[trigger] patch_owner(
        ks,
        k,
    )].ifd.in_ifd() by {
        // names patch `k`, which brings the facts about it into view
        assert(records_patches(ks, start)[k] == records_patches(ks, start)[k]);
    }
}

/// A byte of record `i` that no placeholder covers keeps the value first written.
proof fn lemma_unpatched_byte(o: Seq<u8>, ks: Seq<ExifEntryModel>, le: bool, start: int, i: int, j: int)
    requires
        directory_written(o, ks, le, start),
        0 <= i < ks.len(),
        start + 12 * i <= j < start + 12 * i + 12,
        ks[i].ifd.in_ifd() || j < start + 12 * i + 8,
    ensures
        patched(o, records_patches(ks, start), le)[j] == ks[i].ifd.record_bytes(
            placeholder_field(ks[i].ifd),
        )[j - start - 12 * i],
{
    let ps = records_patches(ks, start);
    let n = ks.len();
    lemma_directory_patches(o, ks, le, start);
    lemma_records_layout(ks, le);
    lemma_patches_land(o, ps, le);
    assert(!in_placeholder(ps, j)) by {
        if in_placeholder(ps, j) {
            let k = choose|k: int| 0 <= k < ps.len() && #[trigger] ps[k].0 <= j < ps[k].0 + 4;
            // names patch `k`, which brings the facts about it into view
            assert(ps[k] == ps[k]);
            let w = patch_owner(ks, k);
            assert(ps[k].0 == start + 12 * w + 8);
            assert(w == i);
        }
    }
    assert(o[j] == o.subrange(start, start + 12 * n)[j - start]);
    assert(records_bytes(ks)[j - start] == records_bytes(ks).subrange(12 * i, 12 * i + 12)[j - start
        - 12 * i]);
}

/// Record `i` of a written directory reads back once the patches are applied.
proof fn lemma_record_reads_back(o: Seq<u8>, ks: Seq<ExifEntryModel>, le: bool, start: int, i: int)
    requires
        directory_written(o, ks, le, start),
        0 <= i < ks.len(),
    ensures
        reads_back(patched(o, records_patches(ks, start), le), le, start + 12 * i, ks[i].ifd),
{
    let ps = records_patches(ks, start);
    let out = patched(o, ps, le);
    let m = ks[i].ifd;
    let p = start + 12 * i;
    assert(resolved_shape(m, le));
    lemma_directory_patches(o, ks, le, start);
    lemma_patches_land(o, ps, le);
    if m.in_ifd() {
        assert forall|j: int| p <= j < p + 12 implies #[trigger] out[j] == m.record_bytes(m.data)[j
            - p] by {
            lemma_unpatched_byte(o, ks, le, start, i, j);
        }
        assert(out.subrange(p, p + 12) =~= m.record_bytes(m.data));
        lemma_inline_record_round_trip(m, out, p);
        assert(m.same_as(m));
    } else {
        let k = out_of_line_count(ks.subrange(0, i)) as int;
        assert(ps[k] == ((p + 8) as u32, m.data));
        assert(ps[k].0 == p + 8);
        let q = payload_start(o.len() as int, ps, k);
        assert(out.subrange(ps[k].0 as int, ps[k].0 + 4) == u32_bytes(le, q as u32));
        assert(out.subrange(q, q + ps[k].1.len()) == ps[k].1);
        lemma_payloads_prefix(ps, k);
        let field = u32_bytes(le, q as u32);
        assert forall|j: int| p <= j < p + 12 implies #[trigger] out[j] == m.record_bytes(field)[j
            - p] by {
            if j < p + 8 {
                lemma_unpatched_byte(o, ks, le, start, i, j);
            } else {
                assert(out[j] == out.subrange(p + 8, p + 12)[j - p - 8]);
            }
        }
        assert(out.subrange(p, p + 12) =~= m.record_bytes(field));
        lemma_patched_record_round_trip(m, out, p, q);
    }
}

/// Reading back a directory: in a stream `o` that holds the records of `ks` (of the shape
/// decoding gives) at `start`, once the queued patches are applied every record resolves
/// to a record equal to the one written, with the same data, whether the data was inline
/// or back-patched. Streams stay below 4 GiB.
pub proof fn lemma_directory_round_trip(o: Seq<u8>, ks: Seq<ExifEntryModel>, le: bool, start: int)
    requires
        directory_written(o, ks, le, start),
    ensures
        forall|i: int|
            0 <= i < ks.len() ==> #[trigger] reads_back(
                patched(o, records_patches(ks, start), le),
                le,
                start + 12 * i,
                ks[i].ifd,
            ),
{
    assert forall|i: int| 0 <= i < ks.len() implies #[trigger] reads_back(
        patched(o, records_patches(ks, start), le),
        le,
        start + 12 * i,
        ks[i].ifd,
    ) by {
        lemma_record_reads_back(o, ks, le, start, i);
    }
}

/// Serializing metadata whose entries all belong to the top-level directory and have the
/// shape decoding gives: the stream starts with the header for its byte order and the
/// position 8 of the directory, which holds every record and a next-directory position,
/// and each record reads back as written. Streams stay below 4 GiB.
pub proof fn lemma_top_level_stream(s: Seq<ExifEntryModel>, le: bool)
    requires
        kind_entries(s, IfdKind::Exif).len() == 0,
        kind_entries(s, IfdKind::Gps).len() == 0,
        all_resolved_shape(kind_entries(s, IfdKind::Ifd0), le),
        kind_entries(s, IfdKind::Ifd0).len() < 0x1_0000,
        serialized_tiff(s, le).len() < 0x1_0000_0000,
    ensures
        ({
            let out = serialized_tiff(s, le);
            let ks = kind_entries(s, IfdKind::Ifd0);
            &&& out.subrange(0, 4) == tiff_signature(le)
            &&& u32_at(le, out, 4) == 8
            &&& u16_at(le, out, 8) == ks.len()
            &&& 8 + 2 + 12 * ks.len() + 4 <= out.len()
            &&& forall|i: int|
                0 <= i < ks.len() ==> #[trigger] reads_back(out, le, 10 + 12 * i, ks[i].ifd)
        }),
{
    let ks = kind_entries(s, IfdKind::Ifd0);
    let n = ks.len() as int;
    let b0 = tiff_signature(le) + u32_bytes(le, 8) + u16_bytes(le, n as u16) + records_bytes(ks)
        + seq![0u8, 0, 0, 0];
    let ps = records_patches(ks, 10);
    let out = serialized_tiff(s, le);
    assert(out == patched(b0, ps, le));
    lemma_records_layout(ks, le);
    assert(b0.subrange(10, 10 + 12 * n) =~= records_bytes(ks));
    lemma_records_placeholders_apart(ks, 10);
    assert(placeholders_apart(ps, b0.len() as int));
    lemma_patches_land(b0, ps, le);
    assert(directory_written(b0, ks, le, 10));
    lemma_directory_round_trip(b0, ks, le, 10);
    assert forall|j: int| 0 <= j < 10 implies #[trigger] out[j] == b0[j] by {
        assert(!in_placeholder(ps, j)) by {
            if in_placeholder(ps, j) {
                let k = choose|k: int| 0 <= k < ps.len() && #[trigger] ps[k].0 <= j < ps[k].0 + 4;
            }
        }
    }
    assert(out.subrange(0, 4) =~= tiff_signature(le));
    assert(out.subrange(4, 8) =~= u32_bytes(le, 8));
    assert(out.subrange(8, 10) =~= u16_bytes(le, n as u16));
    lemma_u32_round_trip(le, 8);
    lemma_u16_round_trip(le, n as u16);
    assert(u32_at(le, out, 4) == u32_at(le, out.subrange(4, 8), 0));
    assert(u16_at(le, out, 8) == u16_at(le, out.subrange(8, 10), 0));
}

/// The payloads before patch `k` end where patch `k`'s payload starts, within the total.
proof fn lemma_payloads_prefix(ps: Seq<(u32, Seq<u8>)>, k: int)
    requires
        0 <= k < ps.len(),
    ensures
        payloads_len(ps.subrange(0, k)) + ps[k].1.len() <= payloads_len(ps),
    decreases ps.len(),
{
    if k < ps.len() - 1 {
        let front = ps.drop_last();
        assert(front.subrange(0, k) =~= ps.subrange(0, k));
        assert(front[k] == ps[k]);
        lemma_payloads_prefix(front, k);
    } else {
        assert(ps.subrange(0, k) =~= ps.drop_last());
    }
}

/// Writes the four bytes of `v` at `pos`, as far as the buffer reaches.
fn overwrite_u32(out: &mut Vec<u8>, pos: usize, le: bool, v: u32)
    ensures
        final(out)@ == Seq::new(
            old(out)@.len(),
            |j: int|
                if pos <= j < pos + 4 {
                    u32_bytes(le, v)[j - pos]
                } else {
                    old(out)@[j]
                },
        ),
{
    let mut b: Vec<u8> = Vec::new();
    push_u32(&mut b, le, v);
    let mut k: usize = 0;
    while k < 4
        invariant
            b@ == u32_bytes(le, v),
            k <= 4,
            out@.len() == old(out)@.len(),
            forall|j: int|
                0 <= j < out@.len() ==> #[trigger] out@[j] == if pos <= j < pos + k {
                    u32_bytes(le, v)[j - pos]
                } else {
                    old(out)@[j]
                },
        decreases 4 - k,
    {
        if pos < out.len() && k < out.len() - pos {
            out.set(pos + k, b[k]);
        }
        k += 1;
    }
    assert(out@ =~= Seq::new(
        old(out)@.len(),
        |j: int|
            if pos <= j < pos + 4 {
                u32_bytes(le, v)[j - pos]
            } else {
                old(out)@[j]
            },
    ));
}

/// Appends `data`.
fn push_bytes(out: &mut Vec<u8>, data: &[u8])
    ensures
        final(out)@ == old(out)@ + data@,
{
    let mut i: usize = 0;
    while i < data.len()
        invariant
            i <= data@.len(),
            out@ == old(out)@ + data@.subrange(0, i as int),
        decreases data@.len() - i,
    {
        out.push(data[i]);
        i += 1;
        assert(out@ =~= old(out)@ + data@.subrange(0, i as int));
    }
    assert(data@.subrange(0, data@.len() as int) =~= data@);
}

/// Applies one patch: appends its payload and writes, at its placeholder, the position
/// the payload starts at.
fn apply_patch(out: &mut Vec<u8>, patch: &Patch, le: bool)
    ensures
        final(out)@ == patch_applied(old(out)@, patch.offset_pos, patch.data@, le),
{
    let here = out.len() as u32;
    push_bytes(out, patch.data.as_slice());
    overwrite_u32(out, patch.offset_pos as usize, le, here);
}

/// Applies the patches in order.
fn apply_patches(out: &mut Vec<u8>, patches: &Vec<Patch>, le: bool)
    ensures
        final(out)@ == patched(old(out)@, patch_list(patches@), le),
{
    let ghost ps = patch_list(patches@);
    let mut i: usize = 0;
    while i < patches.len()
        invariant
            i <= patches@.len(),
            ps == patch_list(patches@),
            out@ == patched(old(out)@, ps.subrange(0, i as int), le),
        decreases patches@.len() - i,
    {
        apply_patch(out, &patches[i], le);
        proof {
            assert(ps.subrange(0, i + 1).drop_last() =~= ps.subrange(0, i as int));
            assert(ps[i as int] == (patches@[i as int].offset_pos, patches@[i as int].data@));
        }
        i += 1;
    }
    assert(ps.subrange(0, patches@.len() as int) =~= ps);
}

impl ExifData {
    pub fn new(mime: &str, entries: Vec<ExifEntry>, le: bool) -> (r: ExifData)
        ensures
            r.mime@ == mime@,
            r.entries == entries,
            r.le == le,
    {
        ExifData { mime: String::from_str(mime), entries, le }
    }

    /// Number of entries of directory `kind`.
    fn count_kind(&self, kind: IfdKind) -> (r: usize)
        ensures
            r == kind_entries(entries_view(self.entries@), kind).len(),
    {
        let ghost s = entries_view(self.entries@);
        let mut n: usize = 0;
        let mut i: usize = 0;
        while i < self.entries.len()
            invariant
                s == entries_view(self.entries@),
                i <= self.entries@.len(),
                n == kind_entries(s.subrange(0, i as int), kind).len(),
                n <= i,
            decreases self.entries@.len() - i,
        {
            proof {
                lemma_kind_entries_step(s, kind, i as int);
            }
            if self.entries[i].kind == kind {
                n += 1;
            }
            i += 1;
        }
        assert(s.subrange(0, self.entries@.len() as int) =~= s);
        n
    }

    /// Writes the records of directory `kind` in order, queueing patches for out-of-line
    /// data. Returns where the data fields of the last Exif and GPS pointer entries were
    /// written.
    #[verifier::rlimit(60)]
    fn write_records(&self, kind: IfdKind, out: &mut Vec<u8>, patches: &mut Vec<Patch>) -> (r:
        Result<(Option<usize>, Option<usize>), ExifError>)
        ensures
            ({
                let ks = kind_entries(entries_view(self.entries@), kind);
                let start = old(out)@.len() as int;
                &&& r is Err <==> !all_standard(ks)
                &&& r is Err ==> r == Err::<(Option<usize>, Option<usize>), ExifError>(
                    ExifError::UnsupportedNamespace,
                )
                &&& r matches Ok((e, g)) ==> {
                    &&& final(out)@ == old(out)@ + records_bytes(ks)
                    &&& patch_list(final(patches)@) == patch_list(old(patches)@) + records_patches(
                        ks,
                        start,
                    )
                    &&& (e is Some <==> has_tag(ks, ExifTag::ExifOffset))
                    &&& (g is Some <==> has_tag(ks, ExifTag::GPSOffset))
                    &&& e matches Some(p) ==> p + 4 <= final(out)@.len() && last_tag_field(
                        ks,
                        ExifTag::ExifOffset,
                        start,
                    ) == Some(p as int)
                    &&& g matches Some(p) ==> p + 4 <= final(out)@.len() && last_tag_field(
                        ks,
                        ExifTag::GPSOffset,
                        start,
                    ) == Some(p as int)
                }
            }),
    {
        let ghost s = entries_view(self.entries@);
        let ghost start = out@.len() as int;
        let ghost p0 = patch_list(patches@);
        let mut exif_ptr: Option<usize> = None;
        let mut gps_ptr: Option<usize> = None;
        let mut i: usize = 0;
        assert(records_bytes(kind_entries(s.subrange(0, 0), kind)) =~= Seq::<u8>::empty());
        assert(out@ =~= old(out)@ + Seq::<u8>::empty());
        assert(patch_list(patches@) =~= p0 + Seq::<(u32, Seq<u8>)>::empty());
        while i < self.entries.len()
            invariant
                s == entries_view(self.entries@),
                start == old(out)@.len(),
                p0 == patch_list(old(patches)@),
                i <= self.entries@.len(),
                all_standard(kind_entries(s.subrange(0, i as int), kind)),
                out@ == old(out)@ + records_bytes(kind_entries(s.subrange(0, i as int), kind)),
                patch_list(patches@) == p0 + records_patches(
                    kind_entries(s.subrange(0, i as int), kind),
                    start,
                ),
                exif_ptr is Some <==> has_tag(
                    kind_entries(s.subrange(0, i as int), kind),
                    ExifTag::ExifOffset,
                ),
                gps_ptr is Some <==> has_tag(
                    kind_entries(s.subrange(0, i as int), kind),
                    ExifTag::GPSOffset,
                ),
                exif_ptr matches Some(p) ==> p + 4 <= out@.len() && last_tag_field(
                    kind_entries(s.subrange(0, i as int), kind),
                    ExifTag::ExifOffset,
                    start,
                ) == Some(p as int),
                gps_ptr matches Some(p) ==> p + 4 <= out@.len() && last_tag_field(
                    kind_entries(s.subrange(0, i as int), kind),
                    ExifTag::GPSOffset,
                    start,
                ) == Some(p as int),
            decreases self.entries@.len() - i,
        {
            proof {
                lemma_kind_entries_step(s, kind, i as int);
            }
            let ghost prev = kind_entries(s.subrange(0, i as int), kind);
            let ghost next = kind_entries(s.subrange(0, i as int + 1), kind);
            let ghost out_before = out@;
            let ghost patches_before = patches@;
            let entry = &self.entries[i];
            if entry.kind == kind {
                assert(next == prev + seq![s[i as int]]);
                assert(s[i as int] == entry@);
                proof {
                    lemma_records_step(prev, entry@, start);
                }
                if let Err(e) = entry.ifd.serialize(out, patches) {
                    proof {
                        if all_standard(kind_entries(s, kind)) {
                            lemma_kind_entries_prefix_standard(s, kind, i as int + 1);
                        }
                    }
                    return Err(e);
                }
                proof {
                    assert(out@ =~= old(out)@ + records_bytes(next));
                    if entry.ifd@.in_ifd() {
                        assert(patch_list(patches@) =~= p0 + records_patches(next, start));
                    } else {
                        assert(patch_list(patches@).drop_last() =~= patch_list(patches_before));
                        let last = ((out_before.len() + 8) as u32, entry.ifd.data@);
                        assert(patch_list(patches@).last() == last);
                        assert(patch_list(patches@) =~= patch_list(patches_before) + seq![last]);
                        assert(records_patches(next, start) == records_patches(prev, start) + seq![
                            last,
                        ]);
                        assert(patch_list(patches@) =~= p0 + records_patches(next, start));
                    }
                }
                if entry.tag == ExifTag::ExifOffset {
                    exif_ptr = Some(out.len() - 4);
                }
                if entry.tag == ExifTag::GPSOffset {
                    gps_ptr = Some(out.len() - 4);
                }
            } else {
                assert(next =~= prev);
            }
            i += 1;
        }
        assert(s.subrange(0, self.entries@.len() as int) =~= s);
        Ok((exif_ptr, gps_ptr))
    }

    /// Writes the sub-directory of `kind` at the end of the stream: back-fills its position
    /// at `pos` (the data field of its pointer entry), then writes its entry count, its
    /// records, a zero next-directory position and its out-of-line data.
    fn serialize_ifd(&self, serialized: &mut Vec<u8>, kind: IfdKind, pos: Option<usize>) -> (r:
        Result<(), ExifError>)
        ensures
            ({
                let ks = kind_entries(entries_view(self.entries@), kind);
                &&& pos is None ==> r == Err::<(), ExifError>(ExifError::MissingExifOffset)
                &&& pos is Some ==> (r is Err <==> !all_standard(ks))
                &&& pos is Some && r is Err ==> r == Err::<(), ExifError>(
                    ExifError::UnsupportedNamespace,
                )
                &&& r is Ok ==> (pos matches Some(p) && final(serialized)@ == subdir_written(
                    old(serialized)@,
                    ks,
                    p as int,
                    self.le,
                ))
            }),
    {
        let ghost ks = kind_entries(entries_view(self.entries@), kind);
        let here = serialized.len() as u32;
        let n = self.count_kind(kind);
        push_u16(serialized, self.le, #[verifier::truncate] (n as u16));
        let pos = match pos {
            Some(p) => p,
            None => return Err(ExifError::MissingExifOffset),
        };
        overwrite_u32(serialized, pos, self.le, here);
        let ghost a = serialized@;
        let mut data_patches: Vec<Patch> = Vec::new();
        match self.write_records(kind, serialized, &mut data_patches) {
            Ok(_) => {},
            Err(e) => return Err(e),
        }
        push_u32(serialized, self.le, 0);
        assert(u32_bytes(self.le, 0) =~= seq![0u8, 0, 0, 0]);
        assert(patch_list(data_patches@) =~= records_patches(ks, a.len() as int));
        apply_patches(serialized, &data_patches, self.le);
        Ok(())
    }

    /// Serializes the metadata as a TIFF stream in its byte order, prefixed with the Exif
    /// signature when the MIME type is "image/jpeg". The top-level directory comes first,
    /// then the Exif and GPS sub-directories; out-of-line data follows each directory.
    /// Entries of other directories than these are not written; thumbnail (IFD-1) entries
    /// cannot be.
    pub fn serialize(&self) -> (r: Result<Vec<u8>, ExifError>)
        requires
            kind_entries(entries_view(self.entries@), IfdKind::Ifd1).len() == 0,
        ensures
            r is Err <==> serialize_error(entries_view(self.entries@)) is Some,
            r matches Err(e) ==> serialize_error(entries_view(self.entries@)) == Some(e),
            r matches Ok(b) ==> {
                let prefix = if self.mime@ == "image/jpeg"@ {
                    exif_signature()
                } else {
                    Seq::empty()
                };
                &&& b@ == prefix + serialized_tiff(entries_view(self.entries@), self.le)
                &&& self.entries@.len() == 0 ==> b@ == prefix + tiff_signature(self.le)
                    + u32_bytes(self.le, 8) + seq![0u8, 0] + seq![0u8, 0, 0, 0]
            },
    {
        let ghost s = entries_view(self.entries@);
        let ghost ifd0 = kind_entries(s, IfdKind::Ifd0);
        let ghost exif = kind_entries(s, IfdKind::Exif);
        let ghost gps = kind_entries(s, IfdKind::Gps);
        let mut serialized: Vec<u8> = Vec::new();
        if self.le {
            serialized.push(0x49);
            serialized.push(0x49);
            serialized.push(42);
            serialized.push(0);
        } else {
            serialized.push(0x4d);
            serialized.push(0x4d);
            serialized.push(0);
            serialized.push(42);
        }
        assert(serialized@ =~= tiff_signature(self.le));
        push_u32(&mut serialized, self.le, 8);
        let n0 = self.count_kind(IfdKind::Ifd0);
        push_u16(&mut serialized, self.le, #[verifier::truncate] (n0 as u16));
        let mut data_patches: Vec<Patch> = Vec::new();
        let (exif_ifd_pointer, gps_ifd_pointer) = match self.write_records(
            IfdKind::Ifd0,
            &mut serialized,
            &mut data_patches,
        ) {
            Ok(p) => p,
            Err(e) => return Err(e),
        };
        push_u32(&mut serialized, self.le, 0);
        assert(u32_bytes(self.le, 0) =~= seq![0u8, 0, 0, 0]);
        assert(serialized@ =~= tiff_signature(self.le) + u32_bytes(self.le, 8) + u16_bytes(
            self.le,
            ifd0.len() as u16,
        ) + records_bytes(ifd0) + seq![0u8, 0, 0, 0]);
        assert(patch_list(data_patches@) =~= records_patches(ifd0, 10));
        apply_patches(&mut serialized, &data_patches, self.le);
        let ghost t0 = serialized@;
        if self.count_kind(IfdKind::Exif) > 0 {
            match self.serialize_ifd(&mut serialized, IfdKind::Exif, exif_ifd_pointer) {
                Ok(()) => {},
                Err(e) => return Err(e),
            }
        }
        let ghost t1 = serialized@;
        assert(t1 == if exif.len() > 0 {
            subdir_written(t0, exif, last_tag_field(ifd0, ExifTag::ExifOffset, 10)->Some_0, self.le)
        } else {
            t0
        });
        if self.count_kind(IfdKind::Gps) > 0 {
            match self.serialize_ifd(&mut serialized, IfdKind::Gps, gps_ifd_pointer) {
                Ok(()) => {},
                Err(e) => return Err(e),
            }
        }
        assert(serialized@ == serialized_tiff(s, self.le));
        proof {
            if self.entries@.len() == 0 {
                assert(s =~= Seq::<ExifEntryModel>::empty());
                assert(records_bytes(ifd0) =~= Seq::<u8>::empty());
                assert(serialized@ =~= tiff_signature(self.le) + u32_bytes(self.le, 8) + seq![
                    0u8,
                    0,
                ] + seq![0u8, 0, 0, 0]);
            }
        }
        let jpeg = String::from_str("image/jpeg");
        if self.mime == jpeg {
            let mut out: Vec<u8> = Vec::new();
            out.push(0x45);
            out.push(0x78);
            out.push(0x69);
            out.push(0x66);
            out.push(0);
            out.push(0);
            assert(out@ =~= exif_signature());
            push_bytes(&mut out, serialized.as_slice());
            Ok(out)
        } else {
            assert(serialized@ =~= Seq::<u8>::empty() + serialized@);
            Ok(serialized)
        }
    }
}

/// How the record layout, the patches, the pointer fields, the tag search and the namespace
/// check extend by one entry.
proof fn lemma_records_step(prev: Seq<ExifEntryModel>, e: ExifEntryModel, start: int)
    ensures
        ({
            let next = prev + seq![e];
            &&& records_bytes(next) == records_bytes(prev) + e.ifd.record_bytes(
                placeholder_field(e.ifd),
            )
            &&& records_patches(next, start) == records_patches(prev, start) + if e.ifd.in_ifd() {
                Seq::empty()
            } else {
                seq![((start + records_bytes(prev).len() + 8) as u32, e.ifd.data)]
            }
            &&& forall|t: ExifTag|
                #![trigger last_tag_field(next, t, start)]
                last_tag_field(next, t, start) == if e.tag == t {
                    Some(start + records_bytes(next).len() - 4)
                } else {
                    last_tag_field(prev, t, start)
                }
            &&& forall|t: ExifTag|
                #![trigger has_tag(next, t)]
                has_tag(next, t) <==> has_tag(prev, t) || e.tag == t
            &&& all_standard(next) <==> all_standard(prev) && e.ifd.namespace
                == Namespace::Standard
        }),
{
    let next = prev + seq![e];
    assert(next.drop_last() =~= prev);
    assert(next.last() == e);
    assert forall|t: ExifTag| #![trigger has_tag(next, t)] has_tag(next, t) <==> has_tag(prev, t)
        || e.tag == t by {
        if has_tag(prev, t) {
            let j = choose|j: int| 0 <= j < prev.len() && prev[j].tag == t;
            assert(next[j] == prev[j]);
        }
        if e.tag == t {
            assert(next[prev.len() as int] == e);
        }
        if has_tag(next, t) {
            let j = choose|j: int| 0 <= j < next.len() && next[j].tag == t;
            if j < prev.len() {
                assert(next[j] == prev[j]);
            }
        }
    }
    if all_standard(next) {
        assert forall|j: int| 0 <= j < prev.len() implies #[trigger] prev[j].ifd.namespace
            == Namespace::Standard by {
            assert(next[j] == prev[j]);
        }
        assert(next[prev.len() as int] == e);
    }
    if all_standard(prev) && e.ifd.namespace == Namespace::Standard {
        assert forall|j: int| 0 <= j < next.len() implies #[trigger] next[j].ifd.namespace
            == Namespace::Standard by {
            if j < prev.len() {
                assert(next[j] == prev[j]);
            }
        }
    }
}

proof fn lemma_kind_entries_prefix_standard(s: Seq<ExifEntryModel>, kind: IfdKind, n: int)
    requires
        0 <= n <= s.len(),
        all_standard(kind_entries(s, kind)),
    ensures
        all_standard(kind_entries(s.subrange(0, n), kind)),
    decreases s.len() - n,
{
    if n < s.len() {
        lemma_kind_entries_prefix_standard(s, kind, n + 1);
        lemma_kind_entries_step(s, kind, n);
        let a = kind_entries(s.subrange(0, n), kind);
        let b = kind_entries(s.subrange(0, n + 1), kind);
        assert forall|j: int| 0 <= j < a.len() implies #[trigger] a[j].ifd.namespace
            == Namespace::Standard by {
            assert(b[j] == a[j]);
        }
    } else {
        assert(s.subrange(0, n) =~= s);
    }
}

} // verus!
