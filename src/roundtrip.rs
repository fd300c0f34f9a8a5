//! Decoding what the serializer writes gives back the metadata that was serialized, and
//! serializing that again gives the same bytes: shown here for TIFF streams whose entries
//! all lie in the top-level directory.
use vstd::prelude::*;

use crate::data::{
    all_resolved_shape, kind_entries, lemma_top_level_stream, reads_back, resolved_shape,
    serialized_tiff, tiff_signature,
};
use crate::entry::{entry_same, postprocessed, ExifEntryModel};
use crate::tiff::{
    dir_entries, dir_fits, exif_entry_of, ifds_entries, post_all, post_steps, record_at, resolved,
    subdir_entries, subdir_kind, subdirs_fit, tiff_byte_order, tiff_entries, tiff_ok,
};
use crate::types::IfdKind;
use crate::lowlevel::{u16_at, u32_at};

verus! {

/// Every record of the table at `base` resolves, so the directory yields one entry per
/// record.
proof fn lemma_dir_entries_all_resolve(le: bool, s: Seq<u8>, base: int, n: nat, kind: IfdKind)
    requires
        forall|i: int| 0 <= i < n ==> (#[trigger] resolved(record_at(le, s, base + 12 * i), s)) is Some,
    ensures
        dir_entries(le, s, base, n, kind).len() == n,
        forall|i: int|
            0 <= i < n ==> #[trigger] dir_entries(le, s, base, n, kind)[i] == exif_entry_of(
                resolved(record_at(le, s, base + 12 * i), s)->Some_0,
                kind,
            ),
    decreases n,
{
    if n > 0 {
        lemma_dir_entries_all_resolve(le, s, base, (n - 1) as nat, kind);
        assert(resolved(record_at(le, s, base + 12 * (n - 1)), s) is Some);
        let d = dir_entries(le, s, base, n, kind);
        let f = dir_entries(le, s, base, (n - 1) as nat, kind);
        assert forall|i: int| 0 <= i < n implies #[trigger] d[i] == exif_entry_of(
            resolved(record_at(le, s, base + 12 * i), s)->Some_0,
            kind,
        ) by {
            if i < n - 1 {
                assert(d[i] == f[i]);
            }
        }
    }
}

/// No record of the table at `base` points at a sub-directory.
proof fn lemma_no_subdirs(le: bool, s: Seq<u8>, base: int, n: nat)
    requires
        forall|i: int| 0 <= i < n ==> (#[trigger] subdir_kind(record_at(le, s, base + 12 * i).tag)) is None,
    ensures
        subdirs_fit(le, s, base, n),
        subdir_entries(le, s, base, n) == Seq::<ExifEntryModel>::empty(),
    decreases n,
{
    if n > 0 {
        lemma_no_subdirs(le, s, base, (n - 1) as nat);
        assert(subdir_kind(record_at(le, s, base + 12 * (n - 1)).tag) is None);
        assert(subdir_entries(le, s, base, n) =~= Seq::<ExifEntryModel>::empty());
    }
}

/// `a` is `b` but for where the raw record's data was stored.
pub open spec fn same_but_placement(a: ExifEntryModel, b: ExifEntryModel) -> bool {
    &&& a == ExifEntryModel { ifd: a.ifd, ..b }
    &&& a.ifd.same_as(b.ifd)
    &&& a.ifd.data == b.ifd.data
}

pub open spec fn all_same_but_placement(a: Seq<ExifEntryModel>, b: Seq<ExifEntryModel>) -> bool {
    &&& a.len() == b.len()
    &&& forall|i: int| 0 <= i < a.len() ==> #[trigger] same_but_placement(a[i], b[i])
}

proof fn lemma_first_tag_same(
    a: Seq<ExifEntryModel>,
    b: Seq<ExifEntryModel>,
    t: crate::exif::ExifTag,
    from: int,
)
    requires
        all_same_but_placement(a, b),
    ensures
        crate::entry::first_tag_index(a, t, from) == crate::entry::first_tag_index(b, t, from),
    decreases a.len() - from,
{
    if 0 <= from < a.len() {
        assert(same_but_placement(a[from], b[from]));
        lemma_first_tag_same(a, b, t, from + 1);
    }
}

proof fn lemma_postprocessed_related(
    ea: ExifEntryModel,
    eb: ExifEntryModel,
    oa: Seq<ExifEntryModel>,
    ob: Seq<ExifEntryModel>,
)
    requires
        same_but_placement(ea, eb),
        all_same_but_placement(oa, ob),
    ensures
        same_but_placement(postprocessed(ea, oa), postprocessed(eb, ob)),
{
    match crate::entry::reference_tag(ea.tag) {
        Some(rt) => {
            lemma_first_tag_same(oa, ob, rt, 0);
            match crate::entry::first_tag_index(oa, rt, 0) {
                Some(i) => {
                    lemma_first_tag_index_bounds(oa, rt, 0);
                    assert(same_but_placement(oa[i], ob[i]));
                },
                None => {},
            }
        },
        None => {},
    }
}

proof fn lemma_first_tag_index_bounds(s: Seq<ExifEntryModel>, t: crate::exif::ExifTag, from: int)
    ensures
        crate::entry::first_tag_index(s, t, from) matches Some(i) ==> 0 <= i < s.len(),
    decreases s.len() - from,
{
    if 0 <= from < s.len() && s[from].tag != t {
        lemma_first_tag_index_bounds(s, t, from + 1);
    }
}

/// The cross-tag pass keeps entries related when they differ only in placement.
proof fn lemma_post_steps_related(a: Seq<ExifEntryModel>, b: Seq<ExifEntryModel>, n: nat)
    requires
        all_same_but_placement(a, b),
    ensures
        all_same_but_placement(post_steps(a, n), post_steps(b, n)),
    decreases n,
{
    if n > 0 {
        lemma_post_steps_related(a, b, (n - 1) as nat);
        let ta = post_steps(a, (n - 1) as nat);
        let tb = post_steps(b, (n - 1) as nat);
        let k = n - 1;
        if k < ta.len() {
            let ra = ta.remove(k);
            let rb = tb.remove(k);
            assert forall|i: int| 0 <= i < ra.len() implies #[trigger] same_but_placement(
                ra[i],
                rb[i],
            ) by {
                if i < k {
                    assert(same_but_placement(ta[i], tb[i]));
                } else {
                    assert(same_but_placement(ta[i + 1], tb[i + 1]));
                }
            }
            assert(same_but_placement(ta[k], tb[k]));
            lemma_postprocessed_related(ta[k], tb[k], ra, rb);
            let ua = post_steps(a, n);
            let ub = post_steps(b, n);
            assert forall|i: int| 0 <= i < ua.len() implies #[trigger] same_but_placement(
                ua[i],
                ub[i],
            ) by {
                if i != k {
                    assert(same_but_placement(ta[i], tb[i]));
                }
            }
        }
    }
}

/// An entry as decoding a directory of `kind` makes it, from a record of the given byte
/// order that points at no sub-directory.
pub open spec fn decoded_entry(e: ExifEntryModel, le: bool, kind: IfdKind) -> bool {
    &&& resolved_shape(e.ifd, le)
    &&& e == exif_entry_of(e.ifd, kind)
    &&& subdir_kind(e.ifd.tag) is None
}

proof fn lemma_resolved_shape(le: bool, s: Seq<u8>, p: int)
    requires
        0 <= p,
        p + 12 <= s.len(),
        resolved(record_at(le, s, p), s) is Some,
    ensures
        resolved_shape(resolved(record_at(le, s, p), s)->Some_0, le),
        resolved(record_at(le, s, p), s)->Some_0.tag == record_at(le, s, p).tag,
{
}

/// Entries decoded from a table of records that point at no sub-directory.
proof fn lemma_dir_entries_decoded(le: bool, s: Seq<u8>, base: int, n: nat, kind: IfdKind)
    requires
        0 <= base,
        base + 12 * n <= s.len(),
        forall|i: int| 0 <= i < n ==> (#[trigger] subdir_kind(record_at(le, s, base + 12 * i).tag)) is None,
    ensures
        dir_entries(le, s, base, n, kind).len() <= n,
        forall|j: int|
            0 <= j < dir_entries(le, s, base, n, kind).len() ==> #[trigger] decoded_entry(
                dir_entries(le, s, base, n, kind)[j],
                le,
                kind,
            ),
    decreases n,
{
    if n > 0 {
        lemma_dir_entries_decoded(le, s, base, (n - 1) as nat, kind);
        let p = base + 12 * (n - 1);
        assert(subdir_kind(record_at(le, s, p).tag) is None);
        let d = dir_entries(le, s, base, n, kind);
        let f = dir_entries(le, s, base, (n - 1) as nat, kind);
        if resolved(record_at(le, s, p), s) is Some {
            lemma_resolved_shape(le, s, p);
        }
        assert forall|j: int| 0 <= j < d.len() implies #[trigger] decoded_entry(d[j], le, kind) by {
            if j < f.len() {
                assert(d[j] == f[j]);
            }
        }
    }
}

/// The cross-tag pass changes only units and readable texts.
proof fn lemma_post_steps_shape(s: Seq<ExifEntryModel>, n: nat)
    ensures
        post_steps(s, n).len() == s.len(),
        forall|i: int|
            0 <= i < s.len() ==> #[trigger] post_steps(s, n)[i] == (ExifEntryModel {
                unit: post_steps(s, n)[i].unit,
                readable: post_steps(s, n)[i].readable,
                ..s[i]
            }),
    decreases n,
{
    if n > 0 {
        lemma_post_steps_shape(s, (n - 1) as nat);
        let t = post_steps(s, (n - 1) as nat);
        let k = n - 1;
        if k < t.len() {
            let e = t[k];
            let r = postprocessed(e, t.remove(k));
            assert(r == ExifEntryModel { unit: r.unit, readable: r.readable, ..e });
            assert forall|i: int| 0 <= i < s.len() implies #[trigger] post_steps(s, n)[i]
                == ExifEntryModel {
                unit: post_steps(s, n)[i].unit,
                readable: post_steps(s, n)[i].readable,
                ..s[i]
            } by {
                assert(t[i] == ExifEntryModel { unit: t[i].unit, readable: t[i].readable, ..s[i] });
            }
        }
    }
}

proof fn lemma_kind_entries_all(s: Seq<ExifEntryModel>, k: IfdKind, other: IfdKind)
    requires
        forall|i: int| 0 <= i < s.len() ==> (#[trigger] s[i]).kind == k,
        other != k,
    ensures
        kind_entries(s, k) == s,
        kind_entries(s, other) == Seq::<ExifEntryModel>::empty(),
    decreases s.len(),
{
    if s.len() > 0 {
        let f = s.drop_last();
        assert forall|i: int| 0 <= i < f.len() implies (#[trigger] f[i]).kind == k by {
            assert(f[i] == s[i]);
        }
        lemma_kind_entries_all(f, k, other);
        assert(s.last() == s[s.len() - 1]);
        assert(kind_entries(s, k) =~= s);
        assert(kind_entries(s, other) =~= Seq::<ExifEntryModel>::empty());
    }
}

proof fn lemma_value_equiv_refl(v: crate::value::ValueModel)
    ensures
        crate::value::value_equiv(v, v),
{
    match v {
        crate::value::ValueModel::F32(x) => {
            assert forall|i: int| 0 <= i < x.len() implies #[trigger] crate::value::f32_same(
                x[i],
                x[i],
            ) by {}
        },
        crate::value::ValueModel::F64(x) => {
            assert forall|i: int| 0 <= i < x.len() implies #[trigger] crate::value::f64_same(
                x[i],
                x[i],
            ) by {}
        },
        _ => {},
    }
}

/// Entries that differ only in placement are written as the same records with the same
/// patches.
proof fn lemma_records_same_wire(a: Seq<ExifEntryModel>, b: Seq<ExifEntryModel>, start: int)
    requires
        all_same_but_placement(a, b),
    ensures
        crate::data::records_bytes(a) == crate::data::records_bytes(b),
        crate::data::records_patches(a, start) == crate::data::records_patches(b, start),
    decreases a.len(),
{
    if a.len() > 0 {
        let fa = a.drop_last();
        let fb = b.drop_last();
        assert forall|i: int| 0 <= i < fa.len() implies #[trigger] same_but_placement(fa[i], fb[i]) by {
            assert(same_but_placement(a[i], b[i]));
        }
        lemma_records_same_wire(fa, fb, start);
        assert(same_but_placement(a[a.len() - 1], b[b.len() - 1]));
    }
}

/// The record layout of a TIFF stream: byte order, and position and entry count of the
/// top-level directory.
pub open spec fn top_level_records_plain(bytes: Seq<u8>) -> bool {
    let le = tiff_byte_order(bytes)->Some_0;
    let off = u32_at(le, bytes, 4) as int;
    forall|i: int|
        0 <= i < u16_at(le, bytes, off) ==> (#[trigger] subdir_kind(
            record_at(le, bytes, off + 2 + 12 * i).tag,
        )) is None
}

/// `m1` is what decoding makes of the top-level entries `raw1`, before and after the
/// cross-tag pass.
pub open spec fn first_decoding(m1: Seq<ExifEntryModel>, raw1: Seq<ExifEntryModel>, le: bool) -> bool {
    &&& m1 == post_steps(raw1, raw1.len())
    &&& raw1.len() < 0x1_0000
    &&& forall|i: int| 0 <= i < raw1.len() ==> #[trigger] decoded_entry(raw1[i], le, IfdKind::Ifd0)
}

proof fn lemma_first_decoding(bytes: Seq<u8>) -> (raw1: Seq<ExifEntryModel>)
    requires
        tiff_ok(bytes),
        top_level_records_plain(bytes),
    ensures
        first_decoding(tiff_entries(bytes), raw1, tiff_byte_order(bytes)->Some_0),
{
    let le = tiff_byte_order(bytes)->Some_0;
    let off = u32_at(le, bytes, 4) as int;
    let n = u16_at(le, bytes, off) as nat;
    let base = off + 2;
    assert forall|i: int| 0 <= i < n implies (#[trigger] subdir_kind(
        record_at(le, bytes, base + 12 * i).tag,
    )) is None by {
        assert(subdir_kind(record_at(le, bytes, off + 2 + 12 * i).tag) is None);
    }
    lemma_no_subdirs(le, bytes, base, n);
    let raw1 = dir_entries(le, bytes, base, n, IfdKind::Ifd0);
    assert(ifds_entries(le, bytes, off) =~= raw1);
    lemma_dir_entries_decoded(le, bytes, base, n, IfdKind::Ifd0);
    raw1
}

/// What the first decoding gives of the metadata.
proof fn lemma_first_decoding_facts(m1: Seq<ExifEntryModel>, raw1: Seq<ExifEntryModel>, le: bool)
    requires
        first_decoding(m1, raw1, le),
    ensures
        m1.len() == raw1.len(),
        forall|i: int| 0 <= i < m1.len() ==> (#[trigger] m1[i]).ifd == raw1[i].ifd && m1[i].kind
            == IfdKind::Ifd0,
        kind_entries(m1, IfdKind::Ifd0) == m1,
        kind_entries(m1, IfdKind::Exif).len() == 0,
        kind_entries(m1, IfdKind::Gps).len() == 0,
        all_resolved_shape(kind_entries(m1, IfdKind::Ifd0), le),
{
    lemma_post_steps_shape(raw1, raw1.len());
    assert forall|i: int| 0 <= i < m1.len() implies (#[trigger] m1[i]).ifd == raw1[i].ifd
        && m1[i].kind == IfdKind::Ifd0 by {
        assert(decoded_entry(raw1[i], le, IfdKind::Ifd0));
    }
    assert forall|i: int| 0 <= i < m1.len() implies (#[trigger] m1[i]).kind == IfdKind::Ifd0 by {}
    lemma_kind_entries_all(m1, IfdKind::Ifd0, IfdKind::Exif);
    lemma_kind_entries_all(m1, IfdKind::Ifd0, IfdKind::Gps);
    assert forall|i: int| 0 <= i < m1.len() implies resolved_shape(#[trigger] m1[i].ifd, le) by {
        assert(decoded_entry(raw1[i], le, IfdKind::Ifd0));
    }
}

/// Records that differ only in placement decode to entries that differ only in placement.
proof fn lemma_entry_of_placement(m2: crate::types::EntryModel, m: crate::types::EntryModel, kind: IfdKind)
    requires
        m2.same_as(m),
        m2.data == m.data,
    ensures
        same_but_placement(exif_entry_of(m2, kind), exif_entry_of(m, kind)),
{
    assert(crate::value::value_of(m2) == crate::value::value_of(m));
    assert(crate::tiff::decoded_value(m2) == crate::tiff::decoded_value(m));
}

/// The serialized stream decodes.
proof fn lemma_serialized_decodes(m1: Seq<ExifEntryModel>, raw1: Seq<ExifEntryModel>, le: bool)
    requires
        first_decoding(m1, raw1, le),
        serialized_tiff(m1, le).len() < 0x1_0000_0000,
    ensures
        ({
            let out = serialized_tiff(m1, le);
            &&& tiff_ok(out)
            &&& tiff_byte_order(out) == Some(le)
            &&& u32_at(le, out, 4) == 8
            &&& u16_at(le, out, 8) == m1.len()
            &&& ifds_entries(le, out, 8) == dir_entries(le, out, 10, m1.len(), IfdKind::Ifd0)
            &&& forall|i: int|
                0 <= i < m1.len() ==> #[trigger] reads_back(out, le, 10 + 12 * i, m1[i].ifd)
        }),
{
    lemma_first_decoding_facts(m1, raw1, le);
    lemma_top_level_stream(m1, le);
    let out = serialized_tiff(m1, le);
    let n2 = m1.len();
    assert(out[0] == tiff_signature(le)[0] && out[1] == tiff_signature(le)[1] && out[2]
        == tiff_signature(le)[2] && out[3] == tiff_signature(le)[3]) by {
        assert(out.subrange(0, 4) == tiff_signature(le));
    }
    assert(tiff_byte_order(out) == Some(le));
    assert forall|i: int| 0 <= i < n2 implies (#[trigger] subdir_kind(
        record_at(le, out, 10 + 12 * i).tag,
    )) is None by {
        assert(reads_back(out, le, 10 + 12 * i, m1[i].ifd));
        assert(decoded_entry(raw1[i], le, IfdKind::Ifd0));
        lemma_resolved_shape(le, out, 10 + 12 * i);
    }
    lemma_no_subdirs(le, out, 10, n2);
    assert(dir_fits(le, out, 8));
    assert(tiff_ok(out));
    assert(ifds_entries(le, out, 8) =~= dir_entries(le, out, 10, n2, IfdKind::Ifd0));
}

/// The serialized stream decodes, and its entries before the cross-tag pass differ from
/// the first ones only in placement.
proof fn lemma_second_decoding(m1: Seq<ExifEntryModel>, raw1: Seq<ExifEntryModel>, le: bool)
    requires
        first_decoding(m1, raw1, le),
        serialized_tiff(m1, le).len() < 0x1_0000_0000,
    ensures
        ({
            let out = serialized_tiff(m1, le);
            &&& tiff_ok(out)
            &&& tiff_byte_order(out) == Some(le)
            &&& u32_at(le, out, 4) == 8
            &&& all_same_but_placement(ifds_entries(le, out, 8), raw1)
        }),
{
    lemma_first_decoding_facts(m1, raw1, le);
    lemma_serialized_decodes(m1, raw1, le);
    let out = serialized_tiff(m1, le);
    let n2 = m1.len();
    assert forall|i: int| 0 <= i < n2 implies (#[trigger] resolved(
        record_at(le, out, 10 + 12 * i),
        out,
    )) is Some by {
        assert(reads_back(out, le, 10 + 12 * i, m1[i].ifd));
    }
    lemma_dir_entries_all_resolve(le, out, 10, n2, IfdKind::Ifd0);
    let raw2 = dir_entries(le, out, 10, n2, IfdKind::Ifd0);
    assert forall|i: int| 0 <= i < n2 implies #[trigger] same_but_placement(raw2[i], raw1[i]) by {
        assert(reads_back(out, le, 10 + 12 * i, m1[i].ifd));
        let m2 = resolved(record_at(le, out, 10 + 12 * i), out)->Some_0;
        assert(decoded_entry(raw1[i], le, IfdKind::Ifd0));
        lemma_entry_of_placement(m2, m1[i].ifd, IfdKind::Ifd0);
    }
}

/// Round trip of a TIFF stream whose top-level directory points at no sub-directory:
/// decoding the bytes that serializing its metadata writes succeeds and gives entries
/// equal, one by one, to that metadata; and serializing those again writes the same
/// bytes. Serialized streams stay below 4 GiB.
pub proof fn lemma_round_trip_top_level(bytes: Seq<u8>)
    requires
        tiff_ok(bytes),
        top_level_records_plain(bytes),
        serialized_tiff(tiff_entries(bytes), tiff_byte_order(bytes)->Some_0).len() < 0x1_0000_0000,
    ensures
        ({
            let le = tiff_byte_order(bytes)->Some_0;
            let m1 = tiff_entries(bytes);
            let out = serialized_tiff(m1, le);
            &&& tiff_ok(out)
            &&& tiff_byte_order(out) == Some(le)
            &&& tiff_entries(out).len() == m1.len()
            &&& forall|i: int|
                0 <= i < m1.len() ==> #[trigger] entry_same(tiff_entries(out)[i], m1[i])
            &&& serialized_tiff(tiff_entries(out), le) == out
        }),
{
    let le = tiff_byte_order(bytes)->Some_0;
    let raw1 = lemma_first_decoding(bytes);
    let m1 = tiff_entries(bytes);
    lemma_first_decoding_facts(m1, raw1, le);
    lemma_second_decoding(m1, raw1, le);
    let out = serialized_tiff(m1, le);
    let raw2 = ifds_entries(le, out, 8);
    let n2 = raw2.len();
    lemma_post_steps_related(raw2, raw1, n2);
    let m2 = tiff_entries(out);
    assert(m2 == post_steps(raw2, n2));
    assert forall|i: int| 0 <= i < m1.len() implies #[trigger] entry_same(m2[i], m1[i]) by {
        assert(same_but_placement(m2[i], m1[i]));
        lemma_value_equiv_refl(m1[i].value);
    }
    assert forall|i: int| 0 <= i < m2.len() implies (#[trigger] m2[i]).kind == IfdKind::Ifd0 by {
        assert(same_but_placement(m2[i], m1[i]));
    }
    lemma_kind_entries_all(m2, IfdKind::Ifd0, IfdKind::Exif);
    lemma_kind_entries_all(m2, IfdKind::Ifd0, IfdKind::Gps);
    lemma_records_same_wire(m2, m1, 10);
}

} // verus!
