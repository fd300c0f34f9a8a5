//! Decoded metadata entries, their equality, and the cross-tag pass that completes the
//! text of tags whose unit or reference is stored in another tag.
use vstd::prelude::*;

use crate::exif::ExifTag;
use crate::types::{EntryModel, IfdEntry, IfdKind, Namespace};
use crate::value::{tag_value_eq, value_equiv, TagValue, ValueModel};

verus! {

/// A decoded record: the raw record, its semantic tag, decoded value, unit, readable
/// text and the directory it came from.
#[derive(Clone, Debug)]
pub struct ExifEntry {
    pub namespace: Namespace,
    /// The raw record, kept so that a caller can inspect tags the dictionary lacks.
    pub ifd: IfdEntry,
    pub tag: ExifTag,
    pub value: TagValue,
    pub unit: String,
    pub value_more_readable: String,
    pub kind: IfdKind,
}

pub ghost struct ExifEntryModel {
    pub namespace: Namespace,
    pub ifd: EntryModel,
    pub tag: ExifTag,
    pub value: ValueModel,
    pub unit: Seq<char>,
    pub readable: Seq<char>,
    pub kind: IfdKind,
}

impl View for ExifEntry {
    type V = ExifEntryModel;

    open spec fn view(&self) -> ExifEntryModel {
        ExifEntryModel {
            namespace: self.namespace,
            ifd: self.ifd@,
            tag: self.tag,
            value: self.value@,
            unit: self.unit@,
            readable: self.value_more_readable@,
            kind: self.kind,
        }
    }
}

pub open spec fn entries_view(s: Seq<ExifEntry>) -> Seq<ExifEntryModel> {
    s.map_values(|e: ExifEntry| e@)
}

/// Pointer entries hold a position in the container, which is not part of the metadata.
pub open spec fn is_pointer_tag(t: ExifTag) -> bool {
    t == ExifTag::ExifOffset || t == ExifTag::GPSOffset
}

/// Equality of decoded entries: value and text of sub-directory pointers are ignored.
pub open spec fn entry_same(a: ExifEntryModel, b: ExifEntryModel) -> bool {
    &&& a.namespace == b.namespace
    &&& a.ifd.same_as(b.ifd)
    &&& a.tag == b.tag
    &&& a.unit == b.unit
    &&& a.kind == b.kind
    &&& !is_pointer_tag(a.tag) ==> a.readable == b.readable && value_equiv(a.value, b.value)
}

impl PartialEq for ExifEntry {
    fn eq(&self, other: &ExifEntry) -> (r: bool)
        ensures
            r == entry_same(self@, other@),
    {
        let value_eq = match self.tag {
            ExifTag::ExifOffset | ExifTag::GPSOffset => true,
            _ => self.value_more_readable == other.value_more_readable && tag_value_eq(
                &self.value,
                &other.value,
            ),
        };
        self.namespace == other.namespace && self.ifd.eq(&other.ifd) && self.tag == other.tag
            && self.unit == other.unit && self.kind == other.kind && value_eq
    }
}

impl vstd::std_specs::cmp::PartialEqSpecImpl for ExifEntry {
    open spec fn obeys_eq_spec() -> bool {
        false
    }

    open spec fn eq_spec(&self, o: &ExifEntry) -> bool {
        entry_same(self@, o@)
    }
}

/// Index of the first entry at or after `from` with tag `t`.
pub open spec fn first_tag_index(s: Seq<ExifEntryModel>, t: ExifTag, from: int) -> Option<int>
    decreases s.len() - from,
{
    if from < 0 || from >= s.len() {
        None
    } else if s[from].tag == t {
        Some(from)
    } else {
        first_tag_index(s, t, from + 1)
    }
}

/// The first entry of `s` with tag `t`.
pub open spec fn first_with_tag(s: Seq<ExifEntryModel>, t: ExifTag) -> Option<ExifEntryModel> {
    match first_tag_index(s, t, 0) {
        Some(i) => Some(s[i]),
        None => None,
    }
}

/// The tag that completes the text of `t`, if any.
pub open spec fn reference_tag(t: ExifTag) -> Option<ExifTag> {
    match t {
        ExifTag::XResolution | ExifTag::YResolution => Some(ExifTag::ResolutionUnit),
        ExifTag::FocalPlaneXResolution | ExifTag::FocalPlaneYResolution => Some(
            ExifTag::FocalPlaneResolutionUnit,
        ),
        ExifTag::GPSLatitude => Some(ExifTag::GPSLatitudeRef),
        ExifTag::GPSLongitude => Some(ExifTag::GPSLongitudeRef),
        ExifTag::GPSAltitude => Some(ExifTag::GPSAltitudeRef),
        ExifTag::GPSDestLatitude => Some(ExifTag::GPSDestLatitudeRef),
        ExifTag::GPSDestLongitude => Some(ExifTag::GPSDestLongitudeRef),
        ExifTag::GPSDestDistance => Some(ExifTag::GPSDestDistanceRef),
        ExifTag::GPSSpeed => Some(ExifTag::GPSSpeedRef),
        _ => None,
    }
}

/// `e` completed with the reference entry `f`.
pub open spec fn completed_with(e: ExifEntryModel, f: ExifEntryModel) -> ExifEntryModel {
    match e.tag {
        ExifTag::XResolution | ExifTag::YResolution | ExifTag::FocalPlaneXResolution
        | ExifTag::FocalPlaneYResolution => ExifEntryModel {
            unit: f.readable,
            readable: e.readable + " pixels per "@ + f.readable,
            ..e
        },
        ExifTag::GPSDestDistance | ExifTag::GPSSpeed => ExifEntryModel {
            unit: f.readable,
            readable: e.readable + " "@ + f.readable,
            ..e
        },
        ExifTag::GPSAltitude => match f.value {
            ValueModel::U8(v) => if v.len() > 0 && v[0] != 0 {
                ExifEntryModel { readable: e.readable + " below sea level"@, ..e }
            } else {
                e
            },
            _ => e,
        },
        _ => ExifEntryModel { readable: e.readable + " "@ + f.readable, ..e },
    }
}

/// `e` after the cross-tag pass, given the other entries of the same container.
pub open spec fn postprocessed(e: ExifEntryModel, others: Seq<ExifEntryModel>) -> ExifEntryModel {
    match reference_tag(e.tag) {
        Some(rt) => match first_with_tag(others, rt) {
            Some(f) => completed_with(e, f),
            None => e,
        },
        None => e,
    }
}

/// Index of the first entry of `entries` with tag `tag`.
fn find_tag(tag: ExifTag, entries: &[ExifEntry]) -> (r: Option<usize>)
    ensures
        r matches Some(i) ==> i < entries@.len() && first_tag_index(entries_view(entries@), tag, 0)
            == Some(i as int),
        r is None ==> first_tag_index(entries_view(entries@), tag, 0) is None,
{
    let ghost s = entries_view(entries@);
    let mut i: usize = 0;
    while i < entries.len()
        invariant
            i <= entries@.len(),
            s == entries_view(entries@),
            first_tag_index(s, tag, 0) == first_tag_index(s, tag, i as int),
        decreases entries@.len() - i,
    {
        if entries[i].tag == tag {
            return Some(i);
        }
        i += 1;
    }
    None
}

/// Completes the unit or text of `entry` from the reference tag it depends on, looked up
/// among `others` (e.g. a resolution takes its unit from the resolution-unit tag, a GPS
/// latitude is followed by its hemisphere). Other entries are left unchanged.
pub fn exif_postprocessing(entry: &mut ExifEntry, others: &[ExifEntry])
    ensures
        final(entry)@ == postprocessed(old(entry)@, entries_view(others@)),
{
    let rt = match entry.tag {
        ExifTag::XResolution | ExifTag::YResolution => ExifTag::ResolutionUnit,
        ExifTag::FocalPlaneXResolution | ExifTag::FocalPlaneYResolution => {
            ExifTag::FocalPlaneResolutionUnit
        },
        ExifTag::GPSLatitude => ExifTag::GPSLatitudeRef,
        ExifTag::GPSLongitude => ExifTag::GPSLongitudeRef,
        ExifTag::GPSAltitude => ExifTag::GPSAltitudeRef,
        ExifTag::GPSDestLatitude => ExifTag::GPSDestLatitudeRef,
        ExifTag::GPSDestLongitude => ExifTag::GPSDestLongitudeRef,
        ExifTag::GPSDestDistance => ExifTag::GPSDestDistanceRef,
        ExifTag::GPSSpeed => ExifTag::GPSSpeedRef,
        _ => return ,
    };
    let i = match find_tag(rt, others) {
        Some(i) => i,
        None => return ,
    };
    let f = &others[i];
    match entry.tag {
        ExifTag::XResolution | ExifTag::YResolution | ExifTag::FocalPlaneXResolution
        | ExifTag::FocalPlaneYResolution => {
            entry.unit = f.value_more_readable.clone();
            entry.value_more_readable.append(" pixels per ");
            entry.value_more_readable.append(f.value_more_readable.as_str());
        },
        ExifTag::GPSDestDistance | ExifTag::GPSSpeed => {
            entry.unit = f.value_more_readable.clone();
            entry.value_more_readable.append(" ");
            entry.value_more_readable.append(f.value_more_readable.as_str());
        },
        ExifTag::GPSAltitude => {
            if let TagValue::U8(fv) = &f.value {
                if fv.len() > 0 && fv[0] != 0 {
                    entry.value_more_readable.append(" below sea level");
                }
            }
        },
        _ => {
            entry.value_more_readable.append(" ");
            entry.value_more_readable.append(f.value_more_readable.as_str());
        },
    }
}

} // verus!
