//! Decoded values of directory records.
use vstd::prelude::*;

use crate::compare::{
    same_bytes, same_i16s, same_i32s, same_i8s, same_irationals, same_u16s, same_u32s,
    same_urationals,
};
use crate::lowlevel::{
    irational_at, read_f32_bits_array, read_f64_bits_array, read_i16_array, read_i32_array,
    read_i8_array, read_irational_array, read_u16_array, read_u32_array, read_urational_array,
    u16_at, u32_at, u64_le_at, urational_at,
};
use crate::rational::{IRational, URational};
use crate::types::{EntryModel, IfdEntry, IfdFormat};

verus! {

/// The text that `String::from_utf8_lossy` makes of a byte sequence.
pub uninterp spec fn lossy_text(b: Seq<u8>) -> Seq<char>;

/// Relies on `String::from_utf8_lossy`: the text depends on the bytes alone, and no bytes
/// give no text.
#[verifier::external_body]
pub(crate) fn text_from_bytes(b: &[u8]) -> (r: String)
    ensures
        r@ == lossy_text(b@),
        b@.len() == 0 ==> r@.len() == 0,
{
    String::from_utf8_lossy(b).into_owned()
}

/// A decoded record value: always an array, one element for scalar tags.
///
/// Floating-point arrays hold the IEEE-754 bit pattern of each element.
#[derive(Clone, Debug)]
pub enum TagValue {
    U8(Vec<u8>),
    /// Text with trailing NUL bytes removed, accepted as UTF-8.
    Ascii(String),
    U16(Vec<u16>),
    U32(Vec<u32>),
    URational(Vec<URational>),
    I8(Vec<i8>),
    /// Opaque bytes of a specified format, with the byte order of the container.
    Undefined(Vec<u8>, bool),
    I16(Vec<i16>),
    I32(Vec<i32>),
    IRational(Vec<IRational>),
    F32(Vec<u32>),
    F64(Vec<u64>),
    /// Bytes of a record whose format code is not recognised, with the byte order.
    Unknown(Vec<u8>, bool),
    /// A record whose data is too short for its count: raw bytes, byte order, format code
    /// and count.
    Invalid(Vec<u8>, bool, u16, u32),
}

pub ghost enum ValueModel {
    U8(Seq<u8>),
    Ascii(Seq<char>),
    U16(Seq<u16>),
    U32(Seq<u32>),
    URational(Seq<URational>),
    I8(Seq<i8>),
    Undefined(Seq<u8>, bool),
    I16(Seq<i16>),
    I32(Seq<i32>),
    IRational(Seq<IRational>),
    F32(Seq<u32>),
    F64(Seq<u64>),
    Unknown(Seq<u8>, bool),
    Invalid(Seq<u8>, bool, u16, u32),
}

impl View for TagValue {
    type V = ValueModel;

    open spec fn view(&self) -> ValueModel {
        match self {
            TagValue::U8(v) => ValueModel::U8(v@),
            TagValue::Ascii(s) => ValueModel::Ascii(s@),
            TagValue::U16(v) => ValueModel::U16(v@),
            TagValue::U32(v) => ValueModel::U32(v@),
            TagValue::URational(v) => ValueModel::URational(v@),
            TagValue::I8(v) => ValueModel::I8(v@),
            TagValue::Undefined(v, le) => ValueModel::Undefined(v@, *le),
            TagValue::I16(v) => ValueModel::I16(v@),
            TagValue::I32(v) => ValueModel::I32(v@),
            TagValue::IRational(v) => ValueModel::IRational(v@),
            TagValue::F32(v) => ValueModel::F32(v@),
            TagValue::F64(v) => ValueModel::F64(v@),
            TagValue::Unknown(v, le) => ValueModel::Unknown(v@, *le),
            TagValue::Invalid(v, le, f, c) => ValueModel::Invalid(v@, *le, *f, *c),
        }
    }
}

/// `s` without its trailing zero bytes.
pub open spec fn trim_nuls(s: Seq<u8>) -> Seq<u8>
    decreases s.len(),
{
    if s.len() > 0 && s.last() == 0 {
        trim_nuls(s.drop_last())
    } else {
        s
    }
}

/// The value a record's resolved data decodes to, or `None` when the data is shorter than
/// the count requires.
pub open spec fn value_of(e: EntryModel) -> Option<ValueModel> {
    let n = e.count as nat;
    let d = e.data;
    match e.format {
        IfdFormat::Ascii => Some(ValueModel::Ascii(lossy_text(trim_nuls(d)))),
        IfdFormat::U8 => if n <= d.len() {
            Some(ValueModel::U8(d))
        } else {
            None
        },
        IfdFormat::I8 => if n <= d.len() {
            Some(ValueModel::I8(Seq::new(n, |i: int| d[i] as i8)))
        } else {
            None
        },
        IfdFormat::U16 => if 2 * n <= d.len() {
            Some(ValueModel::U16(Seq::new(n, |i: int| u16_at(e.le, d, 2 * i))))
        } else {
            None
        },
        IfdFormat::I16 => if 2 * n <= d.len() {
            Some(ValueModel::I16(Seq::new(n, |i: int| u16_at(e.le, d, 2 * i) as i16)))
        } else {
            None
        },
        IfdFormat::U32 => if 4 * n <= d.len() {
            Some(ValueModel::U32(Seq::new(n, |i: int| u32_at(e.le, d, 4 * i))))
        } else {
            None
        },
        IfdFormat::I32 => if 4 * n <= d.len() {
            Some(ValueModel::I32(Seq::new(n, |i: int| u32_at(e.le, d, 4 * i) as i32)))
        } else {
            None
        },
        IfdFormat::F32 => if 4 * n <= d.len() {
            Some(ValueModel::F32(Seq::new(n, |i: int| u32_at(true, d, 4 * i))))
        } else {
            None
        },
        IfdFormat::F64 => if 8 * n <= d.len() {
            Some(ValueModel::F64(Seq::new(n, |i: int| u64_le_at(d, 8 * i))))
        } else {
            None
        },
        IfdFormat::URational => if 8 * n <= d.len() {
            Some(ValueModel::URational(Seq::new(n, |i: int| urational_at(e.le, d, 8 * i))))
        } else {
            None
        },
        IfdFormat::IRational => if 8 * n <= d.len() {
            Some(ValueModel::IRational(Seq::new(n, |i: int| irational_at(e.le, d, 8 * i))))
        } else {
            None
        },
        IfdFormat::Undefined => Some(ValueModel::Undefined(d, e.le)),
        IfdFormat::Unknown => Some(ValueModel::Unknown(d, e.le)),
    }
}

/// Length of `data` once its trailing zero bytes are dropped.
fn trimmed_len(data: &[u8]) -> (r: usize)
    ensures
        r <= data@.len(),
        data@.subrange(0, r as int) == trim_nuls(data@),
{
    let mut n = data.len();
    assert(data@.subrange(0, n as int) =~= data@);
    while n > 0 && data[n - 1] == 0
        invariant
            n <= data@.len(),
            trim_nuls(data@.subrange(0, n as int)) == trim_nuls(data@),
        decreases n,
    {
        assert(data@.subrange(0, n as int).drop_last() =~= data@.subrange(0, n - 1));
        n -= 1;
    }
    n
}

/// Decodes a record's resolved data according to its format and count. Returns `None`
/// when the data is too short for the count.
pub fn tag_value_new(f: &IfdEntry) -> (r: Option<TagValue>)
    ensures
        r is Some <==> value_of(f@) is Some,
        r matches Some(v) ==> value_of(f@) == Some(v@),
{
    let d = f.data.as_slice();
    let ghost n = f.count as nat;
    match f.format {
        IfdFormat::Ascii => {
            let len = trimmed_len(d);
            let s = text_from_bytes(&d[0..len]);
            Some(TagValue::Ascii(s))
        },
        IfdFormat::U8 => {
            if d.len() < f.count as usize {
                return None;
            }
            Some(TagValue::U8(f.data.clone()))
        },
        IfdFormat::I8 => {
            let a = read_i8_array(f.count, d)?;
            assert(a@ =~= Seq::new(n, |i: int| d@[i] as i8));
            Some(TagValue::I8(a))
        },
        IfdFormat::U16 => {
            let a = read_u16_array(f.le, f.count, d)?;
            assert(a@ =~= Seq::new(n, |i: int| u16_at(f.le, d@, 2 * i)));
            Some(TagValue::U16(a))
        },
        IfdFormat::I16 => {
            let a = read_i16_array(f.le, f.count, d)?;
            assert(a@ =~= Seq::new(n, |i: int| u16_at(f.le, d@, 2 * i) as i16));
            Some(TagValue::I16(a))
        },
        IfdFormat::U32 => {
            let a = read_u32_array(f.le, f.count, d)?;
            assert(a@ =~= Seq::new(n, |i: int| u32_at(f.le, d@, 4 * i)));
            Some(TagValue::U32(a))
        },
        IfdFormat::I32 => {
            let a = read_i32_array(f.le, f.count, d)?;
            assert(a@ =~= Seq::new(n, |i: int| u32_at(f.le, d@, 4 * i) as i32));
            Some(TagValue::I32(a))
        },
        IfdFormat::F32 => {
            let a = read_f32_bits_array(f.count, d)?;
            assert(a@ =~= Seq::new(n, |i: int| u32_at(true, d@, 4 * i)));
            Some(TagValue::F32(a))
        },
        IfdFormat::F64 => {
            let a = read_f64_bits_array(f.count, d)?;
            assert(a@ =~= Seq::new(n, |i: int| u64_le_at(d@, 8 * i)));
            Some(TagValue::F64(a))
        },
        IfdFormat::URational => {
            let a = read_urational_array(f.le, f.count, d)?;
            assert(a@ =~= Seq::new(n, |i: int| urational_at(f.le, d@, 8 * i)));
            Some(TagValue::URational(a))
        },
        IfdFormat::IRational => {
            let a = read_irational_array(f.le, f.count, d)?;
            assert(a@ =~= Seq::new(n, |i: int| irational_at(f.le, d@, 8 * i)));
            Some(TagValue::IRational(a))
        },
        IfdFormat::Undefined => Some(TagValue::Undefined(f.data.clone(), f.le)),
        IfdFormat::Unknown => Some(TagValue::Unknown(f.data.clone(), f.le)),
    }
}

/// The bit pattern is an IEEE-754 single-precision NaN: exponent all ones, fraction non-zero.
pub open spec fn f32_is_nan(b: u32) -> bool {
    b % 0x8000_0000 > 0x7f80_0000
}

/// The bit pattern is an IEEE-754 double-precision NaN.
pub open spec fn f64_is_nan(b: u64) -> bool {
    b % 0x8000_0000_0000_0000 > 0x7ff0_0000_0000_0000
}

/// IEEE-754 `==` on single-precision bit patterns: never true of a NaN, and +0 equals -0.
pub open spec fn f32_ieee_eq(a: u32, b: u32) -> bool {
    !f32_is_nan(a) && !f32_is_nan(b) && (a == b || (a % 0x8000_0000 == 0 && b % 0x8000_0000
        == 0))
}

/// IEEE-754 `==` on double-precision bit patterns.
pub open spec fn f64_ieee_eq(a: u64, b: u64) -> bool {
    !f64_is_nan(a) && !f64_is_nan(b) && (a == b || (a % 0x8000_0000_0000_0000 == 0 && b
        % 0x8000_0000_0000_0000 == 0))
}

/// Float elements compare equal when IEEE-754 says so or when both are NaN.
pub open spec fn f32_same(a: u32, b: u32) -> bool {
    (f32_is_nan(a) && f32_is_nan(b)) || f32_ieee_eq(a, b)
}

pub open spec fn f64_same(a: u64, b: u64) -> bool {
    (f64_is_nan(a) && f64_is_nan(b)) || f64_ieee_eq(a, b)
}

/// Equality of values: structural, except that float arrays compare element-wise with NaN
/// equal to NaN.
pub open spec fn value_equiv(a: ValueModel, b: ValueModel) -> bool {
    match (a, b) {
        (ValueModel::F32(x), ValueModel::F32(y)) => x.len() == y.len() && forall|i: int|
            0 <= i < x.len() ==> #[trigger] f32_same(x[i], y[i]),
        (ValueModel::F64(x), ValueModel::F64(y)) => x.len() == y.len() && forall|i: int|
            0 <= i < x.len() ==> #[trigger] f64_same(x[i], y[i]),
        _ => a == b,
    }
}

fn f32_bits_same(a: u32, b: u32) -> (r: bool)
    ensures
        r == f32_same(a, b),
{
    let an = a % 0x8000_0000 > 0x7f80_0000;
    let bn = b % 0x8000_0000 > 0x7f80_0000;
    (an && bn) || (!an && !bn && (a == b || (a % 0x8000_0000 == 0 && b % 0x8000_0000 == 0)))
}

fn f64_bits_same(a: u64, b: u64) -> (r: bool)
    ensures
        r == f64_same(a, b),
{
    let an = a % 0x8000_0000_0000_0000 > 0x7ff0_0000_0000_0000;
    let bn = b % 0x8000_0000_0000_0000 > 0x7ff0_0000_0000_0000;
    (an && bn) || (!an && !bn && (a == b || (a % 0x8000_0000_0000_0000 == 0 && b
        % 0x8000_0000_0000_0000 == 0)))
}

/// Compares two float arrays, treating NaN as equal to NaN.
fn vec_cmp_f32(va: &[u32], vb: &[u32]) -> (r: bool)
    ensures
        r == (va@.len() == vb@.len() && forall|i: int|
            0 <= i < va@.len() ==> #[trigger] f32_same(va@[i], vb@[i])),
{
    if va.len() != vb.len() {
        return false;
    }
    let mut i: usize = 0;
    while i < va.len()
        invariant
            va@.len() == vb@.len(),
            i <= va@.len(),
            forall|k: int| 0 <= k < i as int ==> #[trigger] f32_same(va@[k], vb@[k]),
        decreases va@.len() - i,
    {
        if !f32_bits_same(va[i], vb[i]) {
            return false;
        }
        i += 1;
    }
    true
}

/// Compares two double-precision arrays, treating NaN as equal to NaN.
fn vec_cmp_f64(va: &[u64], vb: &[u64]) -> (r: bool)
    ensures
        r == (va@.len() == vb@.len() && forall|i: int|
            0 <= i < va@.len() ==> #[trigger] f64_same(va@[i], vb@[i])),
{
    if va.len() != vb.len() {
        return false;
    }
    let mut i: usize = 0;
    while i < va.len()
        invariant
            va@.len() == vb@.len(),
            i <= va@.len(),
            forall|k: int| 0 <= k < i as int ==> #[trigger] f64_same(va@[k], vb@[k]),
        decreases va@.len() - i,
    {
        if !f64_bits_same(va[i], vb[i]) {
            return false;
        }
        i += 1;
    }
    true
}

/// Compares two values; float arrays that hold NaN at the same positions and are
/// otherwise identical compare equal.
pub fn tag_value_eq(left: &TagValue, right: &TagValue) -> (r: bool)
    ensures
        r == value_equiv(left@, right@),
{
    match (left, right) {
        (TagValue::U8(a), TagValue::U8(b)) => same_bytes(a, b),
        (TagValue::Ascii(a), TagValue::Ascii(b)) => *a == *b,
        (TagValue::U16(a), TagValue::U16(b)) => same_u16s(a, b),
        (TagValue::U32(a), TagValue::U32(b)) => same_u32s(a, b),
        (TagValue::URational(a), TagValue::URational(b)) => same_urationals(a, b),
        (TagValue::I8(a), TagValue::I8(b)) => same_i8s(a, b),
        (TagValue::Undefined(a, x), TagValue::Undefined(b, y)) => *x == *y && same_bytes(a, b),
        (TagValue::I16(a), TagValue::I16(b)) => same_i16s(a, b),
        (TagValue::I32(a), TagValue::I32(b)) => same_i32s(a, b),
        (TagValue::IRational(a), TagValue::IRational(b)) => same_irationals(a, b),
        (TagValue::F32(a), TagValue::F32(b)) => vec_cmp_f32(a, b),
        (TagValue::F64(a), TagValue::F64(b)) => vec_cmp_f64(a, b),
        (TagValue::Unknown(a, x), TagValue::Unknown(b, y)) => *x == *y && same_bytes(a, b),
        (TagValue::Invalid(a, x, f, c), TagValue::Invalid(b, y, g, d)) => *x == *y && *f == *g
            && *c == *d && same_bytes(a, b),
        _ => false,
    }
}

impl PartialEq for TagValue {
    fn eq(&self, other: &TagValue) -> (r: bool)
        ensures
            r == value_equiv(self@, other@),
    {
        tag_value_eq(self, other)
    }
}

impl vstd::std_specs::cmp::PartialEqSpecImpl for TagValue {
    open spec fn obeys_eq_spec() -> bool {
        false
    }

    open spec fn eq_spec(&self, o: &TagValue) -> bool {
        value_equiv(self@, o@)
    }
}

/// Single-precision arrays of equal length that agree everywhere except at positions
/// where both hold a NaN compare equal.
pub proof fn lemma_f32_nan_positions_equal(x: Seq<u32>, y: Seq<u32>)
    requires
        x.len() == y.len(),
        forall|i: int|
            0 <= i < x.len() ==> x[i] == y[i] || (f32_is_nan(x[i]) && f32_is_nan(y[i])),
    ensures
        value_equiv(ValueModel::F32(x), ValueModel::F32(y)),
{
    assert forall|i: int| 0 <= i < x.len() implies #[trigger] f32_same(x[i], y[i]) by {
        if !(f32_is_nan(x[i]) && f32_is_nan(y[i])) {
            assert(x[i] == y[i]);
        }
    }
}

/// Double-precision arrays of equal length that agree everywhere except at positions
/// where both hold a NaN compare equal.
pub proof fn lemma_f64_nan_positions_equal(x: Seq<u64>, y: Seq<u64>)
    requires
        x.len() == y.len(),
        forall|i: int|
            0 <= i < x.len() ==> x[i] == y[i] || (f64_is_nan(x[i]) && f64_is_nan(y[i])),
    ensures
        value_equiv(ValueModel::F64(x), ValueModel::F64(y)),
{
    assert forall|i: int| 0 <= i < x.len() implies #[trigger] f64_same(x[i], y[i]) by {
        if !(f64_is_nan(x[i]) && f64_is_nan(y[i])) {
            assert(x[i] == y[i]);
        }
    }
}

/// The element at `index` of an integer array, widened to 64 bits.
pub open spec fn int_element(v: ValueModel, index: int) -> Option<i64> {
    match v {
        ValueModel::U8(s) => if 0 <= index < s.len() { Some(s[index] as i64) } else { None },
        ValueModel::U16(s) => if 0 <= index < s.len() { Some(s[index] as i64) } else { None },
        ValueModel::U32(s) => if 0 <= index < s.len() { Some(s[index] as i64) } else { None },
        ValueModel::I8(s) => if 0 <= index < s.len() { Some(s[index] as i64) } else { None },
        ValueModel::I16(s) => if 0 <= index < s.len() { Some(s[index] as i64) } else { None },
        ValueModel::I32(s) => if 0 <= index < s.len() { Some(s[index] as i64) } else { None },
        _ => None,
    }
}

impl TagValue {
    /// Single-precision arrays of equal length that agree everywhere except at positions
/// where both hold a NaN compare equal.
pub proof fn lemma_f32_nan_positions_equal(x: Seq<u32>, y: Seq<u32>)
    requires
        x.len() == y.len(),
        forall|i: int|
            0 <= i < x.len() ==> x[i] == y[i] || (f32_is_nan(x[i]) && f32_is_nan(y[i])),
    ensures
        value_equiv(ValueModel::F32(x), ValueModel::F32(y)),
{
    assert forall|i: int| 0 <= i < x.len() implies #[trigger] f32_same(x[i], y[i]) by {
        if !(f32_is_nan(x[i]) && f32_is_nan(y[i])) {
            assert(x[i] == y[i]);
        }
    }
}

/// Double-precision arrays of equal length that agree everywhere except at positions
/// where both hold a NaN compare equal.
pub proof fn lemma_f64_nan_positions_equal(x: Seq<u64>, y: Seq<u64>)
    requires
        x.len() == y.len(),
        forall|i: int|
            0 <= i < x.len() ==> x[i] == y[i] || (f64_is_nan(x[i]) && f64_is_nan(y[i])),
    ensures
        value_equiv(ValueModel::F64(x), ValueModel::F64(y)),
{
    assert forall|i: int| 0 <= i < x.len() implies #[trigger] f64_same(x[i], y[i]) by {
        if !(f64_is_nan(x[i]) && f64_is_nan(y[i])) {
            assert(x[i] == y[i]);
        }
    }
}

/// The element at `index` of an integer array as an `i64`; `None` for other kinds of
    /// value and for an index out of bounds.
    pub fn to_i64(&self, index: usize) -> (r: Option<i64>)
        ensures
            r == int_element(self@, index as int),
    {
        match self {
            TagValue::U8(v) => if index < v.len() { Some(v[index] as i64) } else { None },
            TagValue::U16(v) => if index < v.len() { Some(v[index] as i64) } else { None },
            TagValue::U32(v) => if index < v.len() { Some(v[index] as i64) } else { None },
            TagValue::I8(v) => if index < v.len() { Some(v[index] as i64) } else { None },
            TagValue::I16(v) => if index < v.len() { Some(v[index] as i64) } else { None },
            TagValue::I32(v) => if index < v.len() { Some(v[index] as i64) } else { None },
            _ => None,
        }
    }
}

} // verus!
