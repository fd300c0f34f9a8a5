//! Endianness-aware reads of fixed-width integers from byte slices.
use vstd::prelude::*;

use crate::rational::{IRational, URational};

verus! {

/// The 16-bit value stored at position `p` of `s`.
pub open spec fn u16_at(le: bool, s: Seq<u8>, p: int) -> u16 {
    if le {
        (s[p] as int + 256 * s[p + 1] as int) as u16
    } else {
        (256 * s[p] as int + s[p + 1] as int) as u16
    }
}

/// The 32-bit value stored at position `p` of `s`.
pub open spec fn u32_at(le: bool, s: Seq<u8>, p: int) -> u32 {
    if le {
        (s[p] as int + 0x100 * s[p + 1] as int + 0x1_0000 * s[p + 2] as int + 0x100_0000
            * s[p + 3] as int) as u32
    } else {
        (s[p + 3] as int + 0x100 * s[p + 2] as int + 0x1_0000 * s[p + 1] as int + 0x100_0000
            * s[p] as int) as u32
    }
}

/// The 64-bit value stored little-endian at position `p` of `s`.
pub open spec fn u64_le_at(s: Seq<u8>, p: int) -> u64 {
    (u32_at(true, s, p) as int + 0x1_0000_0000 * u32_at(true, s, p + 4) as int) as u64
}

pub open spec fn urational_at(le: bool, s: Seq<u8>, p: int) -> URational {
    URational { numerator: u32_at(le, s, p), denominator: u32_at(le, s, p + 4) }
}

pub open spec fn irational_at(le: bool, s: Seq<u8>, p: int) -> IRational {
    IRational { numerator: u32_at(le, s, p) as i32, denominator: u32_at(le, s, p + 4) as i32 }
}

/// The two bytes that hold `v` in the given byte order.
pub open spec fn u16_bytes(le: bool, v: u16) -> Seq<u8> {
    if le {
        seq![(v % 256) as u8, (v / 256) as u8]
    } else {
        seq![(v / 256) as u8, (v % 256) as u8]
    }
}

/// The four bytes that hold `v` in the given byte order.
pub open spec fn u32_bytes(le: bool, v: u32) -> Seq<u8> {
    let b0 = (v % 0x100) as u8;
    let b1 = ((v / 0x100) % 0x100) as u8;
    let b2 = ((v / 0x1_0000) % 0x100) as u8;
    let b3 = (v / 0x100_0000) as u8;
    if le {
        seq![b0, b1, b2, b3]
    } else {
        seq![b3, b2, b1, b0]
    }
}

pub fn get_u16(le: bool, raw: &[u8], p: usize) -> (r: u16)
    requires
        p + 2 <= raw.len(),
    ensures
        r == u16_at(le, raw@, p as int),
{
    let a = raw[p] as u16;
    let b = raw[p + 1] as u16;
    if le {
        a + 256 * b
    } else {
        256 * a + b
    }
}

pub fn get_u32(le: bool, raw: &[u8], p: usize) -> (r: u32)
    requires
        p + 4 <= raw.len(),
    ensures
        r == u32_at(le, raw@, p as int),
{
    let (a, b, c, d) = if le {
        (raw[p] as u32, raw[p + 1] as u32, raw[p + 2] as u32, raw[p + 3] as u32)
    } else {
        (raw[p + 3] as u32, raw[p + 2] as u32, raw[p + 1] as u32, raw[p] as u32)
    };
    a + 0x100 * b + 0x1_0000 * c + 0x100_0000 * d
}

pub fn get_u64_le(raw: &[u8], p: usize) -> (r: u64)
    requires
        p + 8 <= raw.len(),
    ensures
        r == u64_le_at(raw@, p as int),
{
    let lo = get_u32(true, raw, p) as u64;
    let hi = get_u32(true, raw, p + 4) as u64;
    lo + 0x1_0000_0000 * hi
}

/// Appends the bytes of `v` in the given byte order.
pub fn push_u16(out: &mut Vec<u8>, le: bool, v: u16)
    ensures
        final(out)@ == old(out)@ + u16_bytes(le, v),
{
    let lo = (v % 256) as u8;
    let hi = (v / 256) as u8;
    if le {
        out.push(lo);
        out.push(hi);
    } else {
        out.push(hi);
        out.push(lo);
    }
    assert(final(out)@ =~= old(out)@ + u16_bytes(le, v));
}

/// Appends the bytes of `v` in the given byte order.
pub fn push_u32(out: &mut Vec<u8>, le: bool, v: u32)
    ensures
        final(out)@ == old(out)@ + u32_bytes(le, v),
{
    let b0 = (v % 0x100) as u8;
    let b1 = ((v / 0x100) % 0x100) as u8;
    let b2 = ((v / 0x1_0000) % 0x100) as u8;
    let b3 = (v / 0x100_0000) as u8;
    if le {
        out.push(b0);
        out.push(b1);
        out.push(b2);
        out.push(b3);
    } else {
        out.push(b3);
        out.push(b2);
        out.push(b1);
        out.push(b0);
    }
    assert(final(out)@ =~= old(out)@ + u32_bytes(le, v));
}

/// Reads a 16-bit unsigned value from the start of `raw`.
pub fn read_u16(le: bool, raw: &[u8]) -> (r: Option<u16>)
    ensures
        r == (if raw@.len() >= 2 { Some(u16_at(le, raw@, 0)) } else { None::<u16> }),
{
    if raw.len() < 2 {
        None
    } else {
        Some(get_u16(le, raw, 0))
    }
}

/// Reads a 16-bit signed value from the start of `raw`.
pub fn read_i16(le: bool, raw: &[u8]) -> (r: Option<i16>)
    ensures
        r == (if raw@.len() >= 2 { Some(u16_at(le, raw@, 0) as i16) } else { None::<i16> }),
{
    if raw.len() < 2 {
        None
    } else {
        Some(get_u16(le, raw, 0) as i16)
    }
}

/// Reads a 32-bit unsigned value from the start of `raw`.
pub fn read_u32(le: bool, raw: &[u8]) -> (r: Option<u32>)
    ensures
        r == (if raw@.len() >= 4 { Some(u32_at(le, raw@, 0)) } else { None::<u32> }),
{
    if raw.len() < 4 {
        None
    } else {
        Some(get_u32(le, raw, 0))
    }
}

/// Reads a 32-bit signed value from the start of `raw`.
pub fn read_i32(le: bool, raw: &[u8]) -> (r: Option<i32>)
    ensures
        r == (if raw@.len() >= 4 { Some(u32_at(le, raw@, 0) as i32) } else { None::<i32> }),
{
    if raw.len() < 4 {
        None
    } else {
        Some(get_u32(le, raw, 0) as i32)
    }
}

/// Reads the bit pattern of a single-precision float, always stored little-endian.
pub fn read_f32_bits(raw: &[u8]) -> (r: Option<u32>)
    ensures
        r == (if raw@.len() >= 4 { Some(u32_at(true, raw@, 0)) } else { None::<u32> }),
{
    read_u32(true, raw)
}

/// Reads the bit pattern of a double-precision float, always stored little-endian.
pub fn read_f64_bits(raw: &[u8]) -> (r: Option<u64>)
    ensures
        r == (if raw@.len() >= 8 { Some(u64_le_at(raw@, 0)) } else { None::<u64> }),
{
    if raw.len() < 8 {
        None
    } else {
        Some(get_u64_le(raw, 0))
    }
}

/// Reads an unsigned rational (numerator, then denominator) from the start of `raw`.
pub fn read_urational(le: bool, raw: &[u8]) -> (r: Option<URational>)
    ensures
        r == (if raw@.len() >= 8 { Some(urational_at(le, raw@, 0)) } else { None::<URational> }),
{
    if raw.len() < 8 {
        None
    } else {
        Some(URational { numerator: get_u32(le, raw, 0), denominator: get_u32(le, raw, 4) })
    }
}

/// Reads a signed rational (numerator, then denominator) from the start of `raw`.
pub fn read_irational(le: bool, raw: &[u8]) -> (r: Option<IRational>)
    ensures
        r == (if raw@.len() >= 8 { Some(irational_at(le, raw@, 0)) } else { None::<IRational> }),
{
    if raw.len() < 8 {
        None
    } else {
        Some(
            IRational {
                numerator: get_u32(le, raw, 0) as i32,
                denominator: get_u32(le, raw, 4) as i32,
            },
        )
    }
}

/// Reads `count` signed bytes from the start of `raw`.
pub fn read_i8_array(count: u32, raw: &[u8]) -> (r: Option<Vec<i8>>)
    ensures
        r is Some <==> count as int <= raw@.len(),
        r matches Some(v) ==> v@.len() == count as int && forall|i: int|
            0 <= i < count as int ==> #[trigger] v@[i] == raw@[i] as i8,
{
    if count as usize > raw.len() {
        return None;
    }
    let n = count as usize;
    let mut v: Vec<i8> = Vec::new();
    let mut i: usize = 0;
    while i < n
        invariant
            n == count as int,
            n <= raw.len(),
            i <= n,
            v@.len() == i as int,
            forall|k: int| 0 <= k < i as int ==> #[trigger] v@[k] == raw@[k] as i8,
        decreases n - i,
    {
        v.push(raw[i] as i8);
        i += 1;
    }
    Some(v)
}

/// Reads `count` unsigned 16-bit values from the start of `raw`.
pub fn read_u16_array(le: bool, count: u32, raw: &[u8]) -> (r: Option<Vec<u16>>)
    ensures
        r is Some <==> 2 * count as int <= raw@.len(),
        r matches Some(v) ==> v@.len() == count as int && forall|i: int|
            0 <= i < count as int ==> #[trigger] v@[i] == u16_at(le, raw@, 2 * i),
{
    if count as usize > raw.len() / 2 {
        return None;
    }
    let n = count as usize;
    let mut v: Vec<u16> = Vec::new();
    let mut i: usize = 0;
    while i < n
        invariant
            n == count as int,
            2 * n <= raw.len(),
            i <= n,
            v@.len() == i as int,
            forall|k: int| 0 <= k < i as int ==> #[trigger] v@[k] == u16_at(le, raw@, 2 * k),
        decreases n - i,
    {
        v.push(get_u16(le, raw, 2 * i));
        i += 1;
    }
    Some(v)
}

/// Reads `count` signed 16-bit values from the start of `raw`.
pub fn read_i16_array(le: bool, count: u32, raw: &[u8]) -> (r: Option<Vec<i16>>)
    ensures
        r is Some <==> 2 * count as int <= raw@.len(),
        r matches Some(v) ==> v@.len() == count as int && forall|i: int|
            0 <= i < count as int ==> #[trigger] v@[i] == u16_at(le, raw@, 2 * i) as i16,
{
    if count as usize > raw.len() / 2 {
        return None;
    }
    let n = count as usize;
    let mut v: Vec<i16> = Vec::new();
    let mut i: usize = 0;
    while i < n
        invariant
            n == count as int,
            2 * n <= raw.len(),
            i <= n,
            v@.len() == i as int,
            forall|k: int| 0 <= k < i as int ==> #[trigger] v@[k] == u16_at(le, raw@, 2 * k) as i16,
        decreases n - i,
    {
        v.push(get_u16(le, raw, 2 * i) as i16);
        i += 1;
    }
    Some(v)
}

/// Reads `count` unsigned 32-bit values from the start of `raw`.
pub fn read_u32_array(le: bool, count: u32, raw: &[u8]) -> (r: Option<Vec<u32>>)
    ensures
        r is Some <==> 4 * count as int <= raw@.len(),
        r matches Some(v) ==> v@.len() == count as int && forall|i: int|
            0 <= i < count as int ==> #[trigger] v@[i] == u32_at(le, raw@, 4 * i),
{
    if count as usize > raw.len() / 4 {
        return None;
    }
    let n = count as usize;
    let mut v: Vec<u32> = Vec::new();
    let mut i: usize = 0;
    while i < n
        invariant
            n == count as int,
            4 * n <= raw.len(),
            i <= n,
            v@.len() == i as int,
            forall|k: int| 0 <= k < i as int ==> #[trigger] v@[k] == u32_at(le, raw@, 4 * k),
        decreases n - i,
    {
        v.push(get_u32(le, raw, 4 * i));
        i += 1;
    }
    Some(v)
}

/// Reads `count` signed 32-bit values from the start of `raw`.
pub fn read_i32_array(le: bool, count: u32, raw: &[u8]) -> (r: Option<Vec<i32>>)
    ensures
        r is Some <==> 4 * count as int <= raw@.len(),
        r matches Some(v) ==> v@.len() == count as int && forall|i: int|
            0 <= i < count as int ==> #[trigger] v@[i] == u32_at(le, raw@, 4 * i) as i32,
{
    if count as usize > raw.len() / 4 {
        return None;
    }
    let n = count as usize;
    let mut v: Vec<i32> = Vec::new();
    let mut i: usize = 0;
    while i < n
        invariant
            n == count as int,
            4 * n <= raw.len(),
            i <= n,
            v@.len() == i as int,
            forall|k: int| 0 <= k < i as int ==> #[trigger] v@[k] == u32_at(le, raw@, 4 * k) as i32,
        decreases n - i,
    {
        v.push(get_u32(le, raw, 4 * i) as i32);
        i += 1;
    }
    Some(v)
}

/// Reads `count` unsigned rationals from the start of `raw`.
pub fn read_urational_array(le: bool, count: u32, raw: &[u8]) -> (r: Option<Vec<URational>>)
    ensures
        r is Some <==> 8 * count as int <= raw@.len(),
        r matches Some(v) ==> v@.len() == count as int && forall|i: int|
            0 <= i < count as int ==> #[trigger] v@[i] == urational_at(le, raw@, 8 * i),
{
    if count as usize > raw.len() / 8 {
        return None;
    }
    let n = count as usize;
    let mut v: Vec<URational> = Vec::new();
    let mut i: usize = 0;
    while i < n
        invariant
            n == count as int,
            8 * n <= raw.len(),
            i <= n,
            v@.len() == i as int,
            forall|k: int| 0 <= k < i as int ==> #[trigger] v@[k] == urational_at(le, raw@, 8 * k),
        decreases n - i,
    {
        v.push(URational { numerator: get_u32(le, raw, 8 * i), denominator: get_u32(le, raw, 8 * i + 4) });
        i += 1;
    }
    Some(v)
}

/// Reads `count` signed rationals from the start of `raw`.
pub fn read_irational_array(le: bool, count: u32, raw: &[u8]) -> (r: Option<Vec<IRational>>)
    ensures
        r is Some <==> 8 * count as int <= raw@.len(),
        r matches Some(v) ==> v@.len() == count as int && forall|i: int|
            0 <= i < count as int ==> #[trigger] v@[i] == irational_at(le, raw@, 8 * i),
{
    if count as usize > raw.len() / 8 {
        return None;
    }
    let n = count as usize;
    let mut v: Vec<IRational> = Vec::new();
    let mut i: usize = 0;
    while i < n
        invariant
            n == count as int,
            8 * n <= raw.len(),
            i <= n,
            v@.len() == i as int,
            forall|k: int| 0 <= k < i as int ==> #[trigger] v@[k] == irational_at(le, raw@, 8 * k),
        decreases n - i,
    {
        v.push(IRational { numerator: get_u32(le, raw, 8 * i) as i32, denominator: get_u32(le, raw, 8 * i + 4) as i32 });
        i += 1;
    }
    Some(v)
}

/// Reads `count` single-precision float bit patterns (little-endian) from the start of `raw`.
pub fn read_f32_bits_array(count: u32, raw: &[u8]) -> (r: Option<Vec<u32>>)
    ensures
        r is Some <==> 4 * count as int <= raw@.len(),
        r matches Some(v) ==> v@.len() == count as int && forall|i: int|
            0 <= i < count as int ==> #[trigger] v@[i] == u32_at(true, raw@, 4 * i),
{
    if count as usize > raw.len() / 4 {
        return None;
    }
    let n = count as usize;
    let mut v: Vec<u32> = Vec::new();
    let mut i: usize = 0;
    while i < n
        invariant
            n == count as int,
            4 * n <= raw.len(),
            i <= n,
            v@.len() == i as int,
            forall|k: int| 0 <= k < i as int ==> #[trigger] v@[k] == u32_at(true, raw@, 4 * k),
        decreases n - i,
    {
        v.push(get_u32(true, raw, 4 * i));
        i += 1;
    }
    Some(v)
}

/// Reads `count` double-precision float bit patterns (little-endian) from the start of `raw`.
pub fn read_f64_bits_array(count: u32, raw: &[u8]) -> (r: Option<Vec<u64>>)
    ensures
        r is Some <==> 8 * count as int <= raw@.len(),
        r matches Some(v) ==> v@.len() == count as int && forall|i: int|
            0 <= i < count as int ==> #[trigger] v@[i] == u64_le_at(raw@, 8 * i),
{
    if count as usize > raw.len() / 8 {
        return None;
    }
    let n = count as usize;
    let mut v: Vec<u64> = Vec::new();
    let mut i: usize = 0;
    while i < n
        invariant
            n == count as int,
            8 * n <= raw.len(),
            i <= n,
            v@.len() == i as int,
            forall|k: int| 0 <= k < i as int ==> #[trigger] v@[k] == u64_le_at(raw@, 8 * k),
        decreases n - i,
    {
        v.push(get_u64_le(raw, 8 * i));
        i += 1;
    }
    Some(v)
}

/// A fresh vector holding `raw[from..to]`.
pub fn copy_range(raw: &[u8], from: usize, to: usize) -> (r: Vec<u8>)
    requires
        from <= to <= raw.len(),
    ensures
        r@ == raw@.subrange(from as int, to as int),
{
    let mut v: Vec<u8> = Vec::new();
    let mut i: usize = from;
    while i < to
        invariant
            from <= i <= to <= raw.len(),
            v@ == raw@.subrange(from as int, i as int),
        decreases to - i,
    {
        v.push(raw[i]);
        i += 1;
        assert(v@ =~= raw@.subrange(from as int, i as int));
    }
    v
}

} // verus!
