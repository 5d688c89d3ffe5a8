use vstd::prelude::*;
use crate::types::PixelBenderError;

verus! {

/// `n` bytes are left at position `p`.
pub open spec fn fits(d: Seq<u8>, p: int, n: int) -> bool {
    0 <= p && p + n <= d.len()
}

pub open spec fn truncated(p: int) -> PixelBenderError {
    PixelBenderError::Truncated { offset: p as usize }
}

pub open spec fn le_u16_at(d: Seq<u8>, p: int) -> u16 {
    (d[p] as u16) | ((d[p + 1] as u16) << 8u16)
}

pub open spec fn le_u24_at(d: Seq<u8>, p: int) -> u32 {
    (d[p] as u32) | ((d[p + 1] as u32) << 8u32) | ((d[p + 2] as u32) << 16u32)
}

pub open spec fn le_u32_at(d: Seq<u8>, p: int) -> u32 {
    (d[p] as u32) | ((d[p + 1] as u32) << 8u32) | ((d[p + 2] as u32) << 16u32) | ((d[p + 3] as u32)
        << 24u32)
}

pub open spec fn be_u32_at(d: Seq<u8>, p: int) -> u32 {
    ((d[p] as u32) << 24u32) | ((d[p + 1] as u32) << 16u32) | ((d[p + 2] as u32) << 8u32) | (d[p
        + 3] as u32)
}

/// Each byte taken as the character of the same code point.
pub open spec fn latin1(b: Seq<u8>) -> Seq<char> {
    b.map_values(|x: u8| x as char)
}

/// Position of the first zero byte at or after `p`.
pub open spec fn terminator_from(d: Seq<u8>, p: int) -> Option<int>
    decreases d.len() - p,
{
    if p < 0 || p >= d.len() {
        None
    } else if d[p] == 0 {
        Some(p)
    } else {
        terminator_from(d, p + 1)
    }
}

/// Outcome of a fixed-width read of `n` bytes at `p` whose value is `v`.
pub open spec fn read_outcome<T>(d: Seq<u8>, p: int, n: int, v: T, r: Result<T, PixelBenderError>, end: usize) -> bool {
    if fits(d, p, n) {
        r == Ok::<T, PixelBenderError>(v) && end == p + n
    } else {
        r == Err::<T, PixelBenderError>(truncated(p)) && end == p
    }
}

pub fn read_u8(data: &[u8], pos: &mut usize) -> (r: Result<u8, PixelBenderError>)
    requires
        *old(pos) <= data@.len(),
    ensures
        *old(pos) <= *final(pos) <= data@.len(),
        read_outcome(data@, *old(pos) as int, 1, data@[*old(pos) as int], r, *final(pos)),
{
    if *pos < data.len() {
        let b = data[*pos];
        *pos = *pos + 1;
        Ok(b)
    } else {
        Err(PixelBenderError::Truncated { offset: *pos })
    }
}

pub fn read_u16_le(data: &[u8], pos: &mut usize) -> (r: Result<u16, PixelBenderError>)
    requires
        *old(pos) <= data@.len(),
    ensures
        *old(pos) <= *final(pos) <= data@.len(),
        read_outcome(data@, *old(pos) as int, 2, le_u16_at(data@, *old(pos) as int), r, *final(pos)),
{
    if data.len() - *pos >= 2 {
        let p = *pos;
        let v = (data[p] as u16) | ((data[p + 1] as u16) << 8u16);
        *pos = p + 2;
        Ok(v)
    } else {
        Err(PixelBenderError::Truncated { offset: *pos })
    }
}

/// Reads a little-endian 24-bit unsigned integer.
pub fn read_uint24(data: &[u8], pos: &mut usize) -> (r: Result<u32, PixelBenderError>)
    requires
        *old(pos) <= data@.len(),
    ensures
        *old(pos) <= *final(pos) <= data@.len(),
        read_outcome(data@, *old(pos) as int, 3, le_u24_at(data@, *old(pos) as int), r, *final(pos)),
{
    if data.len() - *pos >= 3 {
        let p = *pos;
        let v = (data[p] as u32) | ((data[p + 1] as u32) << 8u32) | ((data[p + 2] as u32) << 16u32);
        *pos = p + 3;
        Ok(v)
    } else {
        Err(PixelBenderError::Truncated { offset: *pos })
    }
}

pub fn read_u32_le(data: &[u8], pos: &mut usize) -> (r: Result<u32, PixelBenderError>)
    requires
        *old(pos) <= data@.len(),
    ensures
        *old(pos) <= *final(pos) <= data@.len(),
        read_outcome(data@, *old(pos) as int, 4, le_u32_at(data@, *old(pos) as int), r, *final(pos)),
{
    if data.len() - *pos >= 4 {
        let p = *pos;
        let v = (data[p] as u32) | ((data[p + 1] as u32) << 8u32) | ((data[p + 2] as u32) << 16u32)
            | ((data[p + 3] as u32) << 24u32);
        *pos = p + 4;
        Ok(v)
    } else {
        Err(PixelBenderError::Truncated { offset: *pos })
    }
}

/// Reads the bits of a big-endian 32-bit float.
pub fn read_float(data: &[u8], pos: &mut usize) -> (r: Result<u32, PixelBenderError>)
    requires
        *old(pos) <= data@.len(),
    ensures
        *old(pos) <= *final(pos) <= data@.len(),
        read_outcome(data@, *old(pos) as int, 4, be_u32_at(data@, *old(pos) as int), r, *final(pos)),
{
    if data.len() - *pos >= 4 {
        let p = *pos;
        let v = ((data[p] as u32) << 24u32) | ((data[p + 1] as u32) << 16u32) | ((data[p + 2] as u32)
            << 8u32) | (data[p + 3] as u32);
        *pos = p + 4;
        Ok(v)
    } else {
        Err(PixelBenderError::Truncated { offset: *pos })
    }
}

/// Relies on String::push: appends the character to the end of the string.
#[verifier::external_body]
fn push_char(s: &mut String, c: char)
    ensures
        final(s)@ == old(s)@.push(c),
{
    s.push(c)
}

/// Reads a zero-terminated string of one character per byte; the terminator is consumed and not
/// kept.
pub fn read_string(data: &[u8], pos: &mut usize) -> (r: Result<String, PixelBenderError>)
    requires
        *old(pos) <= data@.len(),
    ensures
        *old(pos) <= *final(pos) <= data@.len(),
        r is Err ==> *final(pos) == *old(pos),
        match terminator_from(data@, *old(pos) as int) {
            Some(z) => match r {
                Ok(s) => s@ == latin1(data@.subrange(*old(pos) as int, z)) && *final(pos) == z + 1,
                Err(_) => false,
            },
            None => r == Err::<String, PixelBenderError>(truncated(data@.len() as int)),
        },
{
    let start = *pos;
    let mut s = String::new();
    let mut i = start;
    while i < data.len() && data[i] != 0
        invariant
            start <= i <= data@.len(),
            s@ == latin1(data@.subrange(start as int, i as int)),
            terminator_from(data@, start as int) == terminator_from(data@, i as int),
        decreases data@.len() - i,
    {
        push_char(&mut s, data[i] as char);
        proof {
            assert(data@.subrange(start as int, i + 1) == data@.subrange(start as int, i as int).push(data@[i as int]));
            assert(latin1(data@.subrange(start as int, i + 1)) =~= latin1(data@.subrange(start as int, i as int)).push(data@[i as int] as char));
        }
        i = i + 1;
    }
    if i < data.len() {
        *pos = i + 1;
        Ok(s)
    } else {
        Err(PixelBenderError::Truncated { offset: i })
    }
}

} // verus!
