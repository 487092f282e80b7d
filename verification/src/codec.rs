//! Big-endian primitive readers and writers over a byte cursor.
//!
//! Every table decoder drives these readers in fixed field order; the
//! writers exist to support round-trip encoding of decoded records.

use vstd::prelude::*;

use crate::error::Error;
use crate::types::Fixed;

verus! {

/// The unsigned value of the two big-endian bytes at `i`.
pub open spec fn be16v(s: Seq<u8>, i: int) -> int {
    s[i] * 0x100 + s[i + 1]
}

/// The unsigned value of the four big-endian bytes at `i`.
pub open spec fn be32v(s: Seq<u8>, i: int) -> int {
    be16v(s, i) * 0x10000 + be16v(s, i + 2)
}

/// The unsigned value of the eight big-endian bytes at `i`.
pub open spec fn be64v(s: Seq<u8>, i: int) -> int {
    be32v(s, i) * 0x100000000 + be32v(s, i + 4)
}

/// Reads a 16-bit unsigned value as two's-complement signed.
pub open spec fn sign16(v: int) -> int {
    if v < 0x8000 {
        v
    } else {
        v - 0x10000
    }
}

/// Reads a 32-bit unsigned value as two's-complement signed.
pub open spec fn sign32(v: int) -> int {
    if v < 0x80000000 {
        v
    } else {
        v - 0x100000000
    }
}

/// Reads a 64-bit unsigned value as two's-complement signed.
pub open spec fn sign64(v: int) -> int {
    if v < 0x8000000000000000 {
        v
    } else {
        v - 0x10000000000000000
    }
}

/// The 16-bit two's-complement image of a signed value.
pub open spec fn uns16(v: int) -> int {
    if v < 0 {
        v + 0x10000
    } else {
        v
    }
}

/// The 32-bit two's-complement image of a signed value.
pub open spec fn uns32(v: int) -> int {
    if v < 0 {
        v + 0x100000000
    } else {
        v
    }
}

/// The 64-bit two's-complement image of a signed value.
pub open spec fn uns64(v: int) -> int {
    if v < 0 {
        v + 0x10000000000000000
    } else {
        v
    }
}

/// A read cursor over a borrowed byte slice.
///
/// Reads are sequential and order-dependent: each successful read
/// consumes exactly the requested width, so the position strictly
/// increases; there is no seeking backward and no peeking. A read past
/// the end of the slice fails with `Error::Malformed`.
pub struct Reader<'a> {
    pub data: &'a [u8],
    pub pos: usize,
}

impl<'a> Reader<'a> {
    /// Positions a fresh cursor at `offset` within `data`.
    pub fn new(data: &'a [u8], offset: usize) -> (r: Reader<'a>)
        ensures
            r.data@ == data@,
            r.pos == offset,
    {
        Reader { data, pos: offset }
    }

    /// Reads a big-endian unsigned 16-bit integer.
    pub fn read_u16(&mut self) -> (r: Result<u16, Error>)
        ensures
            final(self).data@ == old(self).data@,
            old(self).pos + 2 <= old(self).data@.len() ==> final(self).pos == old(self).pos + 2,
            old(self).pos + 2 <= old(self).data@.len() ==> r == Ok::<u16, Error>(
                be16v(old(self).data@, old(self).pos as int) as u16,
            ),
            old(self).pos + 2 > old(self).data@.len() ==> final(self).pos == old(self).pos,
            old(self).pos + 2 > old(self).data@.len() ==> r == Err::<u16, Error>(
                Error::Malformed,
            ),
    {
        let n: usize = self.data.len();
        if self.pos < n && n - self.pos >= 2 {
            let b0: u8 = self.data[self.pos];
            let b1: u8 = self.data[self.pos + 1];
            self.pos = self.pos + 2;
            Ok((b0 as u16) * 0x100 + (b1 as u16))
        } else {
            Err(Error::Malformed)
        }
    }

    /// Reads a big-endian unsigned 32-bit integer.
    pub fn read_u32(&mut self) -> (r: Result<u32, Error>)
        ensures
            final(self).data@ == old(self).data@,
            old(self).pos + 4 <= old(self).data@.len() ==> final(self).pos == old(self).pos + 4,
            old(self).pos + 4 <= old(self).data@.len() ==> r == Ok::<u32, Error>(
                be32v(old(self).data@, old(self).pos as int) as u32,
            ),
            old(self).pos + 4 > old(self).data@.len() ==> final(self).pos == old(self).pos,
            old(self).pos + 4 > old(self).data@.len() ==> r == Err::<u32, Error>(
                Error::Malformed,
            ),
    {
        let n: usize = self.data.len();
        if self.pos < n && n - self.pos >= 4 {
            let hi: u16 = match self.read_u16() {
                Ok(v) => v,
                Err(e) => {
                    return Err(e);
                },
            };
            let lo: u16 = match self.read_u16() {
                Ok(v) => v,
                Err(e) => {
                    return Err(e);
                },
            };
            Ok((hi as u32) * 0x10000 + (lo as u32))
        } else {
            Err(Error::Malformed)
        }
    }

    /// Reads a big-endian unsigned 64-bit integer.
    pub fn read_u64(&mut self) -> (r: Result<u64, Error>)
        ensures
            final(self).data@ == old(self).data@,
            old(self).pos + 8 <= old(self).data@.len() ==> final(self).pos == old(self).pos + 8,
            old(self).pos + 8 <= old(self).data@.len() ==> r == Ok::<u64, Error>(
                be64v(old(self).data@, old(self).pos as int) as u64,
            ),
            old(self).pos + 8 > old(self).data@.len() ==> final(self).pos == old(self).pos,
            old(self).pos + 8 > old(self).data@.len() ==> r == Err::<u64, Error>(
                Error::Malformed,
            ),
    {
        let n: usize = self.data.len();
        if self.pos < n && n - self.pos >= 8 {
            let hi: u32 = match self.read_u32() {
                Ok(v) => v,
                Err(e) => {
                    return Err(e);
                },
            };
            let lo: u32 = match self.read_u32() {
                Ok(v) => v,
                Err(e) => {
                    return Err(e);
                },
            };
            Ok((hi as u64) * 0x100000000 + (lo as u64))
        } else {
            Err(Error::Malformed)
        }
    }

    /// Reads a big-endian signed 16-bit integer.
    pub fn read_i16(&mut self) -> (r: Result<i16, Error>)
        ensures
            final(self).data@ == old(self).data@,
            old(self).pos + 2 <= old(self).data@.len() ==> final(self).pos == old(self).pos + 2,
            old(self).pos + 2 <= old(self).data@.len() ==> r == Ok::<i16, Error>(
                sign16(be16v(old(self).data@, old(self).pos as int)) as i16,
            ),
            old(self).pos + 2 > old(self).data@.len() ==> final(self).pos == old(self).pos,
            old(self).pos + 2 > old(self).data@.len() ==> r == Err::<i16, Error>(
                Error::Malformed,
            ),
    {
        match self.read_u16() {
            Ok(v) => {
                if v < 0x8000 {
                    Ok(v as i16)
                } else {
                    Ok(((v as i32) - 0x10000) as i16)
                }
            },
            Err(e) => Err(e),
        }
    }

    /// Reads a big-endian signed 32-bit integer.
    pub fn read_i32(&mut self) -> (r: Result<i32, Error>)
        ensures
            final(self).data@ == old(self).data@,
            old(self).pos + 4 <= old(self).data@.len() ==> final(self).pos == old(self).pos + 4,
            old(self).pos + 4 <= old(self).data@.len() ==> r == Ok::<i32, Error>(
                sign32(be32v(old(self).data@, old(self).pos as int)) as i32,
            ),
            old(self).pos + 4 > old(self).data@.len() ==> final(self).pos == old(self).pos,
            old(self).pos + 4 > old(self).data@.len() ==> r == Err::<i32, Error>(
                Error::Malformed,
            ),
    {
        match self.read_u32() {
            Ok(v) => {
                if v < 0x80000000 {
                    Ok(v as i32)
                } else {
                    Ok(((v as i64) - 0x100000000) as i32)
                }
            },
            Err(e) => Err(e),
        }
    }

    /// Reads a big-endian signed 64-bit integer.
    pub fn read_i64(&mut self) -> (r: Result<i64, Error>)
        ensures
            final(self).data@ == old(self).data@,
            old(self).pos + 8 <= old(self).data@.len() ==> final(self).pos == old(self).pos + 8,
            old(self).pos + 8 <= old(self).data@.len() ==> r == Ok::<i64, Error>(
                sign64(be64v(old(self).data@, old(self).pos as int)) as i64,
            ),
            old(self).pos + 8 > old(self).data@.len() ==> final(self).pos == old(self).pos,
            old(self).pos + 8 > old(self).data@.len() ==> r == Err::<i64, Error>(
                Error::Malformed,
            ),
    {
        match self.read_u64() {
            Ok(v) => {
                if v < 0x8000000000000000 {
                    Ok(v as i64)
                } else {
                    Ok(-((0xFFFFFFFFFFFFFFFF - v) as i64) - 1)
                }
            },
            Err(e) => Err(e),
        }
    }

    /// Reads a 32-bit signed big-endian value and wraps it as a 16.16
    /// fixed-point number, without further transformation.
    pub fn read_fixed(&mut self) -> (r: Result<Fixed, Error>)
        ensures
            final(self).data@ == old(self).data@,
            old(self).pos + 4 <= old(self).data@.len() ==> final(self).pos == old(self).pos + 4,
            old(self).pos + 4 <= old(self).data@.len() ==> r == Ok::<Fixed, Error>(
                Fixed(sign32(be32v(old(self).data@, old(self).pos as int)) as i32),
            ),
            old(self).pos + 4 > old(self).data@.len() ==> final(self).pos == old(self).pos,
            old(self).pos + 4 > old(self).data@.len() ==> r == Err::<Fixed, Error>(
                Error::Malformed,
            ),
    {
        match self.read_i32() {
            Ok(v) => Ok(Fixed(v)),
            Err(e) => Err(e),
        }
    }
}

/// Appends a big-endian unsigned 16-bit integer to `out`.
pub fn push_u16_be(out: &mut Vec<u8>, v: u16)
    ensures
        final(out)@.len() == old(out)@.len() + 2,
        forall|i: int| 0 <= i < old(out)@.len() ==> final(out)@[i] == old(out)@[i],
        be16v(final(out)@, old(out)@.len() as int) == v,
{
    let hi: u8 = (v / 0x100) as u8;
    let lo: u8 = (v % 0x100) as u8;
    out.push(hi);
    out.push(lo);
}

/// Appends a big-endian unsigned 32-bit integer to `out`.
pub fn push_u32_be(out: &mut Vec<u8>, v: u32)
    ensures
        final(out)@.len() == old(out)@.len() + 4,
        forall|i: int| 0 <= i < old(out)@.len() ==> final(out)@[i] == old(out)@[i],
        be32v(final(out)@, old(out)@.len() as int) == v,
{
    let hi: u16 = (v / 0x10000) as u16;
    let lo: u16 = (v % 0x10000) as u16;
    push_u16_be(out, hi);
    push_u16_be(out, lo);
}

/// Appends a big-endian unsigned 64-bit integer to `out`.
pub fn push_u64_be(out: &mut Vec<u8>, v: u64)
    ensures
        final(out)@.len() == old(out)@.len() + 8,
        forall|i: int| 0 <= i < old(out)@.len() ==> final(out)@[i] == old(out)@[i],
        be64v(final(out)@, old(out)@.len() as int) == v,
{
    let hi: u32 = (v / 0x100000000) as u32;
    let lo: u32 = (v % 0x100000000) as u32;
    push_u32_be(out, hi);
    push_u32_be(out, lo);
}

/// The 16-bit two's-complement storage image of a signed value.
pub fn i16_image(v: i16) -> (r: u16)
    ensures
        r == uns16(v as int),
{
    if v >= 0 {
        v as u16
    } else {
        ((v as i32) + 0x10000) as u16
    }
}

/// The 32-bit two's-complement storage image of a signed value.
pub fn i32_image(v: i32) -> (r: u32)
    ensures
        r == uns32(v as int),
{
    if v >= 0 {
        v as u32
    } else {
        ((v as i64) + 0x100000000) as u32
    }
}

/// The 64-bit two's-complement storage image of a signed value.
pub fn i64_image(v: i64) -> (r: u64)
    ensures
        r == uns64(v as int),
{
    if v >= 0 {
        v as u64
    } else {
        ((v + 0x7FFFFFFFFFFFFFFF) + 1) as u64 + 0x8000000000000000
    }
}

} // verus!
