//! Big-endian and slice decoding helpers.
//!
//! All functions operate on borrowed byte slices and report a short input
//! with [`Error::UnexpectedEof`] rather than panicking.

use vstd::prelude::*;
use crate::error::{Error, Result};

verus! {

/// The unsigned integer that the bytes `s` encode in network (big-endian)
/// byte order.
pub open spec fn be_value(s: Seq<u8>) -> nat
    decreases s.len(),
{
    if s.len() == 0 {
        0
    } else {
        be_value(s.drop_last()) * 256 + s.last() as nat
    }
}

/// Big-endian value of two bytes.
pub open spec fn be_u16(s: Seq<u8>) -> int {
    s[0] * 256 + s[1]
}

/// Big-endian value of four bytes.
pub open spec fn be_u32(s: Seq<u8>) -> int {
    s[0] * 0x100_0000 + s[1] * 0x1_0000 + s[2] * 0x100 + s[3]
}

/// Read a big-endian `u16` from the start of `buf`.
pub fn read_u16(buf: &[u8]) -> (r: Result<u16>)
    ensures
        buf@.len() >= 2 ==> r == Ok::<u16, Error>(be_u16(buf@) as u16),
        buf@.len() < 2 ==> r == Err::<u16, Error>(Error::UnexpectedEof),
{
    if buf.len() < 2 {
        return Err(Error::UnexpectedEof);
    }
    let hi = buf[0] as u16;
    let lo = buf[1] as u16;
    Ok(hi * 256 + lo)
}

/// Read a big-endian `u32` from the start of `buf`.
pub fn read_u32(buf: &[u8]) -> (r: Result<u32>)
    ensures
        buf@.len() >= 4 ==> r == Ok::<u32, Error>(be_u32(buf@) as u32),
        buf@.len() < 4 ==> r == Err::<u32, Error>(Error::UnexpectedEof),
{
    if buf.len() < 4 {
        return Err(Error::UnexpectedEof);
    }
    let b0 = buf[0] as u32;
    let b1 = buf[1] as u32;
    let b2 = buf[2] as u32;
    let b3 = buf[3] as u32;
    Ok(b0 * 0x100_0000 + b1 * 0x1_0000 + b2 * 0x100 + b3)
}

/// Split `buf` into `(head, tail)` where `head` is exactly `n` bytes.
pub fn split(buf: &[u8], n: usize) -> (r: Result<(&[u8], &[u8])>)
    ensures
        n <= buf@.len() ==> (r matches Ok((head, tail)) && head@ == buf@.take(n as int)
            && tail@ == buf@.skip(n as int)),
        n > buf@.len() ==> r == Err::<(&[u8], &[u8]), Error>(Error::UnexpectedEof),
{
    if buf.len() >= n {
        let (head, tail) = buf.split_at(n);
        Ok((head, tail))
    } else {
        Err(Error::UnexpectedEof)
    }
}

} // verus!
