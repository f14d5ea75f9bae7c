//! Endian-aware reads of fixed-width integers out of a byte buffer.
use vstd::prelude::*;

verus! {

/// Byte order of every multi-byte integer in one file.
#[derive(Clone, Copy, Debug, PartialEq, Eq, Structural)]
pub enum Endian {
    Little,
    Big,
}

/// Value of two bytes in the given order.
pub open spec fn u16_of(b: Seq<u8>, at: int, e: Endian) -> u16 {
    match e {
        Endian::Little => (b[at] as int + b[at + 1] as int * 256) as u16,
        Endian::Big => (b[at + 1] as int + b[at] as int * 256) as u16,
    }
}

/// Value of four bytes in the given order.
pub open spec fn u32_of(b: Seq<u8>, at: int, e: Endian) -> u32 {
    match e {
        Endian::Little => (b[at] as int + b[at + 1] as int * 256 + b[at + 2] as int * 65536
            + b[at + 3] as int * 16777216) as u32,
        Endian::Big => (b[at + 3] as int + b[at + 2] as int * 256 + b[at + 1] as int * 65536
            + b[at] as int * 16777216) as u32,
    }
}

/// Whether `len` bytes starting at `at` lie inside a buffer of `n` bytes.
pub open spec fn in_bounds(n: int, at: int, len: int) -> bool {
    0 <= at && 0 <= len && at + len <= n
}

/// Reads one byte; `None` when `at` is past the end.
pub fn read_u8(b: &[u8], at: usize) -> (r: Option<u8>)
    ensures
        r == (if in_bounds(b@.len() as int, at as int, 1) { Some(b@[at as int]) } else { None::<u8> }),
{
    if at < b.len() {
        Some(b[at])
    } else {
        None
    }
}

/// Reads a 16-bit integer; `None` when the two bytes do not fit.
pub fn read_u16(b: &[u8], at: usize, e: Endian) -> (r: Option<u16>)
    ensures
        r == (if in_bounds(b@.len() as int, at as int, 2) { Some(u16_of(b@, at as int, e)) } else { None::<u16> }),
{
    if at >= b.len() || b.len() - at < 2 {
        return None;
    }
    let (lo, hi) = match e {
        Endian::Little => (b[at], b[at + 1]),
        Endian::Big => (b[at + 1], b[at]),
    };
    let v: u16 = lo as u16 + hi as u16 * 256;
    Some(v)
}

/// Reads a 32-bit integer; `None` when the four bytes do not fit.
pub fn read_u32(b: &[u8], at: usize, e: Endian) -> (r: Option<u32>)
    ensures
        r == (if in_bounds(b@.len() as int, at as int, 4) { Some(u32_of(b@, at as int, e)) } else { None::<u32> }),
{
    if at >= b.len() || b.len() - at < 4 {
        return None;
    }
    let (b0, b1, b2, b3) = match e {
        Endian::Little => (b[at], b[at + 1], b[at + 2], b[at + 3]),
        Endian::Big => (b[at + 3], b[at + 2], b[at + 1], b[at]),
    };
    let v: u32 = b0 as u32 + b1 as u32 * 256 + b2 as u32 * 65536 + b3 as u32 * 16777216;
    Some(v)
}

} // verus!
