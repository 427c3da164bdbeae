//! Fixed-width integer readers over byte sequences, in both byte orders.
//!
//! JPEG and PNG structures are big-endian; a TIFF (EXIF) block declares its
//! own byte order in its header.

use vstd::prelude::*;

verus! {

/// The big-endian 16-bit value at offset `p`.
pub open spec fn be16(b: Seq<u8>, p: int) -> int {
    b[p] * 256 + b[p + 1]
}

/// The big-endian 32-bit value at offset `p`.
pub open spec fn be32(b: Seq<u8>, p: int) -> int {
    b[p] * 16777216 + b[p + 1] * 65536 + b[p + 2] * 256 + b[p + 3]
}

/// The 16-bit value at offset `p`, little-endian when `le`.
pub open spec fn rd16(b: Seq<u8>, le: bool, p: int) -> int {
    if le {
        b[p] + b[p + 1] * 256
    } else {
        be16(b, p)
    }
}

/// The 32-bit value at offset `p`, little-endian when `le`.
pub open spec fn rd32(b: Seq<u8>, le: bool, p: int) -> int {
    if le {
        b[p] + b[p + 1] * 256 + b[p + 2] * 65536 + b[p + 3] * 16777216
    } else {
        be32(b, p)
    }
}

/// Reads the big-endian 16-bit value at offset `p`.
pub fn read_be16(b: &Vec<u8>, p: usize) -> (r: u16)
    requires
        p + 2 <= b.len(),
    ensures
        r == be16(b@, p as int),
{
    (b[p] as u16) * 256 + (b[p + 1] as u16)
}

/// Reads the big-endian 32-bit value at offset `p`.
pub fn read_be32(b: &Vec<u8>, p: usize) -> (r: u32)
    requires
        p + 4 <= b.len(),
    ensures
        r == be32(b@, p as int),
{
    (b[p] as u32) * 16777216 + (b[p + 1] as u32) * 65536 + (b[p + 2] as u32) * 256 + (b[p
        + 3] as u32)
}

/// Reads the 16-bit value at offset `p` in the declared byte order.
pub fn read_u16(b: &Vec<u8>, le: bool, p: usize) -> (r: u16)
    requires
        p + 2 <= b.len(),
    ensures
        r == rd16(b@, le, p as int),
{
    if le {
        (b[p] as u16) + (b[p + 1] as u16) * 256
    } else {
        read_be16(b, p)
    }
}

/// Reads the 32-bit value at offset `p` in the declared byte order.
pub fn read_u32(b: &Vec<u8>, le: bool, p: usize) -> (r: u32)
    requires
        p + 4 <= b.len(),
    ensures
        r == rd32(b@, le, p as int),
{
    if le {
        (b[p] as u32) + (b[p + 1] as u32) * 256 + (b[p + 2] as u32) * 65536 + (b[p
            + 3] as u32) * 16777216
    } else {
        read_be32(b, p)
    }
}

} // verus!
