//! Fixed-width integers read out of byte buffers.

use vstd::prelude::*;

verus! {

/// The little-endian 16-bit value stored at `off` and `off + 1`.
pub open spec fn le16(b: Seq<u8>, off: int) -> u16 {
    (b[off] as int + 256 * (b[off + 1] as int)) as u16
}

/// The big-endian 16-bit value stored at `off` and `off + 1`.
pub open spec fn be16(b: Seq<u8>, off: int) -> u16 {
    (256 * (b[off] as int) + b[off + 1] as int) as u16
}

/// Reads a little-endian 16-bit value.
pub fn read_le16(b: &[u8], off: usize) -> (r: u16)
    requires
        off + 2 <= b@.len(),
    ensures
        r == le16(b@, off as int),
{
    let lo: u16 = b[off] as u16;
    let hi: u16 = b[off + 1] as u16;
    lo + hi * 256
}

/// Reads a big-endian 16-bit value.
pub fn read_be16(b: &[u8], off: usize) -> (r: u16)
    requires
        off + 2 <= b@.len(),
    ensures
        r == be16(b@, off as int),
{
    let hi: u16 = b[off] as u16;
    let lo: u16 = b[off + 1] as u16;
    hi * 256 + lo
}

/// Copies `len` bytes starting at `start`.
pub fn copy_range(b: &[u8], start: usize, len: usize) -> (r: Vec<u8>)
    requires
        start + len <= b@.len(),
    ensures
        r@ == b@.subrange(start as int, start + len),
{
    let n: usize = b.len();
    let mut r: Vec<u8> = Vec::with_capacity(len);
    let mut i: usize = 0;
    while i < len
        invariant
            i <= len,
            start + len <= b@.len(),
            b@.len() == n,
            r@ == b@.subrange(start as int, start + i),
        decreases len - i,
    {
        r.push(b[start + i]);
        i = i + 1;
        assert(r@ =~= b@.subrange(start as int, start + i));
    }
    r
}

} // verus!
