//! Bounds-checked little-endian reads over an untrusted byte buffer.
//!
//! Every reader takes an arbitrary offset and answers `None` rather than
//! touching a byte outside the buffer.

use vstd::prelude::*;

verus! {

/// The 16-bit little-endian value stored at `off`.
pub open spec fn le_u16(b: Seq<u8>, off: int) -> int {
    b[off] as int + 0x100 * (b[off + 1] as int)
}

/// The 32-bit little-endian value stored at `off`.
pub open spec fn le_u32(b: Seq<u8>, off: int) -> int {
    le_u16(b, off) + 0x1_0000 * le_u16(b, off + 2)
}

/// The 64-bit little-endian value stored at `off`.
pub open spec fn le_u64(b: Seq<u8>, off: int) -> int {
    le_u32(b, off) + 0x1_0000_0000 * le_u32(b, off + 4)
}

/// Whether `n` bytes can be read at `off` without leaving the buffer.
pub open spec fn in_bounds(b: Seq<u8>, off: int, n: int) -> bool {
    0 <= off && off + n <= b.len()
}

/// Whether the `n` bytes at `off` are all zero.
pub open spec fn all_zero(b: Seq<u8>, off: int, n: int) -> bool {
    forall|i: int| off <= i < off + n ==> b[i] == 0
}

/// The end of the byte run that starts at `off`: the position of the first
/// zero byte at or after `off`, or the end of the buffer when there is none.
pub open spec fn nul_end(b: Seq<u8>, off: int) -> int
    decreases b.len() - off,
{
    if off < 0 || off >= b.len() {
        off
    } else if b[off] == 0 {
        off
    } else {
        nul_end(b, off + 1)
    }
}

/// The bytes of the zero-terminated run that starts at `off`, without the
/// terminator. The run ends at the end of the buffer when no zero follows,
/// and is empty when `off` is no position of the buffer.
pub open spec fn nul_run(b: Seq<u8>, off: int) -> Seq<u8> {
    if 0 <= off <= b.len() {
        b.subrange(off, nul_end(b, off))
    } else {
        Seq::empty()
    }
}

/// `nul_end` stops inside the buffer, on the first zero byte if there is one.
pub proof fn lemma_nul_end(b: Seq<u8>, off: int)
    requires
        0 <= off <= b.len(),
    ensures
        off <= nul_end(b, off) <= b.len(),
        forall|i: int| off <= i < nul_end(b, off) ==> b[i] != 0,
        nul_end(b, off) < b.len() ==> b[nul_end(b, off)] == 0,
    decreases b.len() - off,
{
    if off < b.len() && b[off] != 0 {
        lemma_nul_end(b, off + 1);
    }
}

/// Reads a 16-bit little-endian value, or `None` when it does not fit in the buffer.
pub fn read_u16(b: &[u8], off: usize) -> (r: Option<u16>)
    ensures
        r is Some <==> in_bounds(b@, off as int, 2),
        r matches Some(v) ==> v as int == le_u16(b@, off as int),
{
    if b.len() < 2 || off > b.len() - 2 {
        return None;
    }
    let lo: u16 = b[off] as u16;
    let hi: u16 = b[off + 1] as u16;
    Some(lo + 0x100 * hi)
}

/// Reads a 32-bit little-endian value, or `None` when it does not fit in the buffer.
pub fn read_u32(b: &[u8], off: usize) -> (r: Option<u32>)
    ensures
        r is Some <==> in_bounds(b@, off as int, 4),
        r matches Some(v) ==> v as int == le_u32(b@, off as int),
{
    if b.len() < 4 || off > b.len() - 4 {
        return None;
    }
    let b0: u32 = b[off] as u32;
    let b1: u32 = b[off + 1] as u32;
    let b2: u32 = b[off + 2] as u32;
    let b3: u32 = b[off + 3] as u32;
    Some(b0 + 0x100 * b1 + 0x1_0000 * b2 + 0x100_0000 * b3)
}

/// Reads a 64-bit little-endian value, or `None` when it does not fit in the buffer.
pub fn read_u64(b: &[u8], off: usize) -> (r: Option<u64>)
    ensures
        r is Some <==> in_bounds(b@, off as int, 8),
        r matches Some(v) ==> v as int == le_u64(b@, off as int),
{
    if b.len() < 8 || off > b.len() - 8 {
        return None;
    }
    let lo = read_u32(b, off);
    let hi = read_u32(b, off + 4);
    match (lo, hi) {
        (Some(l), Some(h)) => Some(l as u64 + 0x1_0000_0000 * (h as u64)),
        _ => None,
    }
}

/// Tells whether the `n` bytes at `off` lie in the buffer and are all zero.
pub fn is_zero_block(b: &[u8], off: usize, n: usize) -> (r: bool)
    ensures
        r == (in_bounds(b@, off as int, n as int) && all_zero(b@, off as int, n as int)),
{
    let len: usize = b.len();
    if n > len || off > len - n {
        return false;
    }
    let mut i: usize = 0;
    while i < n
        invariant
            i <= n,
            off + n <= len == b@.len(),
            all_zero(b@, off as int, i as int),
        decreases n - i,
    {
        if b[off + i] != 0 {
            return false;
        }
        i = i + 1;
    }
    true
}

/// Finds where the zero-terminated run that starts at `off` ends. An offset
/// at or past the end of the buffer is its own end.
pub fn find_nul(b: &[u8], off: usize) -> (end: usize)
    ensures
        end as int == nul_end(b@, off as int),
        off <= b@.len() ==> off <= end <= b@.len(),
{
    if off >= b.len() {
        return off;
    }
    let mut i: usize = off;
    while i < b.len() && b[i] != 0
        invariant
            off <= i <= b@.len(),
            nul_end(b@, off as int) == nul_end(b@, i as int),
        decreases b@.len() - i,
    {
        i = i + 1;
    }
    i
}

} // verus!
