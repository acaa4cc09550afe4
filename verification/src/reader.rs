//! The primitive accessor contract: byte-addressed, little-endian reads
//! over a decoded buffer. Every generation-specific layout exposes its
//! fields through these reads alone, and a read past the end of the buffer
//! yields the default value instead of failing.

use vstd::prelude::*;
use vstd::slice::slice_index_get;

verus! {

/// The byte at `o`, or zero when `o` is out of bounds.
pub open spec fn spec_default_read_u8(b: Seq<u8>, o: int) -> u8 {
    if 0 <= o && o + 1 <= b.len() {
        b[o]
    } else {
        0
    }
}

/// The little-endian 16-bit value at `o`, or zero when it would run past
/// the end of the buffer.
pub open spec fn spec_default_read_u16(b: Seq<u8>, o: int) -> u16 {
    if 0 <= o && o + 2 <= b.len() {
        (b[o] as u16) | ((b[o + 1] as u16) << 8)
    } else {
        0
    }
}

/// The little-endian 32-bit value at `o`, or zero when it would run past
/// the end of the buffer.
pub open spec fn spec_default_read_u32(b: Seq<u8>, o: int) -> u32 {
    if 0 <= o && o + 4 <= b.len() {
        (b[o] as u32) | ((b[o + 1] as u32) << 8) | ((b[o + 2] as u32) << 16) | ((b[o + 3]
            as u32) << 24)
    } else {
        0
    }
}

/// A whole-word 32-bit read as a transmute-style access performs it: it
/// succeeds only at four-byte-aligned offsets and yields the default value
/// elsewhere.
pub open spec fn spec_default_read_u32_aligned(b: Seq<u8>, o: int) -> u32 {
    if o % 4 == 0 {
        spec_default_read_u32(b, o)
    } else {
        0
    }
}

/// Reads the byte at `offset`, or zero past the end.
pub fn read_u8_at(s: &[u8], offset: usize) -> (r: u8)
    ensures
        r == spec_default_read_u8(s@, offset as int),
{
    if offset < s.len() {
        *slice_index_get(s, offset)
    } else {
        0
    }
}

/// Reads the little-endian 16-bit value at `offset`, or zero past the end.
pub fn read_u16_at(s: &[u8], offset: usize) -> (r: u16)
    ensures
        r == spec_default_read_u16(s@, offset as int),
{
    if offset < s.len() && s.len() - offset >= 2 {
        let b0 = *slice_index_get(s, offset) as u16;
        let b1 = *slice_index_get(s, offset + 1) as u16;
        b0 | (b1 << 8)
    } else {
        0
    }
}

/// Reads the little-endian 32-bit value at `offset`, or zero past the end.
pub fn read_u32_at(s: &[u8], offset: usize) -> (r: u32)
    ensures
        r == spec_default_read_u32(s@, offset as int),
{
    if offset < s.len() && s.len() - offset >= 4 {
        let b0 = *slice_index_get(s, offset) as u32;
        let b1 = *slice_index_get(s, offset + 1) as u32;
        let b2 = *slice_index_get(s, offset + 2) as u32;
        let b3 = *slice_index_get(s, offset + 3) as u32;
        b0 | (b1 << 8) | (b2 << 16) | (b3 << 24)
    } else {
        0
    }
}

/// Byte-addressed reads over a decoded buffer. `buf` is the buffer as the
/// contracts see it; `get_slice` hands it out, and the defaulted reads are
/// shared by every implementor.
pub trait Reader {
    /// The decoded buffer the reads are served from.
    spec fn buf(&self) -> Seq<u8>;

    /// The decoded buffer as a byte slice.
    fn get_slice(&self) -> (r: &[u8])
        ensures
            r@ == self.buf(),
    ;

    /// The byte at `offset`, or zero past the end.
    fn default_read_u8(&self, offset: usize) -> (r: u8)
        ensures
            r == spec_default_read_u8(self.buf(), offset as int),
    {
        read_u8_at(self.get_slice(), offset)
    }

    /// The little-endian 16-bit value at `offset`, or zero past the end.
    fn default_read_u16(&self, offset: usize) -> (r: u16)
        ensures
            r == spec_default_read_u16(self.buf(), offset as int),
    {
        read_u16_at(self.get_slice(), offset)
    }

    /// The little-endian 32-bit value at `offset`, or zero past the end.
    fn default_read_u32(&self, offset: usize) -> (r: u32)
        ensures
            r == spec_default_read_u32(self.buf(), offset as int),
    {
        read_u32_at(self.get_slice(), offset)
    }

    /// A whole-word 32-bit read, as a transmute-style access performs it:
    /// the value only at four-byte-aligned offsets, the default elsewhere.
    fn default_read_u32_aligned(&self, offset: usize) -> (r: u32)
        ensures
            r == spec_default_read_u32_aligned(self.buf(), offset as int),
    {
        if offset % 4 == 0 {
            self.default_read_u32(offset)
        } else {
            0
        }
    }
}

} // verus!
