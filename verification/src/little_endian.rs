//! Fixed-width unsigned integers stored least significant byte first.

use vstd::prelude::*;

verus! {

/// The value of the two bytes of `s` that start at `at`.
pub open spec fn le_u16(s: Seq<u8>, at: int) -> nat {
    (s[at] as nat) + 0x100 * (s[at + 1] as nat)
}

/// The value of the four bytes of `s` that start at `at`.
pub open spec fn le_u32(s: Seq<u8>, at: int) -> nat {
    le_u16(s, at) + 0x1_0000 * le_u16(s, at + 2)
}

/// The value of the eight bytes of `s` that start at `at`.
pub open spec fn le_u64(s: Seq<u8>, at: int) -> nat {
    le_u32(s, at) + 0x1_0000_0000 * le_u32(s, at + 4)
}

/// A field's value fits its width, and the bytes that come first hold its
/// low part: the first two bytes of a 32-bit field are its low 16 bits, the
/// first four bytes of a 64-bit field its low 32 bits.
pub proof fn lemma_le_low_part_first(s: Seq<u8>, at: int)
    ensures
        le_u16(s, at) <= u16::MAX,
        le_u32(s, at) <= u32::MAX,
        le_u64(s, at) <= u64::MAX,
        le_u16(s, at) % 0x100 == s[at],
        le_u32(s, at) % 0x1_0000 == le_u16(s, at),
        le_u64(s, at) % 0x1_0000_0000 == le_u32(s, at),
{
}

/// Reads the 16-bit field at offset `at`.
pub fn read_u16(bytes: &[u8], at: usize) -> (value: u16)
    requires
        at + 2 <= bytes.len(),
    ensures
        value == le_u16(bytes@, at as int),
{
    let low: u16 = bytes[at] as u16;
    let high: u16 = bytes[at + 1] as u16;
    low + 0x100 * high
}

/// Reads the 32-bit field at offset `at`.
pub fn read_u32(bytes: &[u8], at: usize) -> (value: u32)
    requires
        at + 4 <= bytes.len(),
    ensures
        value == le_u32(bytes@, at as int),
{
    let low: u32 = read_u16(bytes, at) as u32;
    let high: u32 = read_u16(bytes, at + 2) as u32;
    low + 0x1_0000 * high
}

/// Reads the 64-bit field at offset `at`.
pub fn read_u64(bytes: &[u8], at: usize) -> (value: u64)
    requires
        at + 8 <= bytes.len(),
    ensures
        value == le_u64(bytes@, at as int),
{
    let low: u64 = read_u32(bytes, at) as u64;
    let high: u64 = read_u32(bytes, at + 4) as u64;
    low + 0x1_0000_0000 * high
}

} // verus!
