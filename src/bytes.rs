//! Little-endian integers read out of byte sequences.
use vstd::prelude::*;

verus! {

/// The value of two bytes taken as a little-endian unsigned integer.
pub open spec fn le16(b0: u8, b1: u8) -> nat {
    b0 as nat + 256 * b1 as nat
}

/// The value of four bytes taken as a little-endian unsigned integer.
pub open spec fn le32(b0: u8, b1: u8, b2: u8, b3: u8) -> nat {
    b0 as nat + 256 * (b1 as nat + 256 * (b2 as nat + 256 * b3 as nat))
}

/// The little-endian `u16` stored at `at` in `s`.
pub open spec fn u16_at(s: Seq<u8>, at: int) -> u16 {
    le16(s[at], s[at + 1]) as u16
}

/// The little-endian `u32` stored at `at` in `s`.
pub open spec fn u32_at(s: Seq<u8>, at: int) -> u32 {
    le32(s[at], s[at + 1], s[at + 2], s[at + 3]) as u32
}

/// Packs four bytes, first byte lowest, into a `u32`: the form in which a
/// four-character chunk tag is compared.
pub fn tag_of(b0: u8, b1: u8, b2: u8, b3: u8) -> (r: u32)
    ensures
        r as nat == le32(b0, b1, b2, b3),
{
    b0 as u32 + 256 * (b1 as u32 + 256 * (b2 as u32 + 256 * b3 as u32))
}

/// Reads a little-endian `u16` at `at`.
pub fn read_u16_at(data: &[u8], at: usize) -> (r: u16)
    requires
        at + 2 <= data@.len(),
    ensures
        r == u16_at(data@, at as int),
{
    let b0 = data[at];
    let b1 = data[at + 1];
    b0 as u16 + 256 * b1 as u16
}

/// Reads a little-endian `u32` at `at`.
pub fn read_u32_at(data: &[u8], at: usize) -> (r: u32)
    requires
        at + 4 <= data@.len(),
    ensures
        r == u32_at(data@, at as int),
{
    tag_of(data[at], data[at + 1], data[at + 2], data[at + 3])
}

} // verus!
