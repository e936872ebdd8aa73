//! Fixed-width integers read out of byte sequences, big-endian for the
//! container header and little-endian for table entries and directory
//! records.
use vstd::prelude::*;

verus! {

/// A 16-bit big-endian value from two bytes.
pub open spec fn spec_u16_be(hi: u8, lo: u8) -> int {
    hi * 0x100 + lo
}

/// A 32-bit big-endian value from four bytes.
pub open spec fn spec_u32_be(b0: u8, b1: u8, b2: u8, b3: u8) -> int {
    b0 * 0x1000000 + b1 * 0x10000 + b2 * 0x100 + b3
}

/// A 16-bit little-endian value from two bytes.
pub open spec fn spec_u16_le(lo: u8, hi: u8) -> int {
    hi * 0x100 + lo
}

/// A 32-bit little-endian value from four bytes.
pub open spec fn spec_u32_le(b0: u8, b1: u8, b2: u8, b3: u8) -> int {
    b3 * 0x1000000 + b2 * 0x10000 + b1 * 0x100 + b0
}

pub fn u16_be(hi: u8, lo: u8) -> (r: u16)
    ensures
        r == spec_u16_be(hi, lo),
{
    (hi as u16) * 0x100 + (lo as u16)
}

pub fn u32_be(b0: u8, b1: u8, b2: u8, b3: u8) -> (r: u32)
    ensures
        r == spec_u32_be(b0, b1, b2, b3),
{
    (b0 as u32) * 0x1000000 + (b1 as u32) * 0x10000 + (b2 as u32) * 0x100 + (b3 as u32)
}

pub fn u16_le(lo: u8, hi: u8) -> (r: u16)
    ensures
        r == spec_u16_le(lo, hi),
{
    (hi as u16) * 0x100 + (lo as u16)
}

pub fn u32_le(b0: u8, b1: u8, b2: u8, b3: u8) -> (r: u32)
    ensures
        r == spec_u32_le(b0, b1, b2, b3),
{
    (b3 as u32) * 0x1000000 + (b2 as u32) * 0x10000 + (b1 as u32) * 0x100 + (b0 as u32)
}

} // verus!
