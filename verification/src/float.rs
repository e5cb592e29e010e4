//! Bit-level views of the architecture's extended floating formats. Only
//! the packing is modeled — sign, exponent field and fraction bits of the
//! sixteen-byte and eight-byte formats; no floating arithmetic is
//! performed.

use vstd::prelude::*;

verus! {

/// A sixteen-byte floating value, held as its raw bit image.
#[derive(Copy, Clone, Debug, PartialEq, Eq, Structural)]
pub struct HFloat(pub u128);

impl HFloat {
    pub open spec fn mantissa_spec(self) -> u8 {
        ((self.0 % 0x100) as u8) & 0x7F
    }

    /// The low seven bits of the least significant byte.
    pub fn mantissa(self) -> (r: u8)
        ensures
            r == self.mantissa_spec(),
    {
        ((self.0 % 0x100) as u8) & 0x7F
    }

    pub open spec fn fractional_spec(self) -> u128 {
        self.0 & (0x00FF_FFFF_FFFF_FFFF_FFFF_FFFF_FFFF_FFFFu128 >> 8)
    }

    /// The fraction bits.
    pub fn fractional(self) -> (r: u128)
        ensures
            r == self.fractional_spec(),
    {
        self.0 & (0x00FF_FFFF_FFFF_FFFF_FFFF_FFFF_FFFF_FFFF >> 8)
    }

    pub open spec fn sign_spec(self) -> bool {
        self.0 & 0x8000_0000_0000_0000_0000_0000_0000_0000u128 != 0
    }

    /// The sign bit.
    pub fn sign(self) -> (r: bool)
        ensures
            r == self.sign_spec(),
    {
        self.0 & 0x8000_0000_0000_0000_0000_0000_0000_0000 != 0
    }

    /// Whether the value is finite: an all-ones exponent field marks the
    /// non-finite encodings.
    pub fn finite(self) -> (r: bool)
        ensures
            r == (self.mantissa_spec() != 0x7F),
    {
        self.mantissa() != 0x7F
    }

    /// The same value with its sign bit flipped.
    pub fn negated(self) -> (r: HFloat)
        ensures
            r.0 == self.0 ^ 0x8000_0000_0000_0000_0000_0000_0000_0000u128,
    {
        HFloat(self.0 ^ 0x8000_0000_0000_0000_0000_0000_0000_0000)
    }
}

/// An eight-byte floating value, held as its raw bit image.
#[derive(Copy, Clone, Debug, PartialEq, Eq, Structural)]
pub struct DFloat(pub u64);

impl DFloat {
    pub open spec fn mantissa_spec(self) -> u8 {
        ((self.0 % 0x100) as u8) & 0x7F
    }

    /// The low seven bits of the least significant byte.
    pub fn mantissa(self) -> (r: u8)
        ensures
            r == self.mantissa_spec(),
    {
        ((self.0 % 0x100) as u8) & 0x7F
    }

    pub open spec fn fractional_spec(self) -> u64 {
        self.0 & 0x00FF_FFFF_FFFF_FFFFu64
    }

    /// The fraction bits.
    pub fn fractional(self) -> (r: u64)
        ensures
            r == self.fractional_spec(),
    {
        self.0 & 0x00FF_FFFF_FFFF_FFFF
    }

    pub open spec fn sign_spec(self) -> bool {
        self.0 & 0x8000_0000_0000_0000u64 != 0
    }

    /// The sign bit.
    pub fn sign(self) -> (r: bool)
        ensures
            r == self.sign_spec(),
    {
        self.0 & 0x8000_0000_0000_0000 != 0
    }

    /// Whether the value is finite: an all-ones exponent field marks the
    /// non-finite encodings.
    pub fn finite(self) -> (r: bool)
        ensures
            r == (self.mantissa_spec() != 0x7F),
    {
        self.mantissa() != 0x7F
    }

    /// The same value with its sign bit flipped.
    pub fn negated(self) -> (r: DFloat)
        ensures
            r.0 == self.0 ^ 0x8000_0000_0000_0000u64,
    {
        DFloat(self.0 ^ 0x8000_0000_0000_0000)
    }
}

} // verus!
