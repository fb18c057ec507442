//! Single-precision floating-point numbers as bit patterns.
//!
//! The user interface and the GL measure and colour in floating point. The
//! library carries such numbers by their bits and, where it has to compute
//! with them, does so exactly on sign, exponent and significand.

use vstd::prelude::*;

verus! {

/// A number in the IEEE 754 binary32 format, held by its bits.
#[derive(Clone, Copy, Debug, PartialEq, Eq, Structural)]
pub struct Binary32 {
    pub bits: u32,
}

impl Binary32 {
    /// The sign bit is set.
    pub open spec fn is_negative(self) -> bool {
        self.bits >= 0x8000_0000
    }

    /// The eight bits of the exponent field.
    pub open spec fn exponent_field(self) -> u32 {
        (self.bits / 0x80_0000) % 0x100
    }

    /// The twenty-three bits of the fraction field.
    pub open spec fn fraction_field(self) -> u32 {
        self.bits % 0x80_0000
    }

    pub open spec fn is_nan(self) -> bool {
        self.exponent_field() == 255 && self.fraction_field() != 0
    }

    pub open spec fn is_infinite(self) -> bool {
        self.exponent_field() == 255 && self.fraction_field() == 0
    }

    pub open spec fn is_finite(self) -> bool {
        self.exponent_field() != 255
    }

    /// The significand of a finite number as a whole number: the magnitude
    /// of the number is `significand() * 2^exponent()`.
    pub open spec fn significand(self) -> nat {
        if self.exponent_field() == 0 {
            self.fraction_field() as nat
        } else {
            (0x80_0000 + self.fraction_field()) as nat
        }
    }

    /// The power of two that scales the significand of a finite number.
    pub open spec fn exponent(self) -> int {
        if self.exponent_field() == 0 {
            -149
        } else {
            self.exponent_field() - 150
        }
    }

    /// Plus or minus zero.
    pub open spec fn is_zero(self) -> bool {
        self.is_finite() && self.significand() == 0
    }

    /// Finite and greater than zero.
    pub open spec fn is_positive(self) -> bool {
        self.is_finite() && !self.is_negative() && self.significand() > 0
    }

    pub fn from_bits(bits: u32) -> (number: Binary32)
        ensures
            number.bits == bits,
    {
        Binary32 { bits }
    }

    pub(crate) fn sign_bit(self) -> (negative: bool)
        ensures
            negative == self.is_negative(),
    {
        let bits = self.bits;
        assert(((bits >> 31) == 1) == (bits >= 0x8000_0000u32)) by (bit_vector);
        (bits >> 31) == 1
    }

    pub(crate) fn exponent_bits(self) -> (field: u32)
        ensures
            field == self.exponent_field(),
            field <= 255,
    {
        let bits = self.bits;
        assert((bits >> 23) & 0xff == (bits / 0x80_0000) % 0x100) by (bit_vector);
        (bits >> 23) & 0xff
    }

    pub(crate) fn fraction_bits(self) -> (field: u32)
        ensures
            field == self.fraction_field(),
            field < 0x80_0000,
    {
        let bits = self.bits;
        assert(bits & 0x7f_ffff == bits % 0x80_0000) by (bit_vector);
        bits & 0x7f_ffff
    }
}

} // verus!
