//! Amounts of money as the store holds them.
//!
//! An amount or a balance is a double-precision number without a currency.
//! The crate carries it by its IEEE 754 bit pattern, which loses nothing, and
//! reads of it only what its rules ask: whether it lies below zero.

use vstd::prelude::*;

verus! {

/// A double-precision number, held by its IEEE 754 bit pattern.
#[derive(Clone, Copy, Debug, PartialEq, Eq, Structural)]
pub struct Amount {
    pub bits: u64,
}

/// Bit pattern of negative zero: the sign bit alone.
pub const SIGN_BIT: u64 = 0x8000_0000_0000_0000;

/// Bit pattern of negative infinity, the least of all numbers.
pub const NEGATIVE_INFINITY_BITS: u64 = 0xFFF0_0000_0000_0000;

impl Amount {
    /// The sign bit: set for what lies below zero, and for negative zero.
    pub open spec fn sign(self) -> bool {
        self.bits >> 63 == 1
    }

    /// The eleven bits of the exponent.
    pub open spec fn exponent(self) -> u64 {
        (self.bits >> 52) & 0x7FF
    }

    /// The fifty-two bits of the fraction.
    pub open spec fn fraction(self) -> u64 {
        self.bits & 0xF_FFFF_FFFF_FFFF
    }

    /// Not a number: the exponent all ones and a fraction that is not zero.
    pub open spec fn is_nan(self) -> bool {
        self.exponent() == 0x7FF && self.fraction() != 0
    }

    /// Zero of either sign.
    pub open spec fn is_zero(self) -> bool {
        self.exponent() == 0 && self.fraction() == 0
    }

    /// The number compares below zero: it is a number, it is not zero, and
    /// its sign bit is set.
    pub open spec fn negative(self) -> bool {
        self.sign() && !self.is_nan() && !self.is_zero()
    }

    /// The number with the given bit pattern.
    pub fn from_bits(bits: u64) -> (amount: Amount)
        ensures
            amount.bits == bits,
    {
        Amount { bits }
    }

    /// The bit pattern of the number.
    pub fn to_bits(self) -> (bits: u64)
        ensures
            bits == self.bits,
    {
        self.bits
    }

    /// Whether the number compares below zero. Negative zero and what is
    /// not a number do not.
    pub fn is_negative(self) -> (below: bool)
        ensures
            below == self.negative(),
    {
        let bits = self.bits;
        assert((SIGN_BIT < bits && bits <= NEGATIVE_INFINITY_BITS) <==> (bits >> 63 == 1 && !((bits
            >> 52) & 0x7FF == 0x7FF && bits & 0xF_FFFF_FFFF_FFFF != 0) && !((bits >> 52) & 0x7FF
            == 0 && bits & 0xF_FFFF_FFFF_FFFF == 0))) by (bit_vector)
            requires
                SIGN_BIT == 0x8000_0000_0000_0000u64,
                NEGATIVE_INFINITY_BITS == 0xFFF0_0000_0000_0000u64,
        ;
        SIGN_BIT < bits && bits <= NEGATIVE_INFINITY_BITS
    }
}

} // verus!
