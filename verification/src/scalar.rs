//! Real-valued quantities as they travel through the controller.

use vstd::prelude::*;

verus! {

/// A real-valued quantity (an angle, a rate, a torque, an acceleration) in
/// IEEE 754 double precision, held by its 64-bit pattern.
///
/// The controller never does arithmetic on telemetry or targets: it moves
/// them between the sensors, the policy and the actuators. Holding the bit
/// pattern makes that transport exact, and equality of two scalars is
/// equality of their bits.
#[derive(Debug, Clone, Copy, PartialEq, Eq, Structural, Hash)]
pub struct Scalar {
    pub bits: u64,
}

/// Bit pattern of zero.
pub const ZERO_BITS: u64 = 0x0000_0000_0000_0000;

/// Bit pattern of twenty.
pub const TWENTY_BITS: u64 = 0x4034_0000_0000_0000;

/// Bit pattern of thirty.
pub const THIRTY_BITS: u64 = 0x403E_0000_0000_0000;

/// Bit pattern of ninety.
pub const NINETY_BITS: u64 = 0x4056_8000_0000_0000;

/// Bit pattern of one hundred and eighty.
pub const HALF_TURN_BITS: u64 = 0x4066_8000_0000_0000;

/// Bit pattern of minus ten.
pub const MINUS_TEN_BITS: u64 = 0xC024_0000_0000_0000;

/// Bit pattern of minus twenty.
pub const MINUS_TWENTY_BITS: u64 = 0xC034_0000_0000_0000;

/// Bit pattern of minus ninety.
pub const MINUS_NINETY_BITS: u64 = 0xC056_8000_0000_0000;

/// Bit pattern of six tenths, rounded to nearest.
pub const SIX_TENTHS_BITS: u64 = 0x3FE3_3333_3333_3333;

impl Scalar {
    /// The scalar with the given bit pattern.
    pub fn from_bits(bits: u64) -> (s: Scalar)
        ensures
            s.bits == bits,
    {
        Scalar { bits }
    }

    /// The bit pattern of the scalar.
    pub fn to_bits(self) -> (bits: u64)
        ensures
            bits == self.bits,
    {
        self.bits
    }

    /// Positive zero.
    pub fn zero() -> (s: Scalar)
        ensures
            s == Scalar::spec_zero(),
    {
        Scalar { bits: ZERO_BITS }
    }

    /// Positive zero.
    pub open spec fn spec_zero() -> Scalar {
        Scalar { bits: 0 }
    }
}

/// A vector of three scalars.
#[derive(Debug, Clone, Copy, PartialEq, Eq, Structural, Hash)]
pub struct Triple {
    pub x: Scalar,
    pub y: Scalar,
    pub z: Scalar,
}

} // verus!
