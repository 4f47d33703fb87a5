//! The scalar type of a plotted value.
//!
//! A plotted value is a binary64 floating-point number. The library never
//! computes with such numbers; it stores them, moves them and orders them.
//! It therefore holds each one as its 64-bit pattern and orders patterns the
//! way IEEE 754 orders the numbers they encode.

use vstd::prelude::*;

verus! {

/// The bit that holds the sign of a binary64 number.
pub const SIGN_BIT: u64 = 0x8000_0000_0000_0000;

/// The pattern of positive infinity. Every pattern whose magnitude is larger
/// encodes a NaN.
pub const INFINITY_BITS: u64 = 0x7FF0_0000_0000_0000;

/// The pattern of the largest finite number.
pub const MAX_BITS: u64 = 0x7FEF_FFFF_FFFF_FFFF;

/// The pattern of the smallest (most negative) finite number.
pub const MIN_BITS: u64 = 0xFFEF_FFFF_FFFF_FFFF;

/// A plotted scalar: a binary64 floating-point number held as its bit pattern.
#[derive(Clone, Copy, Debug)]
pub struct PlotType {
    pub bits: u64,
}

/// One sample of a series: its x and its y coordinate.
pub type Point = (PlotType, PlotType);

/// The binary64 number nearest to `n`, as its bit pattern. This is what the
/// conversion of the `num_traits` crate yields for an unsigned 64-bit integer.
pub uninterp spec fn nearest_binary64(n: u64) -> Option<u64>;

/// Calls `num_traits::ToPrimitive::to_f64` on a `u64` and hands back the bit
/// pattern of the number it returns. For this type the crate casts the integer
/// to binary64, which rounds and never fails: the contract names the pattern
/// and claims only that there is one.
#[verifier::external_body]
fn u64_to_binary64(n: u64) -> (r: Option<u64>)
    ensures
        r == nearest_binary64(n),
        r is Some,
{
    match num_traits::ToPrimitive::to_f64(&n) {
        Some(v) => Some(v.to_bits()),
        None => None,
    }
}

impl PlotType {
    /// The pattern without its sign bit.
    pub open spec fn magnitude(self) -> nat {
        (self.bits % SIGN_BIT) as nat
    }

    /// Whether the sign bit is set.
    pub open spec fn is_negative(self) -> bool {
        self.bits >= SIGN_BIT
    }

    /// Whether the pattern encodes a NaN.
    pub open spec fn nan(self) -> bool {
        self.magnitude() > INFINITY_BITS
    }

    /// The place of a number on the number line: numbers compare as their
    /// keys do. Both zeros have key 0. Meaningless for a NaN.
    pub open spec fn key(self) -> int {
        if self.is_negative() {
            -(self.magnitude() as int)
        } else {
            self.magnitude() as int
        }
    }

    /// IEEE 754 `<`: false whenever either side is a NaN.
    pub open spec fn lt(self, other: PlotType) -> bool {
        !self.nan() && !other.nan() && self.key() < other.key()
    }

    /// IEEE 754 `>`: false whenever either side is a NaN.
    pub open spec fn gt(self, other: PlotType) -> bool {
        other.lt(self)
    }

    /// The largest finite number.
    pub open spec fn max_value() -> PlotType {
        PlotType { bits: MAX_BITS }
    }

    /// The smallest finite number.
    pub open spec fn min_value() -> PlotType {
        PlotType { bits: MIN_BITS }
    }

    /// The value that the conversion of an iteration count is named by.
    pub open spec fn of_u64(n: u64) -> PlotType {
        PlotType { bits: nearest_binary64(n).unwrap() }
    }

    /// The value with the given bit pattern.
    pub fn from_bits(bits: u64) -> (r: PlotType)
        ensures
            r.bits == bits,
    {
        PlotType { bits }
    }

    /// The bit pattern of the value.
    pub fn to_bits(self) -> (r: u64)
        ensures
            r == self.bits,
    {
        self.bits
    }

    /// The largest finite number, the starting point of a minimum.
    pub fn max() -> (r: PlotType)
        ensures
            r == PlotType::max_value(),
    {
        PlotType { bits: MAX_BITS }
    }

    /// The smallest finite number, the starting point of a maximum.
    pub fn min() -> (r: PlotType)
        ensures
            r == PlotType::min_value(),
    {
        PlotType { bits: MIN_BITS }
    }

    /// Converts an unsigned integer to the nearest binary64 number.
    pub fn from_u64(n: u64) -> (r: PlotType)
        ensures
            r == PlotType::of_u64(n),
    {
        PlotType { bits: u64_to_binary64(n).unwrap() }
    }

    /// Whether the value is a NaN.
    pub fn is_nan(self) -> (r: bool)
        ensures
            r == self.nan(),
    {
        self.bits % SIGN_BIT > INFINITY_BITS
    }

    /// Whether `self < other` as numbers.
    pub fn less_than(self, other: PlotType) -> (r: bool)
        ensures
            r == self.lt(other),
    {
        if self.is_nan() || other.is_nan() {
            return false;
        }
        let a: u64 = self.bits % SIGN_BIT;
        let b: u64 = other.bits % SIGN_BIT;
        if self.bits >= SIGN_BIT {
            if other.bits >= SIGN_BIT {
                b < a
            } else {
                a != 0 || b != 0
            }
        } else {
            if other.bits >= SIGN_BIT {
                false
            } else {
                a < b
            }
        }
    }

    /// Whether `self > other` as numbers.
    pub fn greater_than(self, other: PlotType) -> (r: bool)
        ensures
            r == self.gt(other),
    {
        other.less_than(self)
    }
}

/// Two numbers with the same key have the same pattern, unless both are zero.
pub proof fn lemma_key_determines_bits(a: PlotType, b: PlotType)
    requires
        a.key() == b.key(),
        a.key() != 0,
    ensures
        a.bits == b.bits,
{
}

} // verus!
