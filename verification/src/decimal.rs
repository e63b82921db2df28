//! Fixed-precision decimal numbers, the shape in which coordinates are
//! recorded. Fixed digits avoid the representation drift of floating point
//! across round-trips.

use vstd::prelude::*;

verus! {

/// The smallest magnitude a mantissa may not reach: two to the 96th power.
pub const MANTISSA_LIMIT: i128 = 0x1000000000000000000000000;

/// A decimal number `mantissa * 10^(-scale)` with at most 28 fractional
/// digits and a mantissa that fits in 96 bits.
///
/// Only such pairs can be constructed: [`FixedDecimal::new`] checks both
/// bounds.
#[derive(Debug, PartialEq, Eq, Structural, Clone, Copy, Hash)]
pub struct FixedDecimal {
    mantissa: i128,
    scale: u32,
}

/// Whether the pair is within the representable range.
pub open spec fn spec_valid_decimal(mantissa: int, scale: int) -> bool {
    &&& 0 <= scale <= 28
    &&& -MANTISSA_LIMIT < mantissa < MANTISSA_LIMIT
}

impl FixedDecimal {
    /// The mantissa.
    pub closed spec fn spec_mantissa(self) -> i128 {
        self.mantissa
    }

    /// How many decimal digits of the mantissa are fractional.
    pub closed spec fn spec_scale(self) -> u32 {
        self.scale
    }

    /// The pair is within the representable range. Every constructed value
    /// is well-formed.
    pub open spec fn wf(self) -> bool {
        spec_valid_decimal(self.spec_mantissa() as int, self.spec_scale() as int)
    }

    /// Build a decimal, accepting exactly the representable pairs.
    pub fn new(mantissa: i128, scale: u32) -> (r: Option<FixedDecimal>)
        ensures
            r is Some <==> spec_valid_decimal(mantissa as int, scale as int),
            r matches Some(d) ==> {
                &&& d.wf()
                &&& d.spec_mantissa() == mantissa
                &&& d.spec_scale() == scale
            },
    {
        if scale <= 28 && -MANTISSA_LIMIT < mantissa && mantissa < MANTISSA_LIMIT {
            Some(FixedDecimal { mantissa, scale })
        } else {
            None
        }
    }

    /// The mantissa.
    pub fn mantissa(&self) -> (r: i128)
        ensures
            r == self.spec_mantissa(),
    {
        self.mantissa
    }

    /// How many decimal digits of the mantissa are fractional.
    pub fn scale(&self) -> (r: u32)
        ensures
            r == self.spec_scale(),
    {
        self.scale
    }
}

} // verus!
