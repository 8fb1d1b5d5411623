//! Prices as exact decimal numbers.

use vstd::prelude::*;

verus! {

/// The largest magnitude a price's unscaled digits may have: 96 bits, all set.
pub const MAX_MANTISSA: i128 = 79_228_162_514_264_337_593_543_950_335i128;

/// The largest number of digits a price may have behind the decimal point.
pub const MAX_SCALE: u32 = 28u32;

/// An exact decimal number: `mantissa / 10^scale`.
#[derive(Clone, Copy, Debug, PartialEq, Eq)]
pub struct Price {
    /// The digits of the number, sign included, with the decimal point left out.
    pub mantissa: i128,
    /// How many of those digits stand behind the decimal point.
    pub scale: u32,
}

impl Price {
    /// A price that a 96-bit decimal with at most 28 fractional digits can hold.
    pub open spec fn representable(self) -> bool {
        &&& self.scale <= MAX_SCALE
        &&& -MAX_MANTISSA <= self.mantissa <= MAX_MANTISSA
    }

    /// Below zero. The scale only moves the decimal point, so the sign of the digits
    /// decides.
    pub open spec fn negative(self) -> bool {
        self.mantissa < 0
    }

    /// The price `mantissa / 10^scale`, if it is representable.
    pub fn new(mantissa: i128, scale: u32) -> (price: Option<Price>)
        ensures
            price is Some <==> (Price { mantissa, scale }).representable(),
            price matches Some(p) ==> p == (Price { mantissa, scale }),
    {
        if scale <= MAX_SCALE && -MAX_MANTISSA <= mantissa && mantissa <= MAX_MANTISSA {
            Some(Price { mantissa, scale })
        } else {
            None
        }
    }

    /// Whether the price can be held by a 96-bit decimal.
    pub fn is_representable(&self) -> (fits: bool)
        ensures
            fits == self.representable(),
    {
        self.scale <= MAX_SCALE && -MAX_MANTISSA <= self.mantissa && self.mantissa <= MAX_MANTISSA
    }

    /// Whether the price is below zero.
    pub fn is_negative(&self) -> (below: bool)
        ensures
            below == self.negative(),
    {
        self.mantissa < 0
    }
}

} // verus!
