//! A fixed-point decimal: a raw integer value together with the number of
//! decimal digits it carries, as price feeds report them.

use vstd::prelude::*;

verus! {

/// A scaled decimal number: `value` counts units of `10^-decimals`.
#[derive(Clone, Copy, PartialEq, Eq, Structural, Debug, Default)]
pub struct Decimal {
    pub value: i128,
    pub decimals: u32,
}

impl Decimal {
    /// Wrap a raw scaled value with its decimal count.
    pub fn new(value: i128, decimals: u32) -> (d: Decimal)
        ensures
            d.value == value,
            d.decimals == decimals,
    {
        Decimal { value, decimals }
    }
}

} // verus!
