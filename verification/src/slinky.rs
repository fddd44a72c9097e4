use vstd::prelude::*;

verus! {

/// The price of `base` in `quote` that the oracle module is told.
#[derive(Debug, PartialEq)]
pub struct SlinkyPrices {
    pub base: String,
    pub quote: String,
    pub price: u128,
}

impl SlinkyPrices {
    /// The price of one `base` in `quote`.
    pub fn new(base: String, quote: String, price: u128) -> (prices: SlinkyPrices)
        ensures
            prices.base@ == base@,
            prices.quote@ == quote@,
            prices.price == price,
    {
        SlinkyPrices { base, quote, price }
    }
}

} // verus!
