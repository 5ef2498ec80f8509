//! The gas price and limit for a transaction.

use vstd::prelude::*;

use crate::currency::Lux;

verus! {

/// The minimum gas limit.
pub const MIN_LIMIT: u64 = 350_000_000;

/// The default gas limit.
pub const DEFAULT_LIMIT: u64 = 500_000_000;

/// The default gas price.
pub const DEFAULT_PRICE: Lux = 1;

/// Gas price and limit for any transaction.
///
/// No invariant ties the two fields: a value may hold a limit below
/// `MIN_LIMIT`, which `is_enough` reports.
#[derive(Debug)]
pub struct Gas {
    /// The gas price in Lux.
    pub price: Lux,
    /// The gas limit.
    pub limit: u64,
}

impl Gas {
    /// The gas carries at least the minimum limit.
    pub open spec fn enough(&self) -> bool {
        self.limit >= MIN_LIMIT
    }

    /// The gas after its price is set to `price`, or reset when none is given.
    pub open spec fn with_price(self, price: Option<Lux>) -> Gas {
        Gas {
            price: match price {
                Some(p) => p,
                None => DEFAULT_PRICE,
            },
            limit: self.limit,
        }
    }

    /// The gas after its limit is set to `limit`, or reset when none is given.
    pub open spec fn with_limit(self, limit: Option<u64>) -> Gas {
        Gas {
            price: self.price,
            limit: match limit {
                Some(l) => l,
                None => DEFAULT_LIMIT,
            },
        }
    }

    /// Default gas price and limit.
    pub fn new() -> (r: Self)
        ensures
            r.price == DEFAULT_PRICE,
            r.limit == DEFAULT_LIMIT,
    {
        Gas { price: DEFAULT_PRICE, limit: DEFAULT_LIMIT }
    }

    /// Returns `true` if the limit is equal to or greater than the minimum.
    pub fn is_enough(&self) -> (r: bool)
        ensures
            r == self.enough(),
            r <==> self.limit >= MIN_LIMIT,
    {
        self.limit >= MIN_LIMIT
    }

    /// Sets the price; with no price given, resets it to `DEFAULT_PRICE`.
    pub fn set_price(&mut self, price: Option<Lux>)
        ensures
            *final(self) == old(self).with_price(price),
    {
        self.price = price.unwrap_or(DEFAULT_PRICE);
    }

    /// Sets the limit; with no limit given, resets it to `DEFAULT_LIMIT`.
    pub fn set_limit(&mut self, limit: Option<u64>)
        ensures
            *final(self) == old(self).with_limit(limit),
    {
        self.limit = limit.unwrap_or(DEFAULT_LIMIT);
    }
}

/// Setting a limit decides `is_enough` by that limit alone, whatever the gas
/// held before: a given limit is enough exactly when it reaches `MIN_LIMIT`,
/// and resetting to the default always is.
pub proof fn lemma_set_limit_decides_enough(g: Gas, limit: u64)
    ensures
        g.with_limit(Some(limit)).enough() <==> limit >= MIN_LIMIT,
        g.with_limit(None).enough(),
{
}

impl Default for Gas {
    fn default() -> (r: Self)
        ensures
            r.price == DEFAULT_PRICE,
            r.limit == DEFAULT_LIMIT,
    {
        Self::new()
    }
}

} // verus!
