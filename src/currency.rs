//! Units of the network's currency.

use vstd::prelude::*;

verus! {

/// The smallest denomination of the network's currency.
pub type Lux = u64;

} // verus!
