//! Gas price and limit attached to a transaction, with their defaults and
//! the minimum limit a transaction must carry.

pub mod currency;
pub mod gas;
