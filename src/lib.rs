//! Normalisation of exchange market-data feeds into exchange-agnostic domain types.
use vstd::prelude::*;

pub mod client;
pub mod clock;
pub mod data;
pub mod number;
pub mod order;
pub mod recorder;

verus! {

/// Name of a trading venue.
pub type Exchange = String;

/// Exchange-assigned instrument identifier, such as `BTC-USDT`.
pub type Symbol = String;

/// Unix time in milliseconds.
pub type Timestamp = u128;

} // verus!
