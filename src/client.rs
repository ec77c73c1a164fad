//! Exchange clients: wire formats and the decisions of one exchange adapter.
use vstd::prelude::*;

pub mod model;
pub mod okx;
pub mod subscription;

verus! {

/// The identity of an exchange adapter: its display name and REST base address.
pub trait ExchangeTrait {
    const NAME: &'static str;

    const BASE_URL: &'static str;
}

} // verus!
