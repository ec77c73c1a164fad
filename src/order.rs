//! Orders and their direction.
use vstd::prelude::*;

verus! {

/// Direction of a trade or an order.
#[derive(Debug, Clone, Copy, PartialEq, Eq, Hash, Structural)]
pub enum Side {
    Buy,
    Sell,
}

/// Text that names no side; it holds the text.
#[derive(Debug, Clone, PartialEq, Eq)]
pub struct InvalidSide {
    pub text: String,
}

/// The side that exchange text names: exactly `buy` or `sell`.
pub open spec fn side_of(s: Seq<char>) -> Option<Side> {
    if s == "buy"@ {
        Some(Side::Buy)
    } else if s == "sell"@ {
        Some(Side::Sell)
    } else {
        None
    }
}

impl Side {
    /// Reads a side from exchange text; any other spelling, case included, fails.
    pub fn parse(text: &str) -> (r: Result<Side, InvalidSide>)
        ensures
            side_of(text@) is Some ==> r == Ok::<Side, InvalidSide>(side_of(text@)->0),
            side_of(text@) is None ==> r is Err && r->Err_0.text@ == text@,
    {
        let text = text.to_owned();
        if text == "buy".to_owned() {
            Ok(Side::Buy)
        } else if text == "sell".to_owned() {
            Ok(Side::Sell)
        } else {
            Err(InvalidSide { text })
        }
    }
}

impl<'a> TryFrom<&'a str> for Side {
    type Error = InvalidSide;

    fn try_from(value: &'a str) -> Result<Side, InvalidSide> {
        Side::parse(value)
    }
}

/// The error of a failed conversion holds a copy of the text, which no spec value
/// can build, so no result is promised here: `Side::parse` states it.
impl<'a> vstd::std_specs::convert::TryFromSpecImpl<&'a str> for Side {
    open spec fn obeys_try_from_spec() -> bool {
        false
    }

    open spec fn try_from_spec(v: &'a str) -> Result<Side, InvalidSide> {
        match side_of(v@) {
            Some(side) => Ok(side),
            None => Err(arbitrary()),
        }
    }
}

/// How an order is to be executed.
#[derive(Debug, Clone, Copy, PartialEq, Eq, Hash, Structural)]
pub enum OrderType {
    Market,
    Limit,
}

/// An order; it carries no fields yet.
#[derive(Debug, Clone)]
pub struct Order {}

} // verus!
