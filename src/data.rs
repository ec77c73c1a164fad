//! Exchange-agnostic market data, and the mapping of raw feed items onto it.
use vstd::prelude::*;

use crate::number::Decimal;
use crate::order::Side;
use crate::{Symbol, Timestamp};

verus! {

/// A wire or request type and the domain data it finally produces.
pub trait RawData {
    type Data;
}

/// A response type and the request parameters that obtain it.
pub trait DataResponse {
    type Request;
}

/// One executed trade.
#[derive(Debug, Clone, PartialEq)]
pub struct TradeData {
    /// Identifier that the exchange gave the trade.
    pub trade_id: String,
    /// Instrument, such as `BTC-USDT`.
    pub symbol: Symbol,
    pub price: Decimal,
    pub quantity: Decimal,
    pub side: Side,
    /// When the trade happened, in Unix milliseconds.
    pub timestamp: Timestamp,
}

/// One OHLCV bar.
#[derive(Debug, Clone, Copy, PartialEq, Eq)]
pub struct CandleData {
    pub open: Decimal,
    pub high: Decimal,
    pub low: Decimal,
    pub close: Decimal,
    pub volume: Decimal,
    /// Opening time of the bar, in Unix milliseconds.
    pub timestamp: Timestamp,
}

/// One order-book snapshot: (price, size) levels, possibly only the top ones.
#[derive(Debug, Clone, PartialEq, Eq)]
pub struct BookData {
    pub bids: Vec<(Decimal, Decimal)>,
    pub asks: Vec<(Decimal, Decimal)>,
    pub timestamp: Timestamp,
}

/// Any of the domain data kinds.
#[derive(Debug, Clone, PartialEq)]
pub enum DataEnum {
    Trade(TradeData),
    Candle(CandleData),
    Book(BookData),
}

/// The kind of a piece of market data.
#[derive(Debug, Clone, Copy, PartialEq, Eq, Hash, Structural)]
pub enum MarketDataType {
    Trade,
    Candle,
    Book,
}

impl DataEnum {
    pub fn kind(&self) -> (r: MarketDataType)
        ensures
            r == match self {
                DataEnum::Trade(_) => MarketDataType::Trade,
                DataEnum::Candle(_) => MarketDataType::Candle,
                DataEnum::Book(_) => MarketDataType::Book,
            },
    {
        match self {
            DataEnum::Trade(_) => MarketDataType::Trade,
            DataEnum::Candle(_) => MarketDataType::Candle,
            DataEnum::Book(_) => MarketDataType::Book,
        }
    }
}

/// Applies a transform to each item pulled from an underlying source, one for one:
/// an item in gives one item out, and the end of the source is the end of the
/// mapped sequence. It holds nothing back and makes nothing up.
pub struct DataStream<F> {
    mapper: F,
}

impl<F> DataStream<F> {
    pub closed spec fn mapper(&self) -> F {
        self.mapper
    }

    pub fn new(mapper: F) -> (r: Self)
        ensures
            r.mapper() == mapper,
    {
        DataStream { mapper }
    }

    /// Maps what the source yielded: `None` (the end) stays the end, and an item
    /// goes through the transform exactly once.
    pub fn map_next<I, D>(&self, polled: Option<I>) -> (r: Option<D>) where F: Fn(I) -> D
        requires
            polled is Some ==> self.mapper().requires((polled->0,)),
        ensures
            r is Some <==> polled is Some,
            polled is Some ==> self.mapper().ensures((polled->0,), r->0),
    {
        match polled {
            Some(item) => Some((self.mapper)(item)),
            None => None,
        }
    }

    /// Maps a whole finite source, pulling one item at a time: as many items come
    /// out as went in, in the same order, each the transform of its counterpart.
    pub fn map_all<I, D>(&self, items: Vec<I>) -> (r: Vec<D>) where F: Fn(I) -> D
        requires
            forall|i: int| 0 <= i < items.len() ==> self.mapper().requires((#[trigger] items[i],)),
        ensures
            r.len() == items.len(),
            forall|i: int| 0 <= i < items.len() ==> self.mapper().ensures((items[i],), #[trigger] r[i]),
    {
        let ghost source = items@;
        let mut out: Vec<D> = Vec::new();
        for item in it: items.into_iter()
            invariant
                it.seq() == source,
                forall|i: int| 0 <= i < source.len() ==> self.mapper().requires((#[trigger] source[i],)),
                out.len() == it.index(),
                forall|i: int| 0 <= i < it.index() ==> self.mapper().ensures((source[i],), #[trigger] out[i]),
        {
            match self.map_next(Some(item)) {
                Some(d) => out.push(d),
                None => {},
            }
        }
        out
    }
}

} // verus!
