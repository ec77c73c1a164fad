//! The exchange's wire shapes, and their conversion into domain data.
use vstd::prelude::*;

use core::marker::PhantomData;

use crate::data::{BookData, CandleData, DataResponse, RawData, TradeData};
use crate::number::{
    decimal_of, is_decimal_text, is_u128_text, parse_decimal, parse_timestamp, u128_text_value,
    Decimal,
};
use crate::order::{side_of, Side};

verus! {

/// A wire field whose text did not parse.
#[derive(Debug, Clone, Copy, PartialEq, Eq, Structural)]
pub enum Field {
    CandleTimestamp,
    Open,
    High,
    Low,
    Close,
    Volume,
    TradeTimestamp,
    Price,
    Quantity,
    Side,
    BookTimestamp,
    BidPrice,
    BidSize,
    AskPrice,
    AskSize,
}

/// A wire record that did not convert: the field and the literal text it held.
#[derive(Debug, Clone, PartialEq, Eq)]
pub struct ConversionError {
    pub field: Field,
    pub text: String,
}

/// A record of the wire format that converts, fallibly, into domain data.
pub trait WireRecord: RawData + Sized {
    /// The first field, in the order they are read, whose text does not parse,
    /// with that text.
    spec fn failure(&self) -> Option<(Field, Seq<char>)>;

    /// `d` is what the record converts to when no field fails.
    spec fn converts_to(&self, d: Self::Data) -> bool;

    /// The domain data when no field fails, else the error for the first failure.
    fn convert(self) -> (r: Result<Self::Data, ConversionError>)
        ensures
            match self.failure() {
                None => r is Ok && self.converts_to(r->Ok_0),
                Some((field, text)) => r is Err && r->Err_0.field == field && r->Err_0.text@
                    == text,
            },
    ;
}

fn field_error(field: Field, text: String) -> (e: ConversionError)
    ensures
        e.field == field,
        e.text@ == text@,
{
    ConversionError { field, text }
}

/// One candle as the exchange sends it: open time, open, high, low, close, base
/// volume, quote volume, quote volume for contracts, and the confirmation flag.
/// Only the first six are read.
#[derive(Debug, Clone, Default)]
pub struct OkxCandleData(
    pub String,
    pub String,
    pub String,
    pub String,
    pub String,
    pub String,
    pub String,
    pub String,
    pub String,
);

impl RawData for OkxCandleData {
    type Data = CandleData;
}

pub open spec fn timestamp_failure(field: Field, s: Seq<char>) -> Option<(Field, Seq<char>)> {
    if is_u128_text(s) {
        None
    } else {
        Some((field, s))
    }
}

pub open spec fn decimal_failure(field: Field, s: Seq<char>) -> Option<(Field, Seq<char>)> {
    if is_decimal_text(s) {
        None
    } else {
        Some((field, s))
    }
}

/// The first of two failures, checked in this order.
pub open spec fn first_of(
    a: Option<(Field, Seq<char>)>,
    b: Option<(Field, Seq<char>)>,
) -> Option<(Field, Seq<char>)> {
    if a is Some {
        a
    } else {
        b
    }
}

impl WireRecord for OkxCandleData {
    open spec fn failure(&self) -> Option<(Field, Seq<char>)> {
        first_of(
            timestamp_failure(Field::CandleTimestamp, self.0@),
            first_of(
                decimal_failure(Field::Open, self.1@),
                first_of(
                    decimal_failure(Field::High, self.2@),
                    first_of(
                        decimal_failure(Field::Low, self.3@),
                        first_of(
                            decimal_failure(Field::Close, self.4@),
                            decimal_failure(Field::Volume, self.5@),
                        ),
                    ),
                ),
            ),
        )
    }

    open spec fn converts_to(&self, d: CandleData) -> bool {
        d == CandleData {
            timestamp: u128_text_value(self.0@) as u128,
            open: decimal_of(self.1@),
            high: decimal_of(self.2@),
            low: decimal_of(self.3@),
            close: decimal_of(self.4@),
            volume: decimal_of(self.5@),
        }
    }

    fn convert(self) -> (r: Result<CandleData, ConversionError>) {
        let timestamp = match parse_timestamp(self.0.as_str()) {
            Some(v) => v,
            None => {
                return Err(field_error(Field::CandleTimestamp, self.0));
            },
        };
        let open = match parse_decimal(self.1.as_str()) {
            Some(v) => v,
            None => {
                return Err(field_error(Field::Open, self.1));
            },
        };
        let high = match parse_decimal(self.2.as_str()) {
            Some(v) => v,
            None => {
                return Err(field_error(Field::High, self.2));
            },
        };
        let low = match parse_decimal(self.3.as_str()) {
            Some(v) => v,
            None => {
                return Err(field_error(Field::Low, self.3));
            },
        };
        let close = match parse_decimal(self.4.as_str()) {
            Some(v) => v,
            None => {
                return Err(field_error(Field::Close, self.4));
            },
        };
        let volume = match parse_decimal(self.5.as_str()) {
            Some(v) => v,
            None => {
                return Err(field_error(Field::Volume, self.5));
            },
        };
        Ok(CandleData { timestamp, open, high, low, close, volume })
    }
}

/// One trade as the exchange sends it.
#[derive(Debug, Clone, Default)]
pub struct OkxTradeData {
    pub inst_id: String,
    pub trade_id: String,
    pub px: String,
    pub sz: String,
    pub side: String,
    pub ts: String,
}

impl RawData for OkxTradeData {
    type Data = TradeData;
}

pub open spec fn side_failure(s: Seq<char>) -> Option<(Field, Seq<char>)> {
    if side_of(s) is Some {
        None
    } else {
        Some((Field::Side, s))
    }
}

impl WireRecord for OkxTradeData {
    open spec fn failure(&self) -> Option<(Field, Seq<char>)> {
        first_of(
            timestamp_failure(Field::TradeTimestamp, self.ts@),
            first_of(
                decimal_failure(Field::Price, self.px@),
                first_of(decimal_failure(Field::Quantity, self.sz@), side_failure(self.side@)),
            ),
        )
    }

    open spec fn converts_to(&self, d: TradeData) -> bool {
        &&& d.trade_id == self.trade_id
        &&& d.symbol == self.inst_id
        &&& d.price == decimal_of(self.px@)
        &&& d.quantity == decimal_of(self.sz@)
        &&& d.side == side_of(self.side@)->0
        &&& d.timestamp == u128_text_value(self.ts@) as u128
    }

    fn convert(self) -> (r: Result<TradeData, ConversionError>) {
        let timestamp = match parse_timestamp(self.ts.as_str()) {
            Some(v) => v,
            None => {
                return Err(field_error(Field::TradeTimestamp, self.ts));
            },
        };
        let price = match parse_decimal(self.px.as_str()) {
            Some(v) => v,
            None => {
                return Err(field_error(Field::Price, self.px));
            },
        };
        let quantity = match parse_decimal(self.sz.as_str()) {
            Some(v) => v,
            None => {
                return Err(field_error(Field::Quantity, self.sz));
            },
        };
        let side = match Side::parse(self.side.as_str()) {
            Ok(v) => v,
            Err(e) => {
                return Err(field_error(Field::Side, e.text));
            },
        };
        Ok(TradeData {
            trade_id: self.trade_id,
            symbol: self.inst_id,
            price,
            quantity,
            side,
            timestamp,
        })
    }
}

/// One book level: price, size, liquidated-order count, order count.
pub type Level = (String, String, String, String);

/// One order-book snapshot as the exchange sends it.
#[derive(Debug, Clone, Default)]
pub struct OkxBookData {
    pub asks: Vec<Level>,
    pub bids: Vec<Level>,
    pub ts: String,
    pub checksum: Option<i128>,
    /// Sequence number of the previous push, on the channels that have one.
    pub prev_seq_id: Option<i128>,
    pub seq_id: Option<i128>,
}

impl RawData for OkxBookData {
    type Data = BookData;
}

pub open spec fn level_failure(l: Level, price: Field, size: Field) -> Option<(Field, Seq<char>)> {
    first_of(decimal_failure(price, l.0@), decimal_failure(size, l.1@))
}

/// The first failure over levels read from the first to the last.
pub open spec fn levels_failure(levels: Seq<Level>, price: Field, size: Field) -> Option<
    (Field, Seq<char>),
>
    decreases levels.len(),
{
    if levels.len() == 0 {
        None
    } else {
        first_of(
            levels_failure(levels.drop_last(), price, size),
            level_failure(levels.last(), price, size),
        )
    }
}

/// The (price, size) that a level keeps.
pub open spec fn level_value(l: Level) -> (Decimal, Decimal) {
    (decimal_of(l.0@), decimal_of(l.1@))
}

pub open spec fn levels_value(levels: Seq<Level>) -> Seq<(Decimal, Decimal)> {
    levels.map_values(|l: Level| level_value(l))
}

fn parse_levels(levels: &Vec<Level>, price: Field, size: Field) -> (r: Result<
    Vec<(Decimal, Decimal)>,
    ConversionError,
>)
    ensures
        match levels_failure(levels@, price, size) {
            None => r is Ok && r->Ok_0@ == levels_value(levels@),
            Some((field, text)) => r is Err && r->Err_0.field == field && r->Err_0.text@ == text,
        },
{
    let mut out: Vec<(Decimal, Decimal)> = Vec::new();
    let mut i: usize = 0;
    while i < levels.len()
        invariant
            0 <= i <= levels.len(),
            levels_failure(levels@.take(i as int), price, size) is None,
            out@ == levels_value(levels@.take(i as int)),
        decreases levels.len() - i,
    {
        let level = &levels[i];
        assert(levels@.take(i + 1).drop_last() =~= levels@.take(i as int));
        let p = match parse_decimal(level.0.as_str()) {
            Some(v) => v,
            None => {
                proof {
                    lemma_levels_failure_prefix(levels@, i + 1, price, size);
                }
                return Err(field_error(price, level.0.clone()));
            },
        };
        let q = match parse_decimal(level.1.as_str()) {
            Some(v) => v,
            None => {
                proof {
                    lemma_levels_failure_prefix(levels@, i + 1, price, size);
                }
                return Err(field_error(size, level.1.clone()));
            },
        };
        out.push((p, q));
        assert(levels_value(levels@.take(i + 1)) =~= levels_value(levels@.take(i as int)).push(
            (p, q),
        ));
        i = i + 1;
    }
    assert(levels@.take(i as int) =~= levels@);
    Ok(out)
}

/// A failure among the first levels is the first failure of them all.
proof fn lemma_levels_failure_prefix(levels: Seq<Level>, k: int, price: Field, size: Field)
    requires
        0 <= k <= levels.len(),
        levels_failure(levels.take(k), price, size) is Some,
    ensures
        levels_failure(levels, price, size) == levels_failure(levels.take(k), price, size),
    decreases levels.len() - k,
{
    if k < levels.len() {
        assert(levels.take(k + 1).drop_last() =~= levels.take(k));
        lemma_levels_failure_prefix(levels, k + 1, price, size);
    } else {
        assert(levels.take(k) =~= levels);
    }
}

impl WireRecord for OkxBookData {
    open spec fn failure(&self) -> Option<(Field, Seq<char>)> {
        first_of(
            timestamp_failure(Field::BookTimestamp, self.ts@),
            first_of(
                levels_failure(self.bids@, Field::BidPrice, Field::BidSize),
                levels_failure(self.asks@, Field::AskPrice, Field::AskSize),
            ),
        )
    }

    open spec fn converts_to(&self, d: BookData) -> bool {
        &&& d.timestamp == u128_text_value(self.ts@) as u128
        &&& d.bids@ == levels_value(self.bids@)
        &&& d.asks@ == levels_value(self.asks@)
    }

    fn convert(self) -> (r: Result<BookData, ConversionError>) {
        let timestamp = match parse_timestamp(self.ts.as_str()) {
            Some(v) => v,
            None => {
                return Err(field_error(Field::BookTimestamp, self.ts));
            },
        };
        let bids = parse_levels(&self.bids, Field::BidPrice, Field::BidSize)?;
        let asks = parse_levels(&self.asks, Field::AskPrice, Field::AskSize)?;
        Ok(BookData { timestamp, bids, asks })
    }
}

/// The first failure over records converted from the first to the last.
pub open spec fn records_failure<T: WireRecord>(records: Seq<T>) -> Option<(Field, Seq<char>)>
    decreases records.len(),
{
    if records.len() == 0 {
        None
    } else {
        first_of(records_failure(records.drop_last()), records.last().failure())
    }
}

/// `out` holds, in order, what each of `records` converts to.
pub open spec fn all_converted<T: WireRecord>(records: Seq<T>, out: Seq<T::Data>) -> bool {
    &&& out.len() == records.len()
    &&& forall|i: int| 0 <= i < records.len() ==> #[trigger] records[i].converts_to(out[i])
}

/// A failure among the first records is the first failure of them all.
proof fn lemma_records_failure_prefix<T: WireRecord>(records: Seq<T>, k: int)
    requires
        0 <= k <= records.len(),
        records_failure(records.take(k)) is Some,
    ensures
        records_failure(records) == records_failure(records.take(k)),
    decreases records.len() - k,
{
    if k < records.len() {
        assert(records.take(k + 1).drop_last() =~= records.take(k));
        lemma_records_failure_prefix(records, k + 1);
    } else {
        assert(records.take(k) =~= records);
    }
}

/// Converts every record, in order; the first record that fails fails the whole.
pub fn convert_all<T: WireRecord>(records: Vec<T>) -> (r: Result<Vec<T::Data>, ConversionError>)
    ensures
        match records_failure(records@) {
            None => r is Ok && all_converted(records@, r->Ok_0@),
            Some((field, text)) => r is Err && r->Err_0.field == field && r->Err_0.text@ == text,
        },
{
    let ghost source = records@;
    let mut out: Vec<T::Data> = Vec::new();
    for record in it: records.into_iter()
        invariant
            it.seq() == source,
            records_failure(source.take(it.index() as int)) is None,
            all_converted(source.take(it.index() as int), out@),
    {
        let ghost i = it.index() as int;
        assert(source.take(i + 1).drop_last() =~= source.take(i));
        assert(source.take(i + 1).last() == source[i]);
        match record.convert() {
            Ok(d) => {
                out.push(d);
                assert(all_converted(source.take(i + 1), out@)) by {
                    assert forall|j: int| 0 <= j < i + 1 implies #[trigger] source.take(i + 1)[j].converts_to(
                        out@[j],
                    ) by {
                        if j < i {
                            assert(source.take(i)[j] == source.take(i + 1)[j]);
                        }
                    }
                }
            },
            Err(e) => {
                proof {
                    lemma_records_failure_prefix(source, i + 1);
                }
                return Err(e);
            },
        }
    }
    assert(source.take(source.len() as int) =~= source);
    Ok(out)
}

/// The envelope of a REST response.
#[derive(Debug, Clone, Default)]
pub struct OkxHttpResponse<D> {
    pub code: String,
    pub msg: String,
    pub data: Vec<D>,
}

impl<R: RawData> DataResponse for OkxHttpResponse<R> {
    type Request = R;
}

impl<D: RawData> RawData for OkxHttpResponse<D> {
    type Data = Vec<D::Data>;
}

impl<D: WireRecord> OkxHttpResponse<D> {
    /// The domain data of every record of the response, in order; the first
    /// record that fails fails the whole.
    pub fn into_domain(self) -> (r: Result<Vec<D::Data>, ConversionError>)
        ensures
            match records_failure(self.data@) {
                None => r is Ok && all_converted(self.data@, r->Ok_0@),
                Some((field, text)) => r is Err && r->Err_0.field == field && r->Err_0.text@
                    == text,
            },
    {
        convert_all(self.data)
    }
}

/// Parameters of a request for candle history.
#[derive(Debug, Clone)]
pub struct OkxHttpCandleDataRequest {
    /// Instrument, such as `BTC-USDT`.
    pub inst_id: String,
    /// Bar width, such as `1m` or `1H`; the exchange takes `1m` when absent.
    pub bar: Option<String>,
    /// Only bars older than this timestamp.
    pub after: Option<u128>,
    /// Only bars newer than this timestamp.
    pub before: Option<u128>,
    /// How many bars, at most 300; the exchange sends 100 when absent.
    pub limit: Option<usize>,
}

impl RawData for OkxHttpCandleDataRequest {
    type Data = CandleData;
}

impl OkxHttpCandleDataRequest {
    /// A request for the instrument, with every optional parameter absent.
    pub fn builder(inst_id: &str) -> (r: Self)
        ensures
            r.inst_id@ == inst_id@,
            r.bar is None,
            r.after is None,
            r.before is None,
            r.limit is None,
    {
        OkxHttpCandleDataRequest {
            inst_id: inst_id.to_owned(),
            bar: None,
            after: None,
            before: None,
            limit: None,
        }
    }

    pub fn bar(self, bar: &str) -> (r: Self)
        ensures
            r.bar is Some && r.bar->0@ == bar@,
            r.inst_id == self.inst_id,
            r.after == self.after,
            r.before == self.before,
            r.limit == self.limit,
    {
        OkxHttpCandleDataRequest { bar: Some(bar.to_owned()), ..self }
    }

    pub fn after(self, after: u128) -> (r: Self)
        ensures
            r.after == Some(after),
            r.inst_id == self.inst_id,
            r.bar == self.bar,
            r.before == self.before,
            r.limit == self.limit,
    {
        OkxHttpCandleDataRequest { after: Some(after), ..self }
    }

    pub fn before(self, before: u128) -> (r: Self)
        ensures
            r.before == Some(before),
            r.inst_id == self.inst_id,
            r.bar == self.bar,
            r.after == self.after,
            r.limit == self.limit,
    {
        OkxHttpCandleDataRequest { before: Some(before), ..self }
    }

    pub fn limit(self, limit: usize) -> (r: Self)
        ensures
            r.limit == Some(limit),
            r.inst_id == self.inst_id,
            r.bar == self.bar,
            r.after == self.after,
            r.before == self.before,
    {
        OkxHttpCandleDataRequest { limit: Some(limit), ..self }
    }
}

/// A subscription channel: its name, such as `candle1m` or `trades`, and the
/// instrument.
#[derive(Debug, Clone, Default, PartialEq, Eq)]
pub struct OkxArg {
    pub channel: String,
    pub inst_id: String,
}

impl OkxArg {
    pub fn new(channel: &str, inst_id: &str) -> (r: Self)
        ensures
            r.channel@ == channel@,
            r.inst_id@ == inst_id@,
    {
        OkxArg { channel: channel.to_owned(), inst_id: inst_id.to_owned() }
    }
}

/// A request sent over the socket: the operation (`subscribe` or `unsubscribe`),
/// its channels, and an optional identifier that the reply echoes. `D` is the
/// wire record that the channels push.
#[derive(Debug, Default)]
pub struct OkxWsRequest<D> {
    pub op: String,
    pub args: Vec<OkxArg>,
    pub id: Option<String>,
    /// The wire record of the channels.
    pub record: PhantomData<D>,
}

impl<D> OkxWsRequest<D> {
    pub fn new(op: &str, args: Vec<OkxArg>) -> (r: Self)
        ensures
            r.op@ == op@,
            r.args == args,
            r.id is None,
    {
        OkxWsRequest { op: op.to_owned(), args, id: None, record: PhantomData }
    }

    /// A subscription to the channels.
    pub fn subscribe(args: Vec<OkxArg>) -> (r: Self)
        ensures
            r.op@ == "subscribe"@,
            r.args == args,
            r.id is None,
    {
        OkxWsRequest::new("subscribe", args)
    }

    pub fn with_id(self, id: &str) -> (r: Self)
        ensures
            r.op == self.op,
            r.args == self.args,
            r.id is Some && r.id->0@ == id@,
    {
        OkxWsRequest { id: Some(id.to_owned()), ..self }
    }
}

impl<D: RawData> RawData for OkxWsRequest<D> {
    type Data = D::Data;
}

/// The server's reply to a request: its event (`subscribe`, `error`, ...), an
/// error code and message where there is one, the channel, and the connection.
#[derive(Debug, Default)]
pub struct OkxWsResponse<D> {
    pub id: Option<String>,
    pub event: String,
    pub code: Option<String>,
    pub msg: Option<String>,
    pub arg: Option<OkxArg>,
    pub conn_id: String,
    /// The wire record of the channels.
    pub record: PhantomData<D>,
}

impl<D> OkxWsResponse<D> {
    pub fn new(
        id: Option<String>,
        event: String,
        code: Option<String>,
        msg: Option<String>,
        arg: Option<OkxArg>,
        conn_id: String,
    ) -> (r: Self)
        ensures
            r.id == id,
            r.event == event,
            r.code == code,
            r.msg == msg,
            r.arg == arg,
            r.conn_id == conn_id,
    {
        OkxWsResponse { id, event, code, msg, arg, conn_id, record: PhantomData }
    }
}

/// A push on a subscribed channel: the channel, an optional action
/// (`snapshot` or `update`), and the records.
#[derive(Debug, Clone, Default)]
pub struct OkxWsDataResponse<D> {
    pub arg: OkxArg,
    pub action: Option<String>,
    pub data: Vec<D>,
}

} // verus!
