use squant::client::model::{
    convert_all, ConversionError, Field, OkxBookData, OkxCandleData, OkxHttpResponse,
    OkxTradeData, WireRecord,
};
use squant::data::CandleData;
use squant::number::{parse_decimal, parse_timestamp, Decimal};
use squant::order::Side;

fn dec(negative: bool, mantissa: u128, scale: usize) -> Decimal {
    Decimal { negative, mantissa, scale }
}

fn to_f64(d: &Decimal) -> f64 {
    let digits = d.mantissa.to_string();
    let sign = if d.negative { "-" } else { "" };
    format!("{}{}e-{}", sign, digits, d.scale).parse::<f64>().unwrap()
}

fn candle(fields: [&str; 9]) -> OkxCandleData {
    OkxCandleData(
        fields[0].to_string(),
        fields[1].to_string(),
        fields[2].to_string(),
        fields[3].to_string(),
        fields[4].to_string(),
        fields[5].to_string(),
        fields[6].to_string(),
        fields[7].to_string(),
        fields[8].to_string(),
    )
}

fn trade(px: &str, sz: &str, side: &str, ts: &str) -> OkxTradeData {
    OkxTradeData {
        inst_id: "BTC-USDT".to_string(),
        trade_id: "130639474".to_string(),
        px: px.to_string(),
        sz: sz.to_string(),
        side: side.to_string(),
        ts: ts.to_string(),
    }
}

fn level(price: &str, size: &str) -> (String, String, String, String) {
    (price.to_string(), size.to_string(), "0".to_string(), "4".to_string())
}

#[test]
fn candle_round_trip() {
    let wire = candle([
        "1597026383085",
        "8533.02",
        "8553.69",
        "8527.17",
        "8548.26",
        "45247",
        "386900591.21",
        "386900591.21",
        "1",
    ]);
    let c = wire.convert().unwrap();
    assert_eq!(
        c,
        CandleData {
            open: dec(false, 853302, 2),
            high: dec(false, 855369, 2),
            low: dec(false, 852717, 2),
            close: dec(false, 854826, 2),
            volume: dec(false, 45247, 0),
            timestamp: 1597026383085,
        }
    );
    assert_eq!(to_f64(&c.open), 8533.02);
    assert_eq!(to_f64(&c.high), 8553.69);
    assert_eq!(to_f64(&c.low), 8527.17);
    assert_eq!(to_f64(&c.close), 8548.26);
    assert_eq!(to_f64(&c.volume), 45247.0);
}

#[test]
fn candle_failure_names_first_bad_field() {
    let wire = candle(["1597026383085", "8533.02", "x", "y", "8548.26", "1", "", "", ""]);
    let e = wire.convert().unwrap_err();
    assert_eq!(e, ConversionError { field: Field::High, text: "x".to_string() });
    let wire = candle(["-5", "8533.02", "8553.69", "8527.17", "8548.26", "1", "", "", ""]);
    let e = wire.convert().unwrap_err();
    assert_eq!(e.field, Field::CandleTimestamp);
    assert_eq!(e.text, "-5");
    let wire = candle(["1", "1", "1", "1", "1", "1e3", "", "", ""]);
    assert_eq!(wire.convert().unwrap_err().field, Field::Volume);
}

#[test]
fn trade_converts() {
    let t = trade("42219.9", "0.12060306", "buy", "1629386781174").convert().unwrap();
    assert_eq!(t.trade_id, "130639474");
    assert_eq!(t.symbol, "BTC-USDT");
    assert_eq!(t.price, dec(false, 422199, 1));
    assert_eq!(t.quantity, dec(false, 12060306, 8));
    assert_eq!(t.side, Side::Buy);
    assert_eq!(t.timestamp, 1629386781174);
    let t = trade("1", "2", "sell", "3").convert().unwrap();
    assert_eq!(t.side, Side::Sell);
}

#[test]
fn trade_bad_price_mentions_text() {
    let e = trade("abc", "1", "buy", "1629386781174").convert().unwrap_err();
    assert_eq!(e.field, Field::Price);
    assert!(e.text.contains("abc"));
}

#[test]
fn trade_failures_in_field_order() {
    let e = trade("abc", "def", "up", "soon").convert().unwrap_err();
    assert_eq!(e, ConversionError { field: Field::TradeTimestamp, text: "soon".to_string() });
    let e = trade("1", "def", "up", "1").convert().unwrap_err();
    assert_eq!(e, ConversionError { field: Field::Quantity, text: "def".to_string() });
    let e = trade("1", "2", "BUY", "1").convert().unwrap_err();
    assert_eq!(e, ConversionError { field: Field::Side, text: "BUY".to_string() });
}

#[test]
fn book_keeps_price_and_size() {
    let wire = OkxBookData {
        asks: vec![level("41006.8", "0.60038921"), level("41007", "1")],
        bids: vec![level("41006.3", "0.30178218")],
        ts: "1629966436396".to_string(),
        checksum: Some(-855196043),
        prev_seq_id: None,
        seq_id: Some(123456),
    };
    let b = wire.convert().unwrap();
    assert_eq!(b.timestamp, 1629966436396);
    assert_eq!(b.bids, vec![(dec(false, 410063, 1), dec(false, 30178218, 8))]);
    assert_eq!(
        b.asks,
        vec![(dec(false, 410068, 1), dec(false, 60038921, 8)), (dec(false, 41007, 0), dec(false, 1, 0))]
    );
}

#[test]
fn book_failure_checks_bids_before_asks() {
    let wire = OkxBookData {
        asks: vec![level("1", "bad-ask")],
        bids: vec![level("1", "1"), level("bad-bid", "1")],
        ts: "1".to_string(),
        checksum: None,
        prev_seq_id: None,
        seq_id: None,
    };
    let e = wire.convert().unwrap_err();
    assert_eq!(e, ConversionError { field: Field::BidPrice, text: "bad-bid".to_string() });
    let wire = OkxBookData {
        asks: vec![level("1", "bad-ask")],
        bids: vec![],
        ts: "1".to_string(),
        checksum: None,
        prev_seq_id: None,
        seq_id: None,
    };
    let e = wire.convert().unwrap_err();
    assert_eq!(e, ConversionError { field: Field::AskSize, text: "bad-ask".to_string() });
}

#[test]
fn convert_all_keeps_order_and_stops_at_first_failure() {
    let ok = vec![trade("1", "1", "buy", "1"), trade("2", "2", "sell", "2")];
    let out = convert_all(ok).unwrap();
    assert_eq!(out.len(), 2);
    assert_eq!(out[0].price, dec(false, 1, 0));
    assert_eq!(out[1].price, dec(false, 2, 0));
    let bad = vec![trade("1", "1", "buy", "1"), trade("x", "1", "buy", "1"), trade("y", "1", "buy", "1")];
    assert_eq!(convert_all(bad).unwrap_err().text, "x");
    let empty: Vec<OkxTradeData> = vec![];
    assert!(convert_all(empty).unwrap().is_empty());
}

#[test]
fn http_response_into_domain() {
    let resp = OkxHttpResponse {
        code: "0".to_string(),
        msg: "".to_string(),
        data: vec![candle(["2", "1", "1", "1", "1", "1", "", "", ""]), candle(["1", "2", "2", "2", "2", "2", "", "", ""])],
    };
    let out = resp.into_domain().unwrap();
    assert_eq!(out.len(), 2);
    assert_eq!(out[0].timestamp, 2);
    assert_eq!(out[1].open, dec(false, 2, 0));
}

#[test]
fn timestamps_parse_as_unsigned_integers() {
    assert_eq!(parse_timestamp("1597026383085"), Some(1597026383085));
    assert_eq!(parse_timestamp("+12"), Some(12));
    assert_eq!(parse_timestamp("007"), Some(7));
    assert_eq!(parse_timestamp("340282366920938463463374607431768211455"), Some(u128::MAX));
    assert_eq!(parse_timestamp("340282366920938463463374607431768211456"), None);
    assert_eq!(parse_timestamp(""), None);
    assert_eq!(parse_timestamp("+"), None);
    assert_eq!(parse_timestamp("-1"), None);
    assert_eq!(parse_timestamp("12a"), None);
    assert_eq!(parse_timestamp("１２"), None);
}

#[test]
fn decimals_parse_exactly() {
    assert_eq!(parse_decimal("8533.02"), Some(dec(false, 853302, 2)));
    assert_eq!(parse_decimal("-0.25"), Some(dec(true, 25, 2)));
    assert_eq!(parse_decimal("+3"), Some(dec(false, 3, 0)));
    assert_eq!(parse_decimal(".5"), Some(dec(false, 5, 1)));
    assert_eq!(parse_decimal("5."), Some(dec(false, 5, 0)));
    assert_eq!(parse_decimal("0.000"), Some(dec(false, 0, 3)));
    assert_eq!(parse_decimal(""), None);
    assert_eq!(parse_decimal("."), None);
    assert_eq!(parse_decimal("-"), None);
    assert_eq!(parse_decimal("1.2.3"), None);
    assert_eq!(parse_decimal("1e5"), None);
    assert_eq!(parse_decimal("abc"), None);
    assert_eq!(parse_decimal("NaN"), None);
    assert_eq!(parse_decimal("1 "), None);
    assert_eq!(parse_decimal("340282366920938463463374607431768211455"), Some(dec(false, u128::MAX, 0)));
    assert_eq!(parse_decimal("34028236692093846346337460743176821145.5"), Some(dec(false, u128::MAX, 1)));
    assert_eq!(parse_decimal("34028236692093846346337460743176821145.6"), None);
    assert_eq!(parse_decimal("0.0000000000000000000000000000000000000000001"), Some(dec(false, 1, 43)));
}
