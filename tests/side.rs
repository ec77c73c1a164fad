use squant::order::{OrderType, Side};

#[test]
fn side_parsing_is_exact() {
    assert_eq!(Side::try_from("buy").unwrap(), Side::Buy);
    assert_eq!(Side::try_from("sell").unwrap(), Side::Sell);
    assert!(Side::try_from("BUY").is_err());
    assert!(Side::try_from("").is_err());
    assert!(Side::try_from("buy ").is_err());
    assert!(Side::try_from("sel").is_err());
}

#[test]
fn invalid_side_keeps_text() {
    let e = Side::parse("Sell").unwrap_err();
    assert_eq!(e.text, "Sell");
    assert_eq!(Side::parse("sell").unwrap(), Side::Sell);
}

#[test]
fn order_types_differ() {
    assert_ne!(OrderType::Market, OrderType::Limit);
}
