use squant::client::model::OkxHttpCandleDataRequest;
use squant::client::okx::{ChannelFamily, ClientError, OkxClientV5, DEFAULT_BASE_HTTP_URL, DEFAULT_BASE_WS_URI};

fn client() -> OkxClientV5 {
    OkxClientV5::new(DEFAULT_BASE_HTTP_URL, DEFAULT_BASE_WS_URI, None, None).unwrap()
}

#[test]
fn create_okx_client_v5() {
    let c = OkxClientV5::new("https://www.okx.com/", "wss://wspap.okx.com/", None, None).unwrap();
    assert!(c.api_key().is_none());
    assert!(c.api_passphrase().is_none());
}

#[test]
fn query_construction_is_deterministic() {
    let req = OkxHttpCandleDataRequest::builder("BTC-USDT").bar("1m").limit(100);
    let mut c = client();
    let q = c.candles_query(&req);
    assert_eq!(q, "instId=BTC-USDT&bar=1m&limit=100");
    assert!(!q.contains("after"));
    assert!(!q.contains("before"));
    assert_eq!(c.candles_query(&req), q);
}

#[test]
fn query_orders_every_parameter() {
    let req = OkxHttpCandleDataRequest::builder("BTC-USDT")
        .limit(300)
        .before(1597026383085)
        .after(1597026383086)
        .bar("1H");
    let q = client().candles_query(&req);
    assert_eq!(q, "instId=BTC-USDT&bar=1H&after=1597026383086&before=1597026383085&limit=300");
}

#[test]
fn query_form_encodes_text() {
    let req = OkxHttpCandleDataRequest::builder("A B&C=é");
    let q = client().candles_query(&req);
    assert_eq!(q, "instId=A+B%26C%3D%C3%A9");
}

#[test]
fn candles_url_joins_base_and_path() {
    let req = OkxHttpCandleDataRequest::builder("ETH-USDT").limit(5);
    let url = client().candles_url(&req);
    assert_eq!(url, "https://www.okx.com/api/v5/market/candles?instId=ETH-USDT&limit=5");
    let mut other = OkxClientV5::new("http://localhost:8080", "ws://localhost:9000", None, None).unwrap();
    let url = other.candles_url(&req);
    assert_eq!(url, "http://localhost:8080/api/v5/market/candles?instId=ETH-USDT&limit=5");
}

#[test]
fn ws_endpoints_by_family() {
    let c = client();
    assert_eq!(c.ws_endpoint(ChannelFamily::Business), "wss://wspap.okx.com/ws/v5/business");
    assert_eq!(c.ws_endpoint(ChannelFamily::Public), "wss://wspap.okx.com/ws/v5/public");
}

#[test]
fn invalid_bases_are_rejected() {
    let e = OkxClientV5::new("not a url", DEFAULT_BASE_WS_URI, None, None).err().unwrap();
    assert_eq!(e, ClientError::InvalidHttpUrl("not a url".to_string()));
    let e = OkxClientV5::new(DEFAULT_BASE_HTTP_URL, "wss://bad host/", None, None).err().unwrap();
    assert_eq!(e, ClientError::InvalidWsUri("wss://bad host/".to_string()));
}

#[test]
fn credentials_are_kept() {
    let c = OkxClientV5::new(
        DEFAULT_BASE_HTTP_URL,
        DEFAULT_BASE_WS_URI,
        Some("key".to_string()),
        Some("phrase".to_string()),
    )
    .unwrap();
    assert_eq!(c.api_key().as_deref(), Some("key"));
    assert_eq!(c.api_passphrase().as_deref(), Some("phrase"));
}

#[test]
fn bases_are_normalized_by_their_parsers() {
    let req = OkxHttpCandleDataRequest::builder("BTC-USDT");
    let mut c = OkxClientV5::new("HTTPS://WWW.OKX.COM", "wss://wspap.okx.com/#top", None, None).unwrap();
    assert_eq!(c.candles_url(&req), "https://www.okx.com/api/v5/market/candles?instId=BTC-USDT");
    assert_eq!(c.ws_endpoint(ChannelFamily::Public), "wss://wspap.okx.com/ws/v5/public");
}
