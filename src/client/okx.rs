//! The OKX adapter: its configuration, and the requests it builds.
use vstd::prelude::*;
use vstd::string::{StrSliceExecFns, StringExecFns};
use vstd::utf8::encode_utf8;

use crate::client::model::OkxHttpCandleDataRequest;
use crate::client::ExchangeTrait;

verus! {

#[verifier::external_type_specification]
#[verifier::external_body]
pub struct ExUrlParseError(url::ParseError);

#[verifier::external_type_specification]
#[verifier::external_body]
pub struct ExInvalidUri(http::uri::InvalidUri);

#[verifier::external_type_specification]
#[verifier::external_body]
pub struct ExItoaBuffer(itoa::Buffer);

pub assume_specification[ itoa::Buffer::new ]() -> itoa::Buffer;

/// The serialisation of the URL that `url::Url::parse` reads from the text, if it
/// reads one.
pub uninterp spec fn parsed_url(s: Seq<char>) -> Option<Seq<char>>;

/// Relies on `url::Url::parse`, and on `String::from(Url)` for its serialisation:
/// whether text parses, and to what, depends on the text alone.
#[verifier::external_body]
fn normalize_url(s: &str) -> (r: Result<String, url::ParseError>)
    ensures
        match parsed_url(s@) {
            Some(t) => r is Ok && r->Ok_0@ == t,
            None => r is Err,
        },
{
    match url::Url::parse(s) {
        Ok(url) => Ok(String::from(url)),
        Err(e) => Err(e),
    }
}

/// The text of the URI that `http::Uri`'s `FromStr` reads from the text, if it
/// reads one.
pub uninterp spec fn parsed_uri(s: Seq<char>) -> Option<Seq<char>>;

/// Relies on `http::Uri`'s `FromStr`, and on its `Display` for the text: whether
/// text parses, and to what, depends on the text alone.
#[verifier::external_body]
fn normalize_uri(s: &str) -> (r: Result<String, http::uri::InvalidUri>)
    ensures
        match parsed_uri(s@) {
            Some(t) => r is Ok && r->Ok_0@ == t,
            None => r is Err,
        },
{
    match s.parse::<http::Uri>() {
        Ok(uri) => Ok(uri.to_string()),
        Err(e) => Err(e),
    }
}

pub open spec fn upper_hex_digit(n: int) -> char {
    seq!['0', '1', '2', '3', '4', '5', '6', '7', '8', '9', 'A', 'B', 'C', 'D', 'E', 'F'][n]
}

/// Bytes that form encoding leaves as they are: ASCII letters and digits, `*`,
/// `-`, `.` and `_`.
pub open spec fn form_keeps(b: u8) -> bool {
    ||| 48 <= b <= 57
    ||| 65 <= b <= 90
    ||| 97 <= b <= 122
    ||| b == 42 || b == 45 || b == 46 || b == 95
}

/// The `application/x-www-form-urlencoded` form of one byte: kept, a space as
/// `+`, or else `%` and two upper-case hex digits.
pub open spec fn form_byte(b: u8) -> Seq<char> {
    if form_keeps(b) {
        seq![b as char]
    } else if b == 32 {
        seq!['+']
    } else {
        seq!['%', upper_hex_digit(b as int / 16), upper_hex_digit(b as int % 16)]
    }
}

/// The `application/x-www-form-urlencoded` form of a byte string.
pub open spec fn form_encoded(bytes: Seq<u8>) -> Seq<char>
    decreases bytes.len(),
{
    if bytes.len() == 0 {
        Seq::empty()
    } else {
        form_encoded(bytes.drop_last()) + form_byte(bytes.last())
    }
}

/// Relies on `url::form_urlencoded::byte_serialize`, which yields the form
/// encoding of the text's UTF-8 bytes in pieces.
#[verifier::external_body]
fn form_encode(s: &str) -> (r: String)
    ensures
        r@ == form_encoded(encode_utf8(s@)),
{
    url::form_urlencoded::byte_serialize(s.as_bytes()).collect()
}

pub open spec fn digit_char(d: nat) -> char {
    upper_hex_digit(d as int)
}

/// The decimal digits of a number, without sign or leading zeros.
pub open spec fn decimal_text(n: nat) -> Seq<char>
    decreases n,
{
    if n < 10 {
        seq![digit_char(n)]
    } else {
        decimal_text(n / 10).push(digit_char(n % 10))
    }
}

/// Relies on `itoa::Buffer::format`, which writes the decimal digits of the
/// integer into the buffer.
#[verifier::external_body]
fn format_integer(buffer: &mut itoa::Buffer, n: u128) -> (r: String)
    ensures
        r@ == decimal_text(n as nat),
{
    buffer.format(n).to_owned()
}

/// `path` under `base`, with one `/` between them.
pub open spec fn joined(base: Seq<char>, path: Seq<char>) -> Seq<char> {
    if base.len() > 0 && base.last() == '/' {
        base + path
    } else {
        base + seq!['/'] + path
    }
}

fn join_path(base: &str, path: &str) -> (r: String)
    ensures
        r@ == joined(base@, path@),
{
    let n = base.unicode_len();
    let mut out = base.to_owned();
    if n == 0 || base.get_char(n - 1) != '/' {
        out.append("/");
        proof {
            reveal_strlit("/");
        }
    }
    out.append(path);
    out
}

pub open spec fn form_value(s: Seq<char>) -> Seq<char> {
    form_encoded(encode_utf8(s))
}

pub open spec fn bar_param(req: OkxHttpCandleDataRequest) -> Seq<char> {
    match req.bar {
        Some(bar) => "&bar="@ + form_value(bar@),
        None => Seq::empty(),
    }
}

pub open spec fn after_param(req: OkxHttpCandleDataRequest) -> Seq<char> {
    match req.after {
        Some(after) => "&after="@ + decimal_text(after as nat),
        None => Seq::empty(),
    }
}

pub open spec fn before_param(req: OkxHttpCandleDataRequest) -> Seq<char> {
    match req.before {
        Some(before) => "&before="@ + decimal_text(before as nat),
        None => Seq::empty(),
    }
}

pub open spec fn limit_param(req: OkxHttpCandleDataRequest) -> Seq<char> {
    match req.limit {
        Some(limit) => "&limit="@ + decimal_text(limit as nat),
        None => Seq::empty(),
    }
}

/// The query of a candle request, parameters in a fixed order, the absent ones
/// left out: `instId`, `bar`, `after`, `before`, `limit`. Text values are form
/// encoded; numbers are their decimal digits, which form encoding keeps.
pub open spec fn candles_query(req: OkxHttpCandleDataRequest) -> Seq<char> {
    "instId="@ + form_value(req.inst_id@) + bar_param(req) + after_param(req) + before_param(req)
        + limit_param(req)
}

/// The exchange's REST base, used when no other is given.
pub const DEFAULT_BASE_HTTP_URL: &'static str = "https://www.okx.com/";

/// The exchange's WebSocket base, used when no other is given.
pub const DEFAULT_BASE_WS_URI: &'static str = "wss://wspap.okx.com/";

/// Path of candle history under the REST base.
pub const CANDLES_PATH: &'static str = "api/v5/market/candles";

pub const PUBLIC_WS_PATH: &'static str = "ws/v5/public";

pub const BUSINESS_WS_PATH: &'static str = "ws/v5/business";

/// The WebSocket endpoints: market data such as books and trades is public,
/// candles are business.
#[derive(Debug, Clone, Copy, PartialEq, Eq, Structural)]
pub enum ChannelFamily {
    Public,
    Business,
}

pub open spec fn family_path(family: ChannelFamily) -> Seq<char> {
    match family {
        ChannelFamily::Public => PUBLIC_WS_PATH@,
        ChannelFamily::Business => BUSINESS_WS_PATH@,
    }
}

/// A base address that does not parse; it holds the text.
#[derive(Debug, Clone, PartialEq, Eq)]
pub enum ClientError {
    InvalidHttpUrl(String),
    InvalidWsUri(String),
}

/// Configuration of one OKX client, and the scratch buffer that formats the
/// integers of its queries.
pub struct OkxClientV5 {
    base_http_url: String,
    base_ws_uri: String,
    api_key: Option<String>,
    api_passphrase: Option<String>,
    itoa_buffer: itoa::Buffer,
}

impl OkxClientV5 {
    /// The REST base, as the URL parser wrote it.
    pub closed spec fn http_base(&self) -> Seq<char> {
        self.base_http_url@
    }

    /// The WebSocket base, as the URI parser wrote it.
    pub closed spec fn ws_base(&self) -> Seq<char> {
        self.base_ws_uri@
    }

    pub closed spec fn spec_api_key(&self) -> Option<String> {
        self.api_key
    }

    pub closed spec fn spec_api_passphrase(&self) -> Option<String> {
        self.api_passphrase
    }

    /// A client for the given bases and optional credentials. Either base that
    /// does not parse is an error, the REST base checked first.
    pub fn new(
        base_http_url: &str,
        base_ws_uri: &str,
        api_key: Option<String>,
        api_passphrase: Option<String>,
    ) -> (r: Result<Self, ClientError>)
        ensures
            parsed_url(base_http_url@) is None ==> r is Err && r->Err_0 is InvalidHttpUrl
                && r->Err_0->InvalidHttpUrl_0@ == base_http_url@,
            parsed_url(base_http_url@) is Some && parsed_uri(base_ws_uri@) is None ==> r is Err
                && r->Err_0 is InvalidWsUri && r->Err_0->InvalidWsUri_0@ == base_ws_uri@,
            parsed_url(base_http_url@) is Some && parsed_uri(base_ws_uri@) is Some ==> r is Ok
                && r->Ok_0.http_base() == parsed_url(base_http_url@)->0 && r->Ok_0.ws_base()
                == parsed_uri(base_ws_uri@)->0 && r->Ok_0.spec_api_key() == api_key
                && r->Ok_0.spec_api_passphrase() == api_passphrase,
    {
        let http = match normalize_url(base_http_url) {
            Ok(t) => t,
            Err(_) => {
                return Err(ClientError::InvalidHttpUrl(base_http_url.to_owned()));
            },
        };
        let ws = match normalize_uri(base_ws_uri) {
            Ok(t) => t,
            Err(_) => {
                return Err(ClientError::InvalidWsUri(base_ws_uri.to_owned()));
            },
        };
        Ok(OkxClientV5 {
            base_http_url: http,
            base_ws_uri: ws,
            api_key,
            api_passphrase,
            itoa_buffer: itoa::Buffer::new(),
        })
    }

    pub fn api_key(&self) -> (r: &Option<String>)
        ensures
            *r == self.spec_api_key(),
    {
        &self.api_key
    }

    pub fn api_passphrase(&self) -> (r: &Option<String>)
        ensures
            *r == self.spec_api_passphrase(),
    {
        &self.api_passphrase
    }

    /// The query string of a candle request.
    pub fn candles_query(&mut self, req: &OkxHttpCandleDataRequest) -> (r: String)
        ensures
            r@ == candles_query(*req),
            final(self).http_base() == old(self).http_base(),
            final(self).ws_base() == old(self).ws_base(),
            final(self).spec_api_key() == old(self).spec_api_key(),
            final(self).spec_api_passphrase() == old(self).spec_api_passphrase(),
    {
        let mut out = String::new();
        out.append("instId=");
        out.append(form_encode(req.inst_id.as_str()).as_str());
        assert(out@ =~= "instId="@ + form_value(req.inst_id@));
        let ghost q = out@;
        match &req.bar {
            Some(bar) => {
                out.append("&bar=");
                out.append(form_encode(bar.as_str()).as_str());
            },
            None => {},
        }
        assert(out@ =~= q + bar_param(*req));
        let ghost q = out@;
        match req.after {
            Some(after) => {
                out.append("&after=");
                out.append(format_integer(&mut self.itoa_buffer, after).as_str());
            },
            None => {},
        }
        assert(out@ =~= q + after_param(*req));
        let ghost q = out@;
        match req.before {
            Some(before) => {
                out.append("&before=");
                out.append(format_integer(&mut self.itoa_buffer, before).as_str());
            },
            None => {},
        }
        assert(out@ =~= q + before_param(*req));
        let ghost q = out@;
        match req.limit {
            Some(limit) => {
                out.append("&limit=");
                out.append(format_integer(&mut self.itoa_buffer, limit as u128).as_str());
            },
            None => {},
        }
        assert(out@ =~= q + limit_param(*req));
        out
    }

    /// The full address of a candle request: the candle path joined to the REST
    /// base, then `?` and the query.
    pub fn candles_url(&mut self, req: &OkxHttpCandleDataRequest) -> (r: String)
        ensures
            r@ == joined(old(self).http_base(), CANDLES_PATH@) + seq!['?'] + candles_query(*req),
            final(self).http_base() == old(self).http_base(),
            final(self).ws_base() == old(self).ws_base(),
            final(self).spec_api_key() == old(self).spec_api_key(),
            final(self).spec_api_passphrase() == old(self).spec_api_passphrase(),
    {
        let mut out = join_path(self.base_http_url.as_str(), CANDLES_PATH);
        out.append("?");
        let query = self.candles_query(req);
        out.append(query.as_str());
        proof {
            reveal_strlit("?");
        }
        out
    }

    /// The WebSocket endpoint of a channel family.
    pub fn ws_endpoint(&self, family: ChannelFamily) -> (r: String)
        ensures
            r@ == joined(self.ws_base(), family_path(family)),
    {
        let path = match family {
            ChannelFamily::Public => PUBLIC_WS_PATH,
            ChannelFamily::Business => BUSINESS_WS_PATH,
        };
        join_path(self.base_ws_uri.as_str(), path)
    }
}

impl ExchangeTrait for OkxClientV5 {
    const NAME: &'static str = "okx";

    const BASE_URL: &'static str = DEFAULT_BASE_HTTP_URL;
}

} // verus!
