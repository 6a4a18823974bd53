//! The REST side: what each endpoint sends, how a request is addressed and
//! authorized, and how the status of a response is classified.

use vstd::prelude::*;
use crate::domain::{BrokerAccountType, Interval, Operation, account_type_token, interval_token, operation_token};
use crate::error::Error;
use crate::json::{Field, FieldValue, json_string_literal, member_text, object_of_members, render_object};
use crate::text::{decimal, signed_decimal, signed_to_string, unsigned_to_string};

verus! {

/// HTTP method of an endpoint.
#[derive(Clone, Copy, Debug, PartialEq, Eq, Structural)]
pub enum Method {
    Get,
    Post,
}

/// What one endpoint call sends: method, path below the base endpoint, query
/// parameters (keys unique, order immaterial) and body (empty where absent).
#[derive(Clone, Debug, PartialEq, Eq)]
pub struct ApiRequest {
    pub method: Method,
    pub path: String,
    pub query: Vec<(String, String)>,
    pub body: String,
}

/// The query parameters as text pairs.
pub open spec fn query_view(q: Seq<(String, String)>) -> Seq<(Seq<char>, Seq<char>)> {
    q.map_values(|p: (String, String)| (p.0@, p.1@))
}

/// Whether `r` sends `method` to `path` with exactly the parameters `query`
/// and the body `body`.
pub open spec fn sends(
    r: ApiRequest,
    method: Method,
    path: Seq<char>,
    query: Seq<(Seq<char>, Seq<char>)>,
    body: Seq<char>,
) -> bool {
    &&& r.method == method
    &&& r.path@ == path
    &&& query_view(r.query@) == query
    &&& r.body@ == body
}

/// The view of an optional text argument.
pub open spec fn opt_view(o: Option<&str>) -> Option<Seq<char>> {
    match o {
        Some(s) => Some(s@),
        None => None,
    }
}

/// The parameter `name` where a value is given, nothing otherwise.
pub open spec fn optional_param(name: Seq<char>, v: Option<Seq<char>>) -> Seq<(Seq<char>, Seq<char>)> {
    match v {
        Some(s) => seq![(name, s)],
        None => Seq::empty(),
    }
}

/// The `brokerAccountId` parameter where an account is given.
pub open spec fn account_param(account: Option<&str>) -> Seq<(Seq<char>, Seq<char>)> {
    optional_param("brokerAccountId"@, opt_view(account))
}

fn pair(key: &str, value: &str) -> (r: (String, String))
    ensures
        r.0@ == key@,
        r.1@ == value@,
{
    (String::from_str(key), String::from_str(value))
}

fn no_query() -> (r: Vec<(String, String)>)
    ensures
        query_view(r@) == Seq::<(Seq<char>, Seq<char>)>::empty(),
{
    let r: Vec<(String, String)> = Vec::new();
    assert(query_view(r@) =~= Seq::<(Seq<char>, Seq<char>)>::empty());
    r
}

fn push_param(q: &mut Vec<(String, String)>, key: &str, value: &str)
    ensures
        query_view(final(q)@) == query_view(old(q)@).push((key@, value@)),
{
    q.push(pair(key, value));
    assert(query_view(final(q)@) =~= query_view(old(q)@).push((key@, value@)));
}

fn push_optional(q: &mut Vec<(String, String)>, key: &str, value: Option<&str>)
    ensures
        query_view(final(q)@) == query_view(old(q)@) + optional_param(key@, opt_view(value)),
{
    match value {
        Some(v) => push_param(q, key, v),
        None => {
            assert(query_view(old(q)@) + optional_param(key@, opt_view(value)) =~= query_view(old(q)@));
        },
    }
}

fn account_query(account: Option<&str>) -> (r: Vec<(String, String)>)
    ensures
        query_view(r@) == account_param(account),
{
    let mut q = no_query();
    push_optional(&mut q, "brokerAccountId", account);
    assert(Seq::<(Seq<char>, Seq<char>)>::empty() + account_param(account) =~= account_param(account));
    q
}

fn get(path: &str, query: Vec<(String, String)>) -> (r: ApiRequest)
    ensures
        r.method == Method::Get,
        r.path@ == path@,
        r.query == query,
        r.body@ == Seq::<char>::empty(),
{
    ApiRequest { method: Method::Get, path: String::from_str(path), query, body: String::new() }
}

fn post(path: &str, query: Vec<(String, String)>, body: String) -> (r: ApiRequest)
    ensures
        r.method == Method::Post,
        r.path@ == path@,
        r.query == query,
        r.body == body,
{
    ApiRequest { method: Method::Post, path: String::from_str(path), query, body }
}

impl ApiRequest {
    /// Listing of stocks.
    pub fn stocks() -> (r: ApiRequest)
        ensures
            sends(r, Method::Get, "/market/stocks"@, seq![], seq![]),
    {
        get("/market/stocks", no_query())
    }

    /// Listing of bonds.
    pub fn bonds() -> (r: ApiRequest)
        ensures
            sends(r, Method::Get, "/market/bonds"@, seq![], seq![]),
    {
        get("/market/bonds", no_query())
    }

    /// Listing of exchange-traded funds.
    pub fn etfs() -> (r: ApiRequest)
        ensures
            sends(r, Method::Get, "/market/etfs"@, seq![], seq![]),
    {
        get("/market/etfs", no_query())
    }

    /// Listing of currencies.
    pub fn currencies() -> (r: ApiRequest)
        ensures
            sends(r, Method::Get, "/market/currencies"@, seq![], seq![]),
    {
        get("/market/currencies", no_query())
    }

    /// Order book snapshot of an instrument, to the given depth.
    pub fn order_book(figi: &str, depth: i32) -> (r: ApiRequest)
        ensures
            sends(r, Method::Get, "/market/orderbook"@,
                seq![("figi"@, figi@), ("depth"@, signed_decimal(depth as int))], seq![]),
    {
        let depth_text = signed_to_string(depth as i64);
        let mut q = no_query();
        push_param(&mut q, "figi", figi);
        push_param(&mut q, "depth", depth_text.as_str());
        assert(query_view(q@) =~= seq![("figi"@, figi@), ("depth"@, signed_decimal(depth as int))]);
        get("/market/orderbook", q)
    }

    /// Historical candles of an instrument between two RFC 3339 instants.
    pub fn candles(figi: &str, from: &str, to: &str, interval: Interval) -> (r: ApiRequest)
        ensures
            sends(r, Method::Get, "/market/candles"@,
                seq![("figi"@, figi@), ("from"@, from@), ("to"@, to@), ("interval"@, interval_token(interval))],
                seq![]),
    {
        let mut q = no_query();
        push_param(&mut q, "figi", figi);
        push_param(&mut q, "from", from);
        push_param(&mut q, "to", to);
        push_param(&mut q, "interval", interval.as_str());
        assert(query_view(q@) =~= seq![("figi"@, figi@), ("from"@, from@), ("to"@, to@),
            ("interval"@, interval_token(interval))]);
        get("/market/candles", q)
    }

    /// Instrument lookup by FIGI.
    pub fn search_by_figi(figi: &str) -> (r: ApiRequest)
        ensures
            sends(r, Method::Get, "/market/search/by-figi"@, seq![("figi"@, figi@)], seq![]),
    {
        let mut q = no_query();
        push_param(&mut q, "figi", figi);
        assert(query_view(q@) =~= seq![("figi"@, figi@)]);
        get("/market/search/by-figi", q)
    }

    /// Instrument lookup by ticker.
    pub fn search_by_ticker(ticker: &str) -> (r: ApiRequest)
        ensures
            sends(r, Method::Get, "/market/search/by-ticker"@, seq![("ticker"@, ticker@)], seq![]),
    {
        let mut q = no_query();
        push_param(&mut q, "ticker", ticker);
        assert(query_view(q@) =~= seq![("ticker"@, ticker@)]);
        get("/market/search/by-ticker", q)
    }

    /// Trade history between two RFC 3339 instants, optionally for one
    /// instrument and one account.
    pub fn operations(from: &str, to: &str, figi: Option<&str>, broker_account_id: Option<&str>) -> (r: ApiRequest)
        ensures
            sends(r, Method::Get, "/operations"@,
                account_param(broker_account_id) + optional_param("figi"@, opt_view(figi))
                    + seq![("from"@, from@), ("to"@, to@)],
                seq![]),
    {
        let mut q = account_query(broker_account_id);
        push_optional(&mut q, "figi", figi);
        push_param(&mut q, "from", from);
        push_param(&mut q, "to", to);
        assert(query_view(q@) =~= account_param(broker_account_id) + optional_param("figi"@, opt_view(figi))
            + seq![("from"@, from@), ("to"@, to@)]);
        get("/operations", q)
    }

    /// Open orders.
    pub fn orders(broker_account_id: Option<&str>) -> (r: ApiRequest)
        ensures
            sends(r, Method::Get, "/orders"@, account_param(broker_account_id), seq![]),
    {
        get("/orders", account_query(broker_account_id))
    }

    /// A limit order on an instrument; `body` is its JSON form.
    pub fn make_limit_order(figi: &str, broker_account_id: Option<&str>, body: String) -> (r: ApiRequest)
        ensures
            sends(r, Method::Post, "/orders/limit-order"@,
                account_param(broker_account_id) + seq![("figi"@, figi@)], body@),
    {
        let mut q = account_query(broker_account_id);
        push_param(&mut q, "figi", figi);
        assert(query_view(q@) =~= account_param(broker_account_id) + seq![("figi"@, figi@)]);
        post("/orders/limit-order", q, body)
    }

    /// A market order on an instrument, with body `{"operation":..,"lots":..}`.
    pub fn make_market_order(figi: &str, broker_account_id: Option<&str>, operation: Operation, lots: i32)
        -> (r: Result<ApiRequest, Error>)
        ensures
            r matches Ok(req) ==> sends(req, Method::Post, "/orders/market-order"@,
                account_param(broker_account_id) + seq![("figi"@, figi@)],
                object_of_members(seq![
                    json_string_literal("operation"@) + ":"@ + json_string_literal(operation_token(operation)),
                    json_string_literal("lots"@) + ":"@ + signed_decimal(lots as int),
                ])),
            r is Ok,
    {
        let mut fields: Vec<Field> = Vec::new();
        fields.push(Field {
            name: String::from_str("operation"),
            value: FieldValue::Text(String::from_str(operation.as_str())),
        });
        fields.push(Field { name: String::from_str("lots"), value: FieldValue::Integer(lots as i64) });
        let body = render_object(&fields)?;
        assert(fields@.map_values(|f: Field| member_text(f)) =~= seq![
            json_string_literal("operation"@) + ":"@ + json_string_literal(operation_token(operation)),
            json_string_literal("lots"@) + ":"@ + signed_decimal(lots as int),
        ]);
        let mut q = account_query(broker_account_id);
        push_param(&mut q, "figi", figi);
        assert(query_view(q@) =~= account_param(broker_account_id) + seq![("figi"@, figi@)]);
        Ok(post("/orders/market-order", q, body))
    }

    /// Cancellation of an order.
    pub fn cancel_order(order_id: &str, broker_account_id: Option<&str>) -> (r: ApiRequest)
        ensures
            sends(r, Method::Post, "/orders/cancel"@,
                account_param(broker_account_id) + seq![("orderId"@, order_id@)], seq![]),
    {
        let mut q = account_query(broker_account_id);
        push_param(&mut q, "orderId", order_id);
        assert(query_view(q@) =~= account_param(broker_account_id) + seq![("orderId"@, order_id@)]);
        post("/orders/cancel", q, String::new())
    }

    /// Holdings of an account.
    pub fn portfolio(broker_account_id: Option<&str>) -> (r: ApiRequest)
        ensures
            sends(r, Method::Get, "/portfolio"@, account_param(broker_account_id), seq![]),
    {
        get("/portfolio", account_query(broker_account_id))
    }

    /// Currency holdings of an account.
    pub fn portfolio_currencies(broker_account_id: Option<&str>) -> (r: ApiRequest)
        ensures
            sends(r, Method::Get, "/portfolio/currencies"@, account_param(broker_account_id), seq![]),
    {
        get("/portfolio/currencies", account_query(broker_account_id))
    }

    /// Registration of a sandbox account, with body `{"brokerAccountType":..}`.
    pub fn register(broker_account_type: BrokerAccountType) -> (r: Result<ApiRequest, Error>)
        ensures
            r matches Ok(req) ==> sends(req, Method::Post, "/sandbox/register"@, seq![],
                object_of_members(seq![
                    json_string_literal("brokerAccountType"@) + ":"@
                        + json_string_literal(account_type_token(broker_account_type)),
                ])),
            r is Ok,
    {
        let mut fields: Vec<Field> = Vec::new();
        fields.push(Field {
            name: String::from_str("brokerAccountType"),
            value: FieldValue::Text(String::from_str(broker_account_type.as_str())),
        });
        let body = render_object(&fields)?;
        assert(fields@.map_values(|f: Field| member_text(f)) =~= seq![
            json_string_literal("brokerAccountType"@) + ":"@
                + json_string_literal(account_type_token(broker_account_type)),
        ]);
        Ok(post("/sandbox/register", no_query(), body))
    }

    /// Setting a currency balance of a sandbox account; `body` is its JSON form.
    pub fn set_currencies_balance(broker_account_id: Option<&str>, body: String) -> (r: ApiRequest)
        ensures
            sends(r, Method::Post, "/sandbox/currencies/balance"@, account_param(broker_account_id), body@),
    {
        post("/sandbox/currencies/balance", account_query(broker_account_id), body)
    }

    /// Setting a position balance of a sandbox account; `body` is its JSON form.
    pub fn set_positions_balance(broker_account_id: Option<&str>, body: String) -> (r: ApiRequest)
        ensures
            sends(r, Method::Post, "/sandbox/positions/balance"@, account_param(broker_account_id), body@),
    {
        post("/sandbox/positions/balance", account_query(broker_account_id), body)
    }

    /// Removal of a sandbox account.
    pub fn remove(broker_account_id: Option<&str>) -> (r: ApiRequest)
        ensures
            sends(r, Method::Post, "/sandbox/remove"@, account_param(broker_account_id), seq![]),
    {
        post("/sandbox/remove", account_query(broker_account_id), String::new())
    }

    /// Clearing of a sandbox account.
    pub fn clear(broker_account_id: Option<&str>) -> (r: ApiRequest)
        ensures
            sends(r, Method::Post, "/sandbox/clear"@, account_param(broker_account_id), seq![]),
    {
        post("/sandbox/clear", account_query(broker_account_id), String::new())
    }

    /// Accounts linked to the user.
    pub fn accounts() -> (r: ApiRequest)
        ensures
            sends(r, Method::Get, "/user/accounts"@, seq![], seq![]),
    {
        get("/user/accounts", no_query())
    }
}

/// Order book requests with the same query were made for the same instrument
/// and the same depth.
pub proof fn lemma_order_book_query_injective(figi1: &str, depth1: i32, figi2: &str, depth2: i32)
    requires
        seq![("figi"@, figi1@), ("depth"@, signed_decimal(depth1 as int))]
            == seq![("figi"@, figi2@), ("depth"@, signed_decimal(depth2 as int))],
    ensures
        figi1@ == figi2@,
        depth1 == depth2,
{
    let q1 = seq![("figi"@, figi1@), ("depth"@, signed_decimal(depth1 as int))];
    let q2 = seq![("figi"@, figi2@), ("depth"@, signed_decimal(depth2 as int))];
    assert(q1[0] == q2[0]);
    assert(q1[1] == q2[1]);
    crate::text::lemma_signed_decimal_injective(depth1 as int, depth2 as int);
}

/// Candle requests with the same query were made for the same instrument,
/// the same instants and the same interval.
pub proof fn lemma_candles_query_injective(
    figi1: &str, from1: &str, to1: &str, interval1: Interval,
    figi2: &str, from2: &str, to2: &str, interval2: Interval,
)
    requires
        seq![("figi"@, figi1@), ("from"@, from1@), ("to"@, to1@), ("interval"@, interval_token(interval1))]
            == seq![("figi"@, figi2@), ("from"@, from2@), ("to"@, to2@), ("interval"@, interval_token(interval2))],
    ensures
        figi1@ == figi2@,
        from1@ == from2@,
        to1@ == to2@,
        interval1 == interval2,
{
    let q1 = seq![("figi"@, figi1@), ("from"@, from1@), ("to"@, to1@), ("interval"@, interval_token(interval1))];
    let q2 = seq![("figi"@, figi2@), ("from"@, from2@), ("to"@, to2@), ("interval"@, interval_token(interval2))];
    assert(q1[0] == q2[0]);
    assert(q1[1] == q2[1]);
    assert(q1[2] == q2[2]);
    assert(q1[3] == q2[3]);
    crate::domain::lemma_interval_token_injective(interval1, interval2);
}

#[verifier::external_type_specification]
#[verifier::external_body]
pub struct ExClient(reqwest::Client);

/// A request ready to be sent: full URL, headers, query and body.
#[derive(Clone, Debug, PartialEq, Eq)]
pub struct PreparedRequest {
    pub method: Method,
    pub url: String,
    pub headers: Vec<(String, String)>,
    pub query: Vec<(String, String)>,
    pub body: String,
}

/// The credentialed session: HTTP client, base REST endpoint and bearer token,
/// fixed at construction.
pub struct TinkoffInvestClient {
    http_client: reqwest::Client,
    endpoint: String,
    token: String,
}

/// The `Authorization` header value for a token.
pub open spec fn bearer(token: Seq<char>) -> Seq<char> {
    "Bearer "@ + token
}

/// The headers of every REST call.
pub open spec fn rest_headers(token: Seq<char>) -> Seq<(Seq<char>, Seq<char>)> {
    seq![("Content-Type"@, "application/json"@), ("Authorization"@, bearer(token))]
}

impl TinkoffInvestClient {
    /// The base REST endpoint.
    pub closed spec fn endpoint_view(&self) -> Seq<char> {
        self.endpoint@
    }

    /// The HTTP client that carries the calls.
    pub closed spec fn http_client_view(&self) -> reqwest::Client {
        self.http_client
    }

    /// The bearer token.
    pub closed spec fn token_view(&self) -> Seq<char> {
        self.token@
    }

    pub fn new(http_client: reqwest::Client, endpoint: &str, token: &str) -> (r: TinkoffInvestClient)
        ensures
            r.http_client_view() == http_client,
            r.endpoint_view() == endpoint@,
            r.token_view() == token@,
    {
        TinkoffInvestClient {
            http_client,
            endpoint: String::from_str(endpoint),
            token: String::from_str(token),
        }
    }

    /// The HTTP client that carries the calls.
    pub fn http_client(&self) -> (r: &reqwest::Client)
        ensures
            *r == self.http_client_view(),
    {
        &self.http_client
    }

    /// The `Authorization` header value: `Bearer <token>`.
    pub fn authorization(&self) -> (r: String)
        ensures
            r@ == bearer(self.token_view()),
    {
        String::from_str("Bearer ").concat(self.token.as_str())
    }

    /// Addresses `request` below the base endpoint and adds the JSON content
    /// type and the bearer credential.
    pub fn prepare(&self, request: ApiRequest) -> (r: PreparedRequest)
        ensures
            r.method == request.method,
            r.url@ == self.endpoint_view() + request.path@,
            query_view(r.headers@) == rest_headers(self.token_view()),
            r.query == request.query,
            r.body == request.body,
    {
        let url = self.endpoint.clone().concat(request.path.as_str());
        let mut headers = no_query();
        push_param(&mut headers, "Content-Type", "application/json");
        let authorization = self.authorization();
        push_param(&mut headers, "Authorization", authorization.as_str());
        assert(query_view(headers@) =~= rest_headers(self.token_view()));
        PreparedRequest { method: request.method, url, headers, query: request.query, body: request.body }
    }

    /// The upgrade request for the event stream at `ws_endpoint`: a GET to that
    /// URL carrying the bearer credential and nothing else. Turning it into an
    /// HTTP request validates the URL and the header; a failure there is an
    /// `http::Error`, reported as a `HandshakeError` through `Error::from`.
    pub fn upgrade_request(&self, ws_endpoint: &str) -> (r: PreparedRequest)
        ensures
            r.method == Method::Get,
            r.url@ == ws_endpoint@,
            query_view(r.headers@) == seq![("Authorization"@, bearer(self.token_view()))],
            query_view(r.query@) == Seq::<(Seq<char>, Seq<char>)>::empty(),
            r.body@ == Seq::<char>::empty(),
    {
        let mut headers = no_query();
        let authorization = self.authorization();
        push_param(&mut headers, "Authorization", authorization.as_str());
        assert(query_view(headers@) =~= seq![("Authorization"@, bearer(self.token_view()))]);
        PreparedRequest {
            method: Method::Get,
            url: String::from_str(ws_endpoint),
            headers,
            query: no_query(),
            body: String::new(),
        }
    }
}

/// The canonical reason phrase that the `http` crate gives a status code.
pub uninterp spec fn reason_phrase(code: u16) -> Option<Seq<char>>;

/// Relies on `http::StatusCode::from_u16` and `canonical_reason`: the standard
/// reason phrase of a status code, none for codes outside 100..=999.
#[verifier::external_body]
fn canonical_reason(code: u16) -> (r: Option<String>)
    ensures
        match r {
            Some(s) => reason_phrase(code) == Some(s@),
            None => reason_phrase(code) is None,
        },
        !(100 <= code <= 999) ==> r is None,
{
    match http::StatusCode::from_u16(code) {
        Ok(status) => status.canonical_reason().map(String::from),
        Err(_) => None,
    }
}

/// The text of a status: its code, a space, its reason phrase.
pub open spec fn status_text(code: u16, reason: Option<Seq<char>>) -> Seq<char> {
    decimal(code as nat) + " "@ + match reason {
        Some(r) => r,
        None => "<unknown status code>"@,
    }
}

/// The description of a response with an unexpected status.
pub open spec fn unexpected_description(status: Seq<char>, body: Seq<char>) -> Seq<char> {
    "Got unexpected response, status="@ + status + " text="@ + body
}

/// Renders a status code with the given reason phrase (or a placeholder).
pub fn render_status(code: u16, reason: Option<String>) -> (r: String)
    ensures
        r@ == status_text(code, match reason { Some(s) => Some(s@), None => None }),
{
    let digits = unsigned_to_string(code as u64).concat(" ");
    match reason {
        Some(s) => digits.concat(s.as_str()),
        None => digits.concat("<unknown status code>"),
    }
}

/// Classifies a response given the rendered status: a body under status 200
/// is handed on unchanged, any other status is a `GeneralError` naming the
/// status and the body.
pub fn classify_response(code: u16, status: &str, body: String) -> (r: Result<String, Error>)
    ensures
        code == 200 ==> r == Ok::<String, Error>(body),
        code != 200 ==> (r matches Err(Error::GeneralError { description })
            && description@ == unexpected_description(status@, body@)),
{
    if code == 200 {
        Ok(body)
    } else {
        let description = String::from_str("Got unexpected response, status=")
            .concat(status)
            .concat(" text=")
            .concat(body.as_str());
        Err(Error::GeneralError { description })
    }
}

/// Classifies a response by its status code: a body under status 200 is handed
/// on unchanged, for decoding as the endpoint's envelope; any other status is a
/// `GeneralError` naming the status and the body.
pub fn check_status(code: u16, body: String) -> (r: Result<String, Error>)
    ensures
        code == 200 ==> r == Ok::<String, Error>(body),
        code != 200 ==> (r matches Err(Error::GeneralError { description })
            && description@ == unexpected_description(status_text(code, reason_phrase(code)), body@)),
{
    let status = render_status(code, canonical_reason(code));
    classify_response(code, status.as_str(), body)
}

/// Completes a REST call from its status code and body: under status 200 the
/// body is decoded by `decode`, whose failure is an `EncodingError` carrying the
/// decoder's error; any other status is a `GeneralError` naming the status and
/// the body, and nothing is decoded.
pub fn receive_response<T, F: FnOnce(String) -> Result<T, serde_json::Error>>(code: u16, body: String, decode: F)
    -> (r: Result<T, Error>)
    requires
        code == 200 ==> decode.requires((body,)),
    ensures
        code != 200 ==> (r matches Err(Error::GeneralError { description })
            && description@ == unexpected_description(status_text(code, reason_phrase(code)), body@)),
        code == 200 ==> match r {
            Ok(v) => decode.ensures((body,), Ok::<T, serde_json::Error>(v)),
            Err(Error::EncodingError { description, cause }) =>
                decode.ensures((body,), Err::<T, serde_json::Error>(cause))
                && description == "Serde serialization/deserialization error",
            Err(_) => false,
        },
{
    match check_status(code, body) {
        Ok(text) => match decode(text) {
            Ok(v) => Ok(v),
            Err(e) => Err(Error::from(e)),
        },
        Err(e) => Err(e),
    }
}

/// Whether `x` occurs in `s` as a contiguous run.
pub open spec fn occurs_in(x: Seq<char>, s: Seq<char>) -> bool {
    exists|i: int| 0 <= i && i + x.len() <= s.len() && #[trigger] s.subrange(i, i + x.len()) == x
}

/// The description of an unexpected response holds the numeric status code and
/// the whole body, verbatim.
pub proof fn lemma_unexpected_response_reported(code: u16, reason: Option<Seq<char>>, body: Seq<char>)
    ensures
        occurs_in(decimal(code as nat), unexpected_description(status_text(code, reason), body)),
        occurs_in(body, unexpected_description(status_text(code, reason), body)),
{
    let d = unexpected_description(status_text(code, reason), body);
    let prefix = "Got unexpected response, status="@;
    let digits = decimal(code as nat);
    let i = prefix.len() as int;
    assert(d.subrange(i, i + digits.len()) =~= digits);
    let j = d.len() - body.len();
    assert(d.subrange(j, j + body.len()) =~= body);
}

} // verus!
