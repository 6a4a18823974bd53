use tinkoff_invest::domain::{BrokerAccountType, Interval, Operation};
use tinkoff_invest::rest::{check_status, classify_response, receive_response, render_status};
use tinkoff_invest::{ApiRequest, Error, Method, TinkoffInvestClient};

fn pairs(q: &[(String, String)]) -> Vec<(&str, &str)> {
    q.iter().map(|(k, v)| (k.as_str(), v.as_str())).collect()
}

#[test]
fn order_book_query_is_exact() {
    let r = ApiRequest::order_book("figi_0", 1);
    assert_eq!(r.method, Method::Get);
    assert_eq!(r.path, "/market/orderbook");
    assert_eq!(pairs(&r.query), vec![("figi", "figi_0"), ("depth", "1")]);
    assert_eq!(r.body, "");
}

#[test]
fn order_book_negative_depth() {
    let r = ApiRequest::order_book("f", -20);
    assert_eq!(pairs(&r.query), vec![("figi", "f"), ("depth", "-20")]);
}

#[test]
fn listings_have_no_query() {
    for (r, p) in [
        (ApiRequest::stocks(), "/market/stocks"),
        (ApiRequest::bonds(), "/market/bonds"),
        (ApiRequest::etfs(), "/market/etfs"),
        (ApiRequest::currencies(), "/market/currencies"),
        (ApiRequest::accounts(), "/user/accounts"),
    ] {
        assert_eq!(r.method, Method::Get);
        assert_eq!(r.path, p);
        assert!(r.query.is_empty());
    }
}

#[test]
fn candles_query() {
    let r = ApiRequest::candles("figi_0", "2020-01-01T00:00:00+03:00", "2020-01-02T00:00:00+03:00", Interval::_1min);
    assert_eq!(r.path, "/market/candles");
    assert_eq!(
        pairs(&r.query),
        vec![
            ("figi", "figi_0"),
            ("from", "2020-01-01T00:00:00+03:00"),
            ("to", "2020-01-02T00:00:00+03:00"),
            ("interval", "1min"),
        ]
    );
}

#[test]
fn search_queries() {
    let r = ApiRequest::search_by_figi("figi_0");
    assert_eq!(r.path, "/market/search/by-figi");
    assert_eq!(pairs(&r.query), vec![("figi", "figi_0")]);
    let r = ApiRequest::search_by_ticker("ticker_0");
    assert_eq!(r.path, "/market/search/by-ticker");
    assert_eq!(pairs(&r.query), vec![("ticker", "ticker_0")]);
}

#[test]
fn operations_query() {
    let r = ApiRequest::operations("A", "B", Some("figi_0"), Some("account_123"));
    assert_eq!(r.path, "/operations");
    assert_eq!(
        pairs(&r.query),
        vec![("brokerAccountId", "account_123"), ("figi", "figi_0"), ("from", "A"), ("to", "B")]
    );
    let r = ApiRequest::operations("A", "B", None, None);
    assert_eq!(pairs(&r.query), vec![("from", "A"), ("to", "B")]);
}

#[test]
fn order_requests() {
    let r = ApiRequest::orders(Some("account_123"));
    assert_eq!((r.method, r.path.as_str()), (Method::Get, "/orders"));
    assert_eq!(pairs(&r.query), vec![("brokerAccountId", "account_123")]);
    assert!(ApiRequest::orders(None).query.is_empty());

    let r = ApiRequest::make_limit_order("figi_0", Some("account_123"), "{\"operation\":\"Buy\",\"lots\":10,\"price\":12.34}".to_string());
    assert_eq!((r.method, r.path.as_str()), (Method::Post, "/orders/limit-order"));
    assert_eq!(pairs(&r.query), vec![("brokerAccountId", "account_123"), ("figi", "figi_0")]);
    assert_eq!(r.body, "{\"operation\":\"Buy\",\"lots\":10,\"price\":12.34}");

    let r = ApiRequest::make_market_order("figi_0", Some("account_123"), Operation::Buy, 10).unwrap();
    assert_eq!((r.method, r.path.as_str()), (Method::Post, "/orders/market-order"));
    assert_eq!(pairs(&r.query), vec![("brokerAccountId", "account_123"), ("figi", "figi_0")]);
    assert_eq!(r.body, "{\"operation\":\"Buy\",\"lots\":10}");

    let r = ApiRequest::make_market_order("f", None, Operation::Sell, -1).unwrap();
    assert_eq!(pairs(&r.query), vec![("figi", "f")]);
    assert_eq!(r.body, "{\"operation\":\"Sell\",\"lots\":-1}");

    let r = ApiRequest::cancel_order("order_0", Some("account_123"));
    assert_eq!((r.method, r.path.as_str()), (Method::Post, "/orders/cancel"));
    assert_eq!(pairs(&r.query), vec![("brokerAccountId", "account_123"), ("orderId", "order_0")]);
    assert_eq!(r.body, "");
}

#[test]
fn portfolio_requests() {
    let r = ApiRequest::portfolio(Some("account_123"));
    assert_eq!((r.method, r.path.as_str()), (Method::Get, "/portfolio"));
    assert_eq!(pairs(&r.query), vec![("brokerAccountId", "account_123")]);
    let r = ApiRequest::portfolio_currencies(None);
    assert_eq!(r.path, "/portfolio/currencies");
    assert!(r.query.is_empty());
}

#[test]
fn sandbox_requests() {
    let r = ApiRequest::register(BrokerAccountType::Tinkoff).unwrap();
    assert_eq!((r.method, r.path.as_str()), (Method::Post, "/sandbox/register"));
    assert!(r.query.is_empty());
    assert_eq!(r.body, "{\"brokerAccountType\":\"Tinkoff\"}");
    assert_eq!(ApiRequest::register(BrokerAccountType::TinkoffIis).unwrap().body, "{\"brokerAccountType\":\"TinkoffIis\"}");

    let r = ApiRequest::set_currencies_balance(Some("account_123"), "{\"currency\":\"RUB\",\"balance\":1000.0}".to_string());
    assert_eq!(r.path, "/sandbox/currencies/balance");
    assert_eq!(pairs(&r.query), vec![("brokerAccountId", "account_123")]);
    assert_eq!(r.body, "{\"currency\":\"RUB\",\"balance\":1000.0}");

    let r = ApiRequest::set_positions_balance(Some("account_123"), "{\"figi\":\"some_figi\",\"balance\":1000.0}".to_string());
    assert_eq!(r.path, "/sandbox/positions/balance");
    assert_eq!(r.body, "{\"figi\":\"some_figi\",\"balance\":1000.0}");

    for (r, p) in [(ApiRequest::remove(Some("account_123")), "/sandbox/remove"), (ApiRequest::clear(Some("account_123")), "/sandbox/clear")] {
        assert_eq!((r.method, r.path.as_str()), (Method::Post, p));
        assert_eq!(pairs(&r.query), vec![("brokerAccountId", "account_123")]);
        assert_eq!(r.body, "");
    }
}

fn client() -> TinkoffInvestClient {
    TinkoffInvestClient::new(reqwest::Client::new(), "http://127.0.0.1:1234", "token123")
}

#[test]
fn prepare_addresses_and_authorizes() {
    let c = client();
    let p = c.prepare(ApiRequest::order_book("figi_0", 1));
    assert_eq!(p.method, Method::Get);
    assert_eq!(p.url, "http://127.0.0.1:1234/market/orderbook");
    assert_eq!(pairs(&p.headers), vec![("Content-Type", "application/json"), ("Authorization", "Bearer token123")]);
    assert_eq!(pairs(&p.query), vec![("figi", "figi_0"), ("depth", "1")]);
    assert_eq!(c.authorization(), "Bearer token123");
}

#[test]
fn upgrade_request_carries_credential() {
    let c = client();
    let r = c.upgrade_request("ws://127.0.0.1:1234/openapi/md/v1/md-openapi/ws");
    assert_eq!(r.method, Method::Get);
    assert_eq!(r.url, "ws://127.0.0.1:1234/openapi/md/v1/md-openapi/ws");
    assert_eq!(pairs(&r.headers), vec![("Authorization", "Bearer token123")]);
    assert!(r.query.is_empty());
    assert_eq!(r.body, "");
}

#[test]
fn bad_upgrade_uri_is_handshake_error() {
    let c = client();
    let r = c.upgrade_request("ws://bad host/");
    let built = http::Request::builder().method("GET").uri(r.url.as_str()).body(());
    let e = Error::from(built.unwrap_err());
    assert!(matches!(e, Error::HandshakeError { .. }));
    assert_eq!(e.description(), "HTTP request failed");
}

#[test]
fn bodies_always_build() {
    assert!(ApiRequest::make_market_order("a\"b", None, Operation::Buy, 0).is_ok());
    assert!(ApiRequest::register(BrokerAccountType::TinkoffIis).is_ok());
}

#[test]
fn client_keeps_endpoint_and_token() {
    let c = client();
    let _http: &reqwest::Client = c.http_client();
    let p = c.prepare(ApiRequest::stocks());
    assert_eq!(p.url, "http://127.0.0.1:1234/market/stocks");
    assert_eq!(c.authorization(), "Bearer token123");
}

#[test]
fn unexpected_status_names_status_and_body() {
    match check_status(404, "no such thing".to_string()) {
        Err(Error::GeneralError { description }) => {
            assert_eq!(description, "Got unexpected response, status=404 Not Found text=no such thing")
        }
        _ => panic!("expected a general error"),
    }
    match check_status(599, String::new()) {
        Err(Error::GeneralError { description }) => {
            assert_eq!(description, "Got unexpected response, status=599 <unknown status code> text=")
        }
        _ => panic!("expected a general error"),
    }
}

#[test]
fn ok_status_hands_body_on() {
    assert_eq!(check_status(200, "{}".to_string()).unwrap(), "{}");
    assert!(matches!(check_status(201, "{}".to_string()), Err(Error::GeneralError { .. })));
}

#[test]
fn status_rendering_exact() {
    assert_eq!(render_status(200, Some("OK".to_string())), "200 OK");
    assert_eq!(render_status(7, None), "7 <unknown status code>");
    match classify_response(500, "500 Oops", "body".to_string()) {
        Err(Error::GeneralError { description }) => assert_eq!(description, "Got unexpected response, status=500 Oops text=body"),
        _ => panic!("expected a general error"),
    }
}

#[test]
fn malformed_ok_body_is_encoding_error() {
    let r = receive_response(200, "{\"trackingId\": ".to_string(), |t: String| serde_json::from_str::<serde_json::Value>(&t));
    assert!(matches!(r, Err(Error::EncodingError { .. })));
}

#[test]
fn well_formed_ok_body_decodes() {
    let body = "{\"trackingId\":\"t\",\"status\":\"Ok\",\"payload\":{\"total\":0}}";
    let v = receive_response(200, body.to_string(), |t: String| serde_json::from_str::<serde_json::Value>(&t)).unwrap();
    assert_eq!(v["payload"]["total"], 0);
    assert_eq!(v["trackingId"], "t");
}

#[test]
fn non_ok_body_is_not_decoded() {
    let r = receive_response(500, "{}".to_string(), |_t: String| -> Result<u8, serde_json::Error> { panic!("decoded") });
    match r {
        Err(Error::GeneralError { description }) => {
            assert!(description.contains("500"));
            assert!(description.contains("{}"));
        }
        _ => panic!("expected a general error"),
    }
}
