use tinkoff_invest::domain::Interval;
use tinkoff_invest::json::{join_members, lookup, render_object, Field, FieldValue};
use tinkoff_invest::stream::{InboundStream, IncomeEvent, OutboundFrame, Received};
use tinkoff_invest::{Error, OutcomeEvent};
use tokio_tungstenite::tungstenite;

fn json_error() -> serde_json::Error {
    serde_json::from_str::<serde_json::Value>("{\"event\":").unwrap_err()
}

fn candle(figi: &str, interval: Interval, request_id: Option<&str>) -> OutcomeEvent {
    OutcomeEvent::CandleSubscribe {
        figi: figi.to_string(),
        interval,
        request_id: request_id.map(|s| s.to_string()),
    }
}

#[test]
fn candle_subscribe_json_omits_missing_request_id() {
    let e = candle("BBG1", Interval::Day, None);
    assert_eq!(
        e.to_json().unwrap(),
        "{\"event\":\"candle:subscribe\",\"figi\":\"BBG1\",\"interval\":\"Day\"}"
    );
}

#[test]
fn candle_subscribe_json_with_request_id() {
    let e = candle("BBG1", Interval::_1min, Some("r-7"));
    assert_eq!(
        e.to_json().unwrap(),
        "{\"event\":\"candle:subscribe\",\"figi\":\"BBG1\",\"interval\":\"1min\",\"requestId\":\"r-7\"}"
    );
}

#[test]
fn orderbook_subscribe_uses_its_own_tag() {
    let e = OutcomeEvent::OrderbookSubscribe { figi: "F".to_string(), depth: 10, request_id: None };
    assert_eq!(e.to_json().unwrap(), "{\"event\":\"orderbook:subscribe\",\"figi\":\"F\",\"depth\":10}");
    let u = OutcomeEvent::OrderbookUnsubscribe { figi: "F".to_string(), depth: -3, request_id: None };
    assert_eq!(u.to_json().unwrap(), "{\"event\":\"orderbook:unsubscribe\",\"figi\":\"F\",\"depth\":-3}");
}

#[test]
fn instrument_info_json() {
    let e = OutcomeEvent::InstrumentInfoUnsubscribe { figi: "X".to_string(), request_id: Some("q".to_string()) };
    assert_eq!(
        e.to_json().unwrap(),
        "{\"event\":\"instrument_info:unsubscribe\",\"figi\":\"X\",\"requestId\":\"q\"}"
    );
}

#[test]
fn figi_is_escaped_in_json() {
    let e = OutcomeEvent::InstrumentInfoSubscribe { figi: "a\"b\\c".to_string(), request_id: None };
    let text = e.to_json().unwrap();
    assert_eq!(text, "{\"event\":\"instrument_info:subscribe\",\"figi\":\"a\\\"b\\\\c\"}");
    let v: serde_json::Value = serde_json::from_str(&text).unwrap();
    assert_eq!(v["figi"], "a\"b\\c");
}

fn all_commands() -> Vec<OutcomeEvent> {
    vec![
        candle("BBG1", Interval::Day, None),
        OutcomeEvent::CandleUnsubscribe { figi: "BBG2".to_string(), interval: Interval::_30min, request_id: Some("id1".to_string()) },
        OutcomeEvent::OrderbookSubscribe { figi: "BBG3".to_string(), depth: 20, request_id: None },
        OutcomeEvent::OrderbookUnsubscribe { figi: "BBG4".to_string(), depth: 1, request_id: Some("id2".to_string()) },
        OutcomeEvent::InstrumentInfoSubscribe { figi: "BBG5".to_string(), request_id: None },
        OutcomeEvent::InstrumentInfoUnsubscribe { figi: "BBG6".to_string(), request_id: Some("id3".to_string()) },
    ]
}

#[test]
fn fields_round_trip_every_command() {
    for e in all_commands() {
        let fields = e.fields().unwrap();
        assert_eq!(OutcomeEvent::from_fields(&fields), Some(e));
    }
}

#[test]
fn json_text_round_trip_every_command() {
    for e in all_commands() {
        let text = e.to_json().unwrap();
        let map: serde_json::Map<String, serde_json::Value> = serde_json::from_str(&text).unwrap();
        let mut fields = Vec::new();
        for (name, value) in map {
            let value = match value {
                serde_json::Value::String(s) => FieldValue::Text(s),
                serde_json::Value::Number(n) => FieldValue::Integer(n.as_i64().unwrap()),
                other => panic!("unexpected member {}", other),
            };
            fields.push(Field { name, value });
        }
        assert_eq!(OutcomeEvent::from_fields(&fields), Some(e));
    }
}

#[test]
fn from_fields_rejects_bad_members() {
    let f = |n: &str, v: FieldValue| Field { name: n.to_string(), value: v };
    let unknown_tag = vec![f("event", FieldValue::Text("candle:sub".to_string())), f("figi", FieldValue::Text("A".to_string()))];
    assert_eq!(OutcomeEvent::from_fields(&unknown_tag), None);
    let bad_interval = vec![
        f("event", FieldValue::Text("candle:subscribe".to_string())),
        f("figi", FieldValue::Text("A".to_string())),
        f("interval", FieldValue::Text("7min".to_string())),
    ];
    assert_eq!(OutcomeEvent::from_fields(&bad_interval), None);
    let wide_depth = vec![
        f("event", FieldValue::Text("orderbook:subscribe".to_string())),
        f("figi", FieldValue::Text("A".to_string())),
        f("depth", FieldValue::Integer(1 << 40)),
    ];
    assert_eq!(OutcomeEvent::from_fields(&wide_depth), None);
    let numeric_request_id = vec![
        f("event", FieldValue::Text("instrument_info:subscribe".to_string())),
        f("figi", FieldValue::Text("A".to_string())),
        f("requestId", FieldValue::Integer(3)),
    ];
    assert_eq!(OutcomeEvent::from_fields(&numeric_request_id), None);
    let extra_member = vec![
        f("figi", FieldValue::Text("A".to_string())),
        f("other", FieldValue::Integer(3)),
        f("event", FieldValue::Text("instrument_info:subscribe".to_string())),
    ];
    assert_eq!(
        OutcomeEvent::from_fields(&extra_member),
        Some(OutcomeEvent::InstrumentInfoSubscribe { figi: "A".to_string(), request_id: None })
    );
}

#[test]
fn lookup_takes_first_member_of_a_name() {
    let fields = vec![
        Field { name: "a".to_string(), value: FieldValue::Integer(1) },
        Field { name: "a".to_string(), value: FieldValue::Integer(2) },
    ];
    assert_eq!(lookup(&fields, "a"), Some(&FieldValue::Integer(1)));
    assert_eq!(lookup(&fields, "b"), None);
}

#[test]
fn join_members_exact() {
    assert_eq!(join_members(&vec![]), "{}");
    assert_eq!(join_members(&vec!["\"a\":1".to_string()]), "{\"a\":1}");
    assert_eq!(join_members(&vec!["x".to_string(), "y".to_string(), "z".to_string()]), "{x,y,z}");
}

#[test]
fn render_object_exact() {
    let fields = vec![
        Field { name: "n".to_string(), value: FieldValue::Integer(-12) },
        Field { name: "s".to_string(), value: FieldValue::Text("line\nbreak".to_string()) },
    ];
    assert_eq!(render_object(&fields).unwrap(), "{\"n\":-12,\"s\":\"line\\nbreak\"}");
}

#[test]
fn control_commands_become_control_frames() {
    assert_eq!(OutcomeEvent::Ping(vec![1, 2, 3]).into_frame().unwrap(), OutboundFrame::Ping(vec![1, 2, 3]));
    assert_eq!(OutcomeEvent::Pong(vec![9]).into_frame().unwrap(), OutboundFrame::Pong(vec![9]));
    assert_eq!(
        candle("BBG1", Interval::Day, None).into_frame().unwrap(),
        OutboundFrame::Text("{\"event\":\"candle:subscribe\",\"figi\":\"BBG1\",\"interval\":\"Day\"}".to_string())
    );
}

#[test]
fn close_frame_gives_one_close_item_then_nothing() {
    let mut s = InboundStream::new();
    let item = s.next_item::<u32>(Some(Ok(Received::Close)));
    assert!(matches!(item, Some(Ok(IncomeEvent::Close))));
    assert!(s.is_ended());
    assert!(s.next_item::<u32>(Some(Ok(Received::Text(Ok(5))))).is_none());
    assert!(s.next_item::<u32>(Some(Ok(Received::Close))).is_none());
}

#[test]
fn ping_frame_keeps_payload() {
    let mut s = InboundStream::new();
    let item = s.next_item::<u32>(Some(Ok(Received::Ping(vec![0, 255, 7]))));
    assert!(matches!(item, Some(Ok(IncomeEvent::Ping(ref b))) if b == &vec![0, 255, 7]));
    let item = s.next_item::<u32>(Some(Ok(Received::Pong(vec![4]))));
    assert!(matches!(item, Some(Ok(IncomeEvent::Pong(ref b))) if b == &vec![4]));
    let item = s.next_item::<u32>(Some(Ok(Received::Binary(vec![1, 2]))));
    assert!(matches!(item, Some(Ok(IncomeEvent::Binary(ref b))) if b == &vec![1, 2]));
    assert!(!s.is_ended());
}

#[test]
fn corrupted_text_frame_is_isolated() {
    let mut s = InboundStream::new();
    let frames: Vec<Result<u32, serde_json::Error>> = vec![Ok(1), Ok(2), Err(json_error()), Ok(4)];
    let mut out = Vec::new();
    for f in frames {
        out.push(s.next_item(Some(Ok(Received::Text(f)))));
    }
    assert!(matches!(out[0], Some(Ok(IncomeEvent::Market(1)))));
    assert!(matches!(out[1], Some(Ok(IncomeEvent::Market(2)))));
    assert!(matches!(out[2], Some(Err(Error::EncodingError { .. }))));
    assert!(matches!(out[3], Some(Ok(IncomeEvent::Market(4)))));
    assert!(!s.is_ended());
}

#[test]
fn transport_failure_ends_stream() {
    let mut s = InboundStream::new();
    let item = s.next_item::<u32>(Some(Err(tungstenite::Error::ConnectionClosed)));
    match item {
        Some(Err(Error::StreamTransportError { description, .. })) => assert_eq!(description, "HTTP request failed"),
        _ => panic!("expected a transport error"),
    }
    assert!(s.is_ended());
    assert!(s.next_item::<u32>(Some(Ok(Received::Text(Ok(1))))).is_none());
}

#[test]
fn exhausted_channel_ends_stream() {
    let mut s = InboundStream::new();
    assert!(s.next_item::<u32>(None).is_none());
    assert!(s.is_ended());
}
