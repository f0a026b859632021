use alpaca_finance::num::Decimal;
use alpaca_finance::streaming::{AuthorizationAction, AuthorizationStatus, OrderEvent,
    OutboundFrame, WireFrame};
use alpaca_finance::{Alpaca, Order, StreamMessage, Streamer};

fn order_json() -> String {
    let mut s = String::new();
    s.push_str("{\"id\":\"904837e3-3b76-47ec-b432-046db621571b\",");
    s.push_str("\"asset_class\":\"us_equity\",");
    s.push_str("\"client_order_id\":\"904837e3-3b76-47ec-b432-046db621571b\",");
    s.push_str("\"extended_hours\":false,");
    s.push_str("\"filled_qty\":\"15\",");
    s.push_str("\"filled_avg_price\":\"179.08\",");
    s.push_str("\"limit_price\":\"107.00\",");
    s.push_str("\"type\":\"limit\",");
    s.push_str("\"qty\":\"15\",");
    s.push_str("\"side\":\"buy\",");
    s.push_str("\"status\":\"filled\",");
    s.push_str("\"stop_price\":null,");
    s.push_str("\"symbol\":\"AAPL\",");
    s.push_str("\"time_in_force\":\"day\"}");
    s
}

fn fill_event_json() -> String {
    let mut s = String::new();
    s.push_str("{\"event\":\"fill\",\"timestamp\":\"2020-01-01T00:00:00Z\",");
    s.push_str("\"price\":\"179.08\",\"position_qty\":100,\"order\":");
    s.push_str(&order_json());
    s.push_str("}");
    s
}

fn fill_envelope() -> String {
    format!("{{\"stream\":\"trade_updates\",\"data\":{}}}", fill_event_json())
}

fn validate_order(order: Order) {
    assert_eq!(15, order.qty);
    assert_eq!("AAPL", order.symbol);
}

#[test]
fn authenticate() {
    // GiVEN - a valid response block
    let response = r#"{"stream":"authorization","data":{"action":"authenticate","status":"authorized"}}"#;

    // WHEN - we parse it
    let x: StreamMessage = StreamMessage::decode(response).unwrap();

    // THEN  - it's good
    match x {
        StreamMessage::Authorization(response) => {
            assert_eq!(AuthorizationAction::Authenticate, response.action);
            assert_eq!(AuthorizationStatus::Authorized, response.status);
        }
        _ => panic!("Wrong stream message"),
    }
}

#[test]
fn event_fill() {
    //! Ensure that we can parse fill events successfully

    // GIVEN - valid data for the 'fill' event
    let data = fill_event_json();

    // WHEN - we deserialize it
    let event = OrderEvent::from_text(&data).unwrap();

    // THEN - we get the data we expect
    match event {
        OrderEvent::Fill { order, price, qty, timestamp: _ } => {
            assert_eq!(100, qty);
            assert_eq!(Decimal::new(false, 17908, 2), price);
            validate_order(order);
        }
        _ => panic!("Expected a fill order event"),
    }
}

#[test]
fn authorization_is_consumed_internally() {
    let alpaca = Alpaca::new(true, "someKey", "someSecret", None);
    let mut streamer = Streamer::new(&alpaca);
    streamer.start();
    let auth = r#"{"stream":"authorization","data":{"action":"authenticate","status":"authorized"}}"#;
    let forwarded = streamer.on_frame(WireFrame::Text(auth.to_string()));
    assert!(forwarded.is_none());
}

#[test]
fn listening_is_consumed_internally() {
    let alpaca = Alpaca::new(true, "someKey", "someSecret", None);
    let mut streamer = Streamer::new(&alpaca);
    let ack = r#"{"stream":"listening","data":{"streams":["trade_updates","account_updates"]}}"#;
    let forwarded = streamer.on_frame(WireFrame::Text(ack.to_string()));
    assert!(forwarded.is_none());
}

#[test]
fn fill_event_is_forwarded() {
    let alpaca = Alpaca::new(true, "someKey", "someSecret", None);
    let mut streamer = Streamer::new(&alpaca);
    let forwarded = streamer.on_frame(WireFrame::Text(fill_envelope()));
    match forwarded {
        Some(StreamMessage::Order(OrderEvent::Fill { price, qty, .. })) => {
            assert_eq!(Decimal::new(false, 17908, 2), price);
            assert_eq!(100, qty);
        }
        _ => panic!("Expected a forwarded fill order event"),
    }
}

#[test]
fn binary_frame_decodes_as_utf8_text() {
    let alpaca = Alpaca::new(true, "someKey", "someSecret", None);
    let mut streamer = Streamer::new(&alpaca);
    let bytes = fill_envelope().into_bytes();
    let forwarded = streamer.on_frame(WireFrame::Binary(bytes));
    assert!(matches!(forwarded, Some(StreamMessage::Order(_))));

    // invalid UTF-8 drops the frame, not the connection
    let garbage = vec![0xffu8, 0xfe, 0x80];
    assert!(streamer.on_frame(WireFrame::Binary(garbage)).is_none());
    let forwarded = streamer.on_frame(WireFrame::Text(fill_envelope()));
    assert!(forwarded.is_some());
}

#[test]
fn malformed_frame_is_dropped_not_fatal() {
    let alpaca = Alpaca::new(true, "someKey", "someSecret", None);
    let mut streamer = Streamer::new(&alpaca);
    assert!(streamer.on_frame(WireFrame::Text("{not json".to_string())).is_none());
    assert!(streamer.on_frame(WireFrame::Text("{\"stream\":\"weird\",\"data\":{}}".to_string())).is_none());
    // the session still lives: a good frame still comes through
    assert!(streamer.on_frame(WireFrame::Text(fill_envelope())).is_some());
}

#[test]
fn start_queues_auth_then_listen() {
    let alpaca = Alpaca::new(true, "myKey", "mySecret", None);
    let mut streamer = Streamer::new(&alpaca);
    let endpoint = streamer.start();
    assert_eq!("wss://api.alpaca.markets/stream", endpoint);

    let first = match streamer.next_outbound() {
        Some(OutboundFrame::Text(s)) => s,
        _ => panic!("Expected the authentication frame first"),
    };
    assert_eq!(
        "{\"action\":\"authenticate\",\"data\":{\"key_id\":\"myKey\",\"secret_key\":\"mySecret\"}}",
        first
    );
    let second = match streamer.next_outbound() {
        Some(OutboundFrame::Text(s)) => s,
        _ => panic!("Expected the subscription frame second"),
    };
    assert_eq!(
        "{\"action\":\"listen\",\"data\":{\"streams\":[\"trade_updates\",\"account_updates\"]}}",
        second
    );
    assert!(streamer.next_outbound().is_none());
}

#[test]
fn ping_queues_a_pong() {
    let alpaca = Alpaca::new(true, "someKey", "someSecret", None);
    let mut streamer = Streamer::new(&alpaca);
    assert!(streamer.on_frame(WireFrame::Ping(vec![1, 2, 3])).is_none());
    match streamer.next_outbound() {
        Some(OutboundFrame::Pong(payload)) => assert_eq!(b"pong".to_vec(), payload),
        _ => panic!("Expected a queued pong"),
    }
}

#[test]
fn stop_silences_the_session() {
    let alpaca = Alpaca::new(true, "someKey", "someSecret", None);
    let mut streamer = Streamer::new(&alpaca);
    streamer.start();
    streamer.stop();
    // the writer sends nothing more, though frames are still queued
    assert!(streamer.next_outbound().is_none());
    // and nothing more is forwarded
    assert!(streamer.on_frame(WireFrame::Text(fill_envelope())).is_none());
    // a ping no longer queues a pong either
    assert!(streamer.on_frame(WireFrame::Ping(vec![])).is_none());
    assert!(streamer.next_outbound().is_none());
}

#[test]
fn close_frame_sets_shutdown() {
    let alpaca = Alpaca::new(true, "someKey", "someSecret", None);
    let mut streamer = Streamer::new(&alpaca);
    streamer.start();
    assert!(streamer.on_frame(WireFrame::Close).is_none());
    assert!(streamer.next_outbound().is_none());
    assert!(streamer.on_frame(WireFrame::Text(fill_envelope())).is_none());
}

#[test]
fn stream_target_from_override_host() {
    let alpaca = Alpaca::new(true, "someKey", "someSecret", Some("http://127.0.0.1:7777".to_string()));
    let mut streamer = Streamer::new(&alpaca);
    let endpoint = streamer.start();
    assert_eq!("ws://127.0.0.1:7777/stream", endpoint);
}

#[test]
fn credentials_are_escaped_in_the_auth_frame() {
    let alpaca = Alpaca::new(false, "a\"b", "c\\d", None);
    let mut streamer = Streamer::new(&alpaca);
    let endpoint = streamer.start();
    assert_eq!("wss://paper-api.alpaca.markets/stream", endpoint);
    match streamer.next_outbound() {
        Some(OutboundFrame::Text(s)) => assert_eq!(
            "{\"action\":\"authenticate\",\"data\":{\"key_id\":\"a\\\"b\",\"secret_key\":\"c\\\\d\"}}",
            s
        ),
        _ => panic!("Expected the authentication frame"),
    }
}
