use alpaca_finance::alpaca::HttpMethod;
use alpaca_finance::num::Decimal;
use alpaca_finance::order::OrderSide;
use alpaca_finance::{Alpaca, Error, Order, OrderStatus, OrderType, TimeInForce};

fn open_order_json() -> String {
    let mut s = String::new();
    s.push_str("[{\"id\":\"904837e3-3b76-47ec-b432-046db621571b\",");
    s.push_str("\"asset_class\":\"us_equity\",");
    s.push_str("\"client_order_id\":\"904837e3-3b76-47ec-b432-046db621571b\",");
    s.push_str("\"extended_hours\":false,");
    s.push_str("\"filled_qty\":\"0\",");
    s.push_str("\"filled_avg_price\":null,");
    s.push_str("\"limit_price\":\"107.00\",");
    s.push_str("\"type\":\"limit\",");
    s.push_str("\"qty\":\"15\",");
    s.push_str("\"side\":\"buy\",");
    s.push_str("\"status\":\"new\",");
    s.push_str("\"stop_price\":null,");
    s.push_str("\"symbol\":\"AAPL\",");
    s.push_str("\"time_in_force\":\"day\"}]");
    s
}

fn sample_order() -> Order {
    Order {
        id: "904837e3-3b76-47ec-b432-046db621571b".to_string(),
        asset_class: "us_equity".to_string(),
        client_order_id: "904837e3-3b76-47ec-b432-046db621571b".to_string(),
        extended_hours: false,
        filled_qty: 0,
        filled_avg_price: None,
        limit_price: Some(Decimal::new(false, 10700, 2)),
        order_type: OrderType::Limit,
        qty: 15,
        side: OrderSide::Buy,
        status: OrderStatus::New,
        stop_price: None,
        symbol: "AAPL".to_string(),
        time_in_force: TimeInForce::DAY,
    }
}

#[test]
fn get_open() {
    //! Ensure that we can load valid open orders

    // GIVEN - a valid open order in place
    let body = open_order_json();

    // WHEN - we get our open orders
    let orders = Order::open_orders_outcome(200, &body).unwrap();

    // THEN - we get the results we expect
    assert_eq!(1, orders.len());
    assert_eq!(orders[0].id, "904837e3-3b76-47ec-b432-046db621571b");
    assert_eq!(orders[0].client_order_id, "904837e3-3b76-47ec-b432-046db621571b");
}

#[test]
fn limit_order_without_limit_price_is_invalid() {
    // a Limit order without a limit price is rejected before any request
    let alpaca = Alpaca::new(true, "someKey", "someSecret", None);
    let builder = Order::buy("AAPL", 100, OrderType::Limit, TimeInForce::DAY);
    match builder.place_parts(&alpaca) {
        Err(Error::OrderInvalid { reason }) => {
            assert_eq!("Limit orders need a limit price.", reason);
        }
        _ => panic!("Expected an invalid order"),
    }
    // no request parts exist for it, so nothing can reach the network
}

#[test]
fn stop_order_without_stop_price_is_invalid() {
    let alpaca = Alpaca::new(true, "someKey", "someSecret", None);
    let builder = Order::sell("AAPL", 100, OrderType::StopLimit, TimeInForce::DAY)
        .limit_price(Decimal::new(false, 100, 0));
    match builder.place_parts(&alpaca) {
        Err(Error::OrderInvalid { reason }) => {
            assert_eq!("Stop orders need a stop price.", reason);
        }
        _ => panic!("Expected an invalid order"),
    }
}

#[test]
fn extended_hours_requires_day_limit_order() {
    // extended hours with TimeInForce other than DAY is invalid
    let builder = Order::buy("AAPL", 100, OrderType::Limit, TimeInForce::GTC)
        .limit_price(Decimal::new(false, 100, 0))
        .extended_hours(true);
    match builder.validate() {
        Err(Error::OrderInvalid { reason }) => {
            assert_eq!("Extended hours only works limit orders for today", reason);
        }
        _ => panic!("Expected an invalid order"),
    }

    // extended hours with an order type other than Limit is invalid
    let builder = Order::buy("AAPL", 100, OrderType::Market, TimeInForce::DAY).extended_hours(
        true,
    );
    assert!(matches!(builder.validate(), Err(Error::OrderInvalid { .. })));

    // a day limit order may trade in extended hours
    let builder = Order::buy("AAPL", 100, OrderType::Limit, TimeInForce::DAY)
        .limit_price(Decimal::new(false, 100, 0))
        .extended_hours(true);
    assert!(builder.validate().is_ok());
}

#[test]
fn cancel_maps_status_to_errors() {
    let order = sample_order();
    assert!(order.cancel_outcome(204).is_ok());
    match order.cancel_outcome(404) {
        Err(Error::OrderNotFound { order_id }) => {
            assert_eq!("904837e3-3b76-47ec-b432-046db621571b", order_id);
        }
        _ => panic!("Expected OrderNotFound"),
    }
    match order.cancel_outcome(422) {
        Err(Error::OrderNotCancelable { order_id }) => {
            assert_eq!("904837e3-3b76-47ec-b432-046db621571b", order_id);
        }
        _ => panic!("Expected OrderNotCancelable"),
    }
    assert!(matches!(order.cancel_outcome(500), Err(Error::Unknown)));
}

#[test]
fn place_maps_status_to_errors() {
    assert!(matches!(
        alpaca_finance::OrderBuilder::place_outcome(403, ""),
        Err(Error::OrderForbidden)
    ));
    assert!(matches!(
        alpaca_finance::OrderBuilder::place_outcome(500, ""),
        Err(Error::Unknown)
    ));
    assert!(matches!(
        alpaca_finance::OrderBuilder::place_outcome(200, "not json"),
        Err(Error::BadData)
    ));
}

#[test]
fn order_body_is_exact() {
    let builder = Order::buy("AAPL", 100, OrderType::Limit, TimeInForce::DAY).limit_price(
        Decimal::new(false, 1005, 1),
    );
    let mut expected = String::new();
    expected.push_str("{\"extended_hours\":false,\"limit_price\":100.5,");
    expected.push_str("\"type\":\"limit\",\"qty\":\"100\",\"side\":\"buy\",");
    expected.push_str("\"symbol\":\"AAPL\",\"time_in_force\":\"day\"}");
    assert_eq!(expected, builder.body());
}

#[test]
fn update_body_holds_only_set_fields() {
    let order = sample_order();
    let updater = order.update().qty(20).limit_price(Decimal::new(false, 10050, 2));
    assert_eq!("{\"limit_price\":\"100.50\",\"qty\":\"20\"}", updater.body());

    let updater = order.update();
    assert_eq!("{}", updater.body());

    let updater = order.update().time_in_force(TimeInForce::GTC);
    assert_eq!("{\"time_in_force\":\"GTC\"}", updater.body());
}

#[test]
fn request_carries_credential_headers() {
    let alpaca = Alpaca::new(false, "myKey", "mySecret", None);
    let parts = alpaca.request(HttpMethod::Get, "v2/account").unwrap();
    assert_eq!("https://paper-api.alpaca.markets/v2/account", parts.url);
    assert!(matches!(parts.method, HttpMethod::Get));
    assert_eq!(2, parts.headers.len());
    assert_eq!("APCA-API-KEY-ID", parts.headers[0].0);
    assert_eq!("myKey", parts.headers[0].1);
    assert_eq!("APCA-API-SECRET-KEY", parts.headers[1].0);
    assert_eq!("mySecret", parts.headers[1].1);
}

#[test]
fn unusable_host_fails_before_any_request() {
    let alpaca = Alpaca::new(true, "someKey", "someSecret", Some("not a url".to_string()));
    assert!(matches!(
        alpaca.request(HttpMethod::Get, "v2/account"),
        Err(Error::InternalURL)
    ));
}

#[test]
fn probe_outcome_maps_statuses() {
    assert!(Alpaca::probe_outcome(200, "https://x/v2/clock").is_ok());
    assert!(matches!(
        Alpaca::probe_outcome(401, "https://x/v2/clock"),
        Err(Error::InvalidCredentials)
    ));
    assert!(matches!(
        Alpaca::probe_outcome(403, "https://x/v2/clock"),
        Err(Error::InvalidCredentials)
    ));
    match Alpaca::probe_outcome(500, "https://x/v2/clock") {
        Err(Error::CallFailed { url, status }) => {
            assert_eq!("https://x/v2/clock", url);
            assert_eq!(500, status);
        }
        _ => panic!("Expected CallFailed"),
    }
}

#[test]
fn errors_describe_themselves() {
    let order = sample_order();
    let err = match order.cancel_outcome(404) {
        Err(e) => e,
        _ => panic!("Expected an error"),
    };
    assert_eq!(
        "The order '904837e3-3b76-47ec-b432-046db621571b' was not found",
        err.message()
    );
    let err = match Alpaca::probe_outcome(500, "https://x/v2/clock") {
        Err(e) => e,
        _ => panic!("Expected an error"),
    };
    assert_eq!("Alpaca call failed. 'https://x/v2/clock' returned a 500 result.", err.message());
    assert_eq!(
        "The key ID or secret key were not accepted",
        Error::InvalidCredentials.message()
    );
}

#[test]
fn open_orders_failures_map_to_errors() {
    assert!(matches!(
        Order::open_orders_outcome(401, "[]"),
        Err(Error::InvalidCredentials)
    ));
    assert!(matches!(
        Order::open_orders_outcome(200, "{\"not\":\"a list\"}"),
        Err(Error::BadData)
    ));
    assert!(Order::open_orders_outcome(200, "[]").unwrap().is_empty());
}
