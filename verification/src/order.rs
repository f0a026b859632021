//! Orders: their wire decoding, client-side validation, and the mapping of
//! order call responses to outcomes.

use vstd::prelude::*;
use vstd::string::StringExecFns;
use crate::alpaca::{url_join_of, Alpaca, HttpMethod, RequestParts};
use crate::encode::{spec_dec_str, spec_json_str, JsonBuf};
use crate::json::{spec_obj_get, spec_str_field, spec_opt_dec_field, spec_bool_field,
    spec_i32_field, jv_fields_view, jv_seq_view, lemma_jv_seq_view, json_of, obj_get, str_field,
    opt_dec_field, bool_field, i32_field, parse_json, JsonSpec, JsonValue};
use crate::num::Decimal;
use crate::text::str_eq;
use crate::Error;

verus! {

broadcast use vstd::std_specs::vec::group_vec_axioms, vstd::seq::group_seq_axioms;

/// Which side of the market an order stands on.
#[derive(Debug, Clone, Copy, PartialEq, Eq, Structural)]
pub enum OrderSide {
    Buy,
    Sell,
}

/// The status of an order in its lifecycle.
#[derive(Debug, Clone, Copy, PartialEq, Eq, Structural)]
pub enum OrderStatus {
    /// Received, but not yet routed to the execution venue.
    Accepted,
    /// Received by exchanges, and evaluated for pricing.
    AcceptedForBidding,
    /// Completed for the day, settlement calculations still pending.
    Calculated,
    /// Canceled; no further updates will occur.
    Canceled,
    /// Done executing for the day.
    DoneForDay,
    /// Expired; no further updates will occur.
    Expired,
    /// Filled; no further updates will occur.
    Filled,
    /// Routed to exchanges for execution; the usual initial state.
    New,
    /// Partially filled.
    PartiallyFilled,
    /// Waiting to be canceled.
    PendingCancel,
    /// Routed to the exchanges, but not yet accepted for execution.
    PendingNew,
    /// Waiting to be replaced by another order.
    PendingReplace,
    /// Rejected; no further updates will occur.
    Rejected,
    /// Replaced by another order, or updated due to a market event.
    Replaced,
    /// Stopped: a trade is guaranteed, but has not yet occurred.
    Stopped,
    /// Suspended, and not eligible for trading.
    Suspended,
}

/// How an order is priced.
#[derive(Debug, Clone, Copy, PartialEq, Eq, Structural)]
pub enum OrderType {
    Limit,
    Market,
    Stop,
    StopLimit,
}

/// How long an order stays eligible for execution.
#[derive(Debug, Clone, Copy, PartialEq, Eq, Structural)]
pub enum TimeInForce {
    CLS,
    /// Eligible for execution only on the day it is live.
    DAY,
    /// Executed only if the entire quantity can be filled, else canceled.
    FOK,
    GTC,
    IOC,
    OPG,
}

/// The side an order side field's text decodes to.
pub open spec fn spec_order_side(s: Seq<char>) -> Option<OrderSide> {
    if s == "buy"@ {
        Some(OrderSide::Buy)
    } else if s == "sell"@ {
        Some(OrderSide::Sell)
    } else {
        None
    }
}

/// Decodes an order side from its text.
pub fn order_side_of(s: &str) -> (r: Option<OrderSide>)
    ensures
        r == spec_order_side(s@),
{
    if str_eq(s, "buy") {
        Some(OrderSide::Buy)
    } else if str_eq(s, "sell") {
        Some(OrderSide::Sell)
    } else {
        None
    }
}

/// The status an order status field's text decodes to.
pub open spec fn spec_order_status(s: Seq<char>) -> Option<OrderStatus> {
    if s == "accepted"@ {
        Some(OrderStatus::Accepted)
    } else if s == "accepted_for_bidding"@ {
        Some(OrderStatus::AcceptedForBidding)
    } else if s == "calculated"@ {
        Some(OrderStatus::Calculated)
    } else if s == "canceled"@ {
        Some(OrderStatus::Canceled)
    } else if s == "done_for_day"@ {
        Some(OrderStatus::DoneForDay)
    } else if s == "expired"@ {
        Some(OrderStatus::Expired)
    } else if s == "filled"@ {
        Some(OrderStatus::Filled)
    } else if s == "new"@ {
        Some(OrderStatus::New)
    } else if s == "partially_filled"@ {
        Some(OrderStatus::PartiallyFilled)
    } else if s == "pending_cancel"@ {
        Some(OrderStatus::PendingCancel)
    } else if s == "pending_new"@ {
        Some(OrderStatus::PendingNew)
    } else if s == "pending_replace"@ {
        Some(OrderStatus::PendingReplace)
    } else if s == "rejected"@ {
        Some(OrderStatus::Rejected)
    } else if s == "replaced"@ {
        Some(OrderStatus::Replaced)
    } else if s == "stopped"@ {
        Some(OrderStatus::Stopped)
    } else if s == "suspended"@ {
        Some(OrderStatus::Suspended)
    } else {
        None
    }
}

/// Decodes an order status from its text.
pub fn order_status_of(s: &str) -> (r: Option<OrderStatus>)
    ensures
        r == spec_order_status(s@),
{
    if str_eq(s, "accepted") {
        Some(OrderStatus::Accepted)
    } else if str_eq(s, "accepted_for_bidding") {
        Some(OrderStatus::AcceptedForBidding)
    } else if str_eq(s, "calculated") {
        Some(OrderStatus::Calculated)
    } else if str_eq(s, "canceled") {
        Some(OrderStatus::Canceled)
    } else if str_eq(s, "done_for_day") {
        Some(OrderStatus::DoneForDay)
    } else if str_eq(s, "expired") {
        Some(OrderStatus::Expired)
    } else if str_eq(s, "filled") {
        Some(OrderStatus::Filled)
    } else if str_eq(s, "new") {
        Some(OrderStatus::New)
    } else if str_eq(s, "partially_filled") {
        Some(OrderStatus::PartiallyFilled)
    } else if str_eq(s, "pending_cancel") {
        Some(OrderStatus::PendingCancel)
    } else if str_eq(s, "pending_new") {
        Some(OrderStatus::PendingNew)
    } else if str_eq(s, "pending_replace") {
        Some(OrderStatus::PendingReplace)
    } else if str_eq(s, "rejected") {
        Some(OrderStatus::Rejected)
    } else if str_eq(s, "replaced") {
        Some(OrderStatus::Replaced)
    } else if str_eq(s, "stopped") {
        Some(OrderStatus::Stopped)
    } else if str_eq(s, "suspended") {
        Some(OrderStatus::Suspended)
    } else {
        None
    }
}

/// The type an order type field's text decodes to.
pub open spec fn spec_order_type(s: Seq<char>) -> Option<OrderType> {
    if s == "limit"@ {
        Some(OrderType::Limit)
    } else if s == "market"@ {
        Some(OrderType::Market)
    } else if s == "stop"@ {
        Some(OrderType::Stop)
    } else if s == "stop_limit"@ {
        Some(OrderType::StopLimit)
    } else {
        None
    }
}

/// Decodes an order type from its text.
pub fn order_type_of(s: &str) -> (r: Option<OrderType>)
    ensures
        r == spec_order_type(s@),
{
    if str_eq(s, "limit") {
        Some(OrderType::Limit)
    } else if str_eq(s, "market") {
        Some(OrderType::Market)
    } else if str_eq(s, "stop") {
        Some(OrderType::Stop)
    } else if str_eq(s, "stop_limit") {
        Some(OrderType::StopLimit)
    } else {
        None
    }
}

/// The time in force a field's text decodes to.
pub open spec fn spec_time_in_force(s: Seq<char>) -> Option<TimeInForce> {
    if s == "cls"@ {
        Some(TimeInForce::CLS)
    } else if s == "day"@ {
        Some(TimeInForce::DAY)
    } else if s == "fok"@ {
        Some(TimeInForce::FOK)
    } else if s == "gtc"@ {
        Some(TimeInForce::GTC)
    } else if s == "ioc"@ {
        Some(TimeInForce::IOC)
    } else if s == "opg"@ {
        Some(TimeInForce::OPG)
    } else {
        None
    }
}

/// Decodes a time in force from its text.
pub fn time_in_force_of(s: &str) -> (r: Option<TimeInForce>)
    ensures
        r == spec_time_in_force(s@),
{
    if str_eq(s, "cls") {
        Some(TimeInForce::CLS)
    } else if str_eq(s, "day") {
        Some(TimeInForce::DAY)
    } else if str_eq(s, "fok") {
        Some(TimeInForce::FOK)
    } else if str_eq(s, "gtc") {
        Some(TimeInForce::GTC)
    } else if str_eq(s, "ioc") {
        Some(TimeInForce::IOC)
    } else if str_eq(s, "opg") {
        Some(TimeInForce::OPG)
    } else {
        None
    }
}

/// An order as the API reports it.
#[derive(Debug)]
pub struct Order {
    /// Order ID - a UUID.
    pub id: String,
    /// Asset class.
    pub asset_class: String,
    pub client_order_id: String,
    pub extended_hours: bool,
    pub filled_qty: i32,
    pub filled_avg_price: Option<Decimal>,
    pub limit_price: Option<Decimal>,
    pub order_type: OrderType,
    /// Ordered quantity.
    pub qty: i32,
    /// Buy or sell?
    pub side: OrderSide,
    /// The status of the order.
    pub status: OrderStatus,
    pub stop_price: Option<Decimal>,
    /// Asset symbol.
    pub symbol: String,
    pub time_in_force: TimeInForce,
}

/// The mathematical shape of an order.
pub struct OrderView {
    pub id: Seq<char>,
    pub asset_class: Seq<char>,
    pub client_order_id: Seq<char>,
    pub extended_hours: bool,
    pub filled_qty: i32,
    pub filled_avg_price: Option<Decimal>,
    pub limit_price: Option<Decimal>,
    pub order_type: OrderType,
    pub qty: i32,
    pub side: OrderSide,
    pub status: OrderStatus,
    pub stop_price: Option<Decimal>,
    pub symbol: Seq<char>,
    pub time_in_force: TimeInForce,
}

impl View for Order {
    type V = OrderView;

    open spec fn view(&self) -> OrderView {
        OrderView {
            id: self.id@,
            asset_class: self.asset_class@,
            client_order_id: self.client_order_id@,
            extended_hours: self.extended_hours,
            filled_qty: self.filled_qty,
            filled_avg_price: self.filled_avg_price,
            limit_price: self.limit_price,
            order_type: self.order_type,
            qty: self.qty,
            side: self.side,
            status: self.status,
            stop_price: self.stop_price,
            symbol: self.symbol@,
            time_in_force: self.time_in_force,
        }
    }
}

/// An order side field of an object.
pub open spec fn spec_side_field(fs: Seq<(Seq<char>, JsonSpec)>, key: Seq<char>) -> Option<
    OrderSide,
> {
    match spec_obj_get(fs, key) {
        Some(JsonSpec::Text(s)) => spec_order_side(s),
        _ => None,
    }
}

/// An order status field of an object.
pub open spec fn spec_order_status_field(fs: Seq<(Seq<char>, JsonSpec)>, key: Seq<char>) -> Option<
    OrderStatus,
> {
    match spec_obj_get(fs, key) {
        Some(JsonSpec::Text(s)) => spec_order_status(s),
        _ => None,
    }
}

/// An order type field of an object.
pub open spec fn spec_order_type_field(fs: Seq<(Seq<char>, JsonSpec)>, key: Seq<char>) -> Option<
    OrderType,
> {
    match spec_obj_get(fs, key) {
        Some(JsonSpec::Text(s)) => spec_order_type(s),
        _ => None,
    }
}

/// A time in force field of an object.
pub open spec fn spec_tif_field(fs: Seq<(Seq<char>, JsonSpec)>, key: Seq<char>) -> Option<
    TimeInForce,
> {
    match spec_obj_get(fs, key) {
        Some(JsonSpec::Text(s)) => spec_time_in_force(s),
        _ => None,
    }
}

/// The order an object's fields decode to: every required field must be
/// present and well-formed, with quantities accepted as JSON numbers or as
/// numeric strings alike.
pub open spec fn spec_order_from_fields(fs: Seq<(Seq<char>, JsonSpec)>) -> Option<OrderView> {
    let id = spec_str_field(fs, "id"@);
    let asset_class = spec_str_field(fs, "asset_class"@);
    let client_order_id = spec_str_field(fs, "client_order_id"@);
    let extended_hours = spec_bool_field(fs, "extended_hours"@);
    let filled_qty = spec_i32_field(fs, "filled_qty"@);
    let filled_avg_price = spec_opt_dec_field(fs, "filled_avg_price"@);
    let limit_price = spec_opt_dec_field(fs, "limit_price"@);
    let order_type = spec_order_type_field(fs, "type"@);
    let qty = spec_i32_field(fs, "qty"@);
    let side = spec_side_field(fs, "side"@);
    let status = spec_order_status_field(fs, "status"@);
    let stop_price = spec_opt_dec_field(fs, "stop_price"@);
    let symbol = spec_str_field(fs, "symbol"@);
    let time_in_force = spec_tif_field(fs, "time_in_force"@);
    if id is Some && asset_class is Some && client_order_id is Some && extended_hours is Some
        && filled_qty is Some && filled_avg_price is Some && limit_price is Some && order_type
        is Some && qty is Some && side is Some && status is Some && stop_price is Some && symbol
        is Some && time_in_force is Some {
        Some(
            OrderView {
                id: id.unwrap(),
                asset_class: asset_class.unwrap(),
                client_order_id: client_order_id.unwrap(),
                extended_hours: extended_hours.unwrap(),
                filled_qty: filled_qty.unwrap(),
                filled_avg_price: filled_avg_price.unwrap(),
                limit_price: limit_price.unwrap(),
                order_type: order_type.unwrap(),
                qty: qty.unwrap(),
                side: side.unwrap(),
                status: status.unwrap(),
                stop_price: stop_price.unwrap(),
                symbol: symbol.unwrap(),
                time_in_force: time_in_force.unwrap(),
            },
        )
    } else {
        None
    }
}

/// The order a JSON value decodes to: it must be an object.
pub open spec fn spec_decode_order(v: JsonSpec) -> Option<OrderView> {
    match v {
        JsonSpec::Obj(fs) => spec_order_from_fields(fs),
        _ => None,
    }
}

impl Order {
    /// Decodes an order from a JSON value.
    pub fn decode(v: &JsonValue) -> (r: Option<Order>)
        ensures
            match r {
                Some(o) => spec_decode_order(v@) == Some(o@),
                None => spec_decode_order(v@) is None,
            },
    {
        let fields = match v {
            JsonValue::Obj(fields) => fields,
            _ => { return None },
        };
        let id = match str_field(fields, "id") {
            Some(x) => x,
            None => { return None },
        };
        let asset_class = match str_field(fields, "asset_class") {
            Some(x) => x,
            None => { return None },
        };
        let client_order_id = match str_field(fields, "client_order_id") {
            Some(x) => x,
            None => { return None },
        };
        let extended_hours = match bool_field(fields, "extended_hours") {
            Some(x) => x,
            None => { return None },
        };
        let filled_qty = match i32_field(fields, "filled_qty") {
            Some(x) => x,
            None => { return None },
        };
        let filled_avg_price = match opt_dec_field(fields, "filled_avg_price") {
            Some(x) => x,
            None => { return None },
        };
        let limit_price = match opt_dec_field(fields, "limit_price") {
            Some(x) => x,
            None => { return None },
        };
        let order_type = match enum_type_field(fields, "type") {
            Some(x) => x,
            None => { return None },
        };
        let qty = match i32_field(fields, "qty") {
            Some(x) => x,
            None => { return None },
        };
        let side = match side_field(fields, "side") {
            Some(x) => x,
            None => { return None },
        };
        let status = match order_status_field(fields, "status") {
            Some(x) => x,
            None => { return None },
        };
        let stop_price = match opt_dec_field(fields, "stop_price") {
            Some(x) => x,
            None => { return None },
        };
        let symbol = match str_field(fields, "symbol") {
            Some(x) => x,
            None => { return None },
        };
        let time_in_force = match tif_field(fields, "time_in_force") {
            Some(x) => x,
            None => { return None },
        };
        Some(
            Order {
                id,
                asset_class,
                client_order_id,
                extended_hours,
                filled_qty,
                filled_avg_price,
                limit_price,
                order_type,
                qty,
                side,
                status,
                stop_price,
                symbol,
                time_in_force,
            },
        )
    }
}

/// The wire text of an order side.
pub open spec fn spec_side_str(s: OrderSide) -> Seq<char> {
    match s {
        OrderSide::Buy => "buy"@,
        OrderSide::Sell => "sell"@,
    }
}

/// The wire text of an order side.
pub fn side_str(s: OrderSide) -> (r: &'static str)
    ensures
        r@ == spec_side_str(s),
{
    match s {
        OrderSide::Buy => "buy",
        OrderSide::Sell => "sell",
    }
}

/// The wire text of an order type.
pub open spec fn spec_type_str(t: OrderType) -> Seq<char> {
    match t {
        OrderType::Limit => "limit"@,
        OrderType::Market => "market"@,
        OrderType::Stop => "stop"@,
        OrderType::StopLimit => "stop_limit"@,
    }
}

/// The wire text of an order type.
pub fn type_str(t: OrderType) -> (r: &'static str)
    ensures
        r@ == spec_type_str(t),
{
    match t {
        OrderType::Limit => "limit",
        OrderType::Market => "market",
        OrderType::Stop => "stop",
        OrderType::StopLimit => "stop_limit",
    }
}

/// The wire text of a time in force, as order placement writes it.
pub open spec fn spec_tif_str(t: TimeInForce) -> Seq<char> {
    match t {
        TimeInForce::CLS => "cls"@,
        TimeInForce::DAY => "day"@,
        TimeInForce::FOK => "fok"@,
        TimeInForce::GTC => "gtc"@,
        TimeInForce::IOC => "ioc"@,
        TimeInForce::OPG => "opg"@,
    }
}

/// The wire text of a time in force, as order placement writes it.
pub fn tif_str(t: TimeInForce) -> (r: &'static str)
    ensures
        r@ == spec_tif_str(t),
{
    match t {
        TimeInForce::CLS => "cls",
        TimeInForce::DAY => "day",
        TimeInForce::FOK => "fok",
        TimeInForce::GTC => "gtc",
        TimeInForce::IOC => "ioc",
        TimeInForce::OPG => "opg",
    }
}

/// The name of a time in force, as order updates write it.
pub open spec fn spec_tif_name(t: TimeInForce) -> Seq<char> {
    match t {
        TimeInForce::CLS => "CLS"@,
        TimeInForce::DAY => "DAY"@,
        TimeInForce::FOK => "FOK"@,
        TimeInForce::GTC => "GTC"@,
        TimeInForce::IOC => "IOC"@,
        TimeInForce::OPG => "OPG"@,
    }
}

/// The name of a time in force, as order updates write it.
pub fn tif_name(t: TimeInForce) -> (r: &'static str)
    ensures
        r@ == spec_tif_name(t),
{
    match t {
        TimeInForce::CLS => "CLS",
        TimeInForce::DAY => "DAY",
        TimeInForce::FOK => "FOK",
        TimeInForce::GTC => "GTC",
        TimeInForce::IOC => "IOC",
        TimeInForce::OPG => "OPG",
    }
}

/// Reads an order side field out of an object's fields.
pub fn side_field(fields: &Vec<(String, JsonValue)>, key: &str) -> (r: Option<OrderSide>)
    ensures
        r == spec_side_field(jv_fields_view(fields@), key@),
{
    match obj_get(fields, key) {
        Some(JsonValue::Text(s)) => order_side_of(s.as_str()),
        _ => None,
    }
}

/// Reads an order status field out of an object's fields.
pub fn order_status_field(fields: &Vec<(String, JsonValue)>, key: &str) -> (r: Option<OrderStatus>)
    ensures
        r == spec_order_status_field(jv_fields_view(fields@), key@),
{
    match obj_get(fields, key) {
        Some(JsonValue::Text(s)) => order_status_of(s.as_str()),
        _ => None,
    }
}

/// Reads an order type field out of an object's fields.
pub fn enum_type_field(fields: &Vec<(String, JsonValue)>, key: &str) -> (r: Option<OrderType>)
    ensures
        r == spec_order_type_field(jv_fields_view(fields@), key@),
{
    match obj_get(fields, key) {
        Some(JsonValue::Text(s)) => order_type_of(s.as_str()),
        _ => None,
    }
}

/// Reads a time in force field out of an object's fields.
pub fn tif_field(fields: &Vec<(String, JsonValue)>, key: &str) -> (r: Option<TimeInForce>)
    ensures
        r == spec_tif_field(jv_fields_view(fields@), key@),
{
    match obj_get(fields, key) {
        Some(JsonValue::Text(s)) => time_in_force_of(s.as_str()),
        _ => None,
    }
}

/// An order under construction: the required fields are set up front, the
/// optional prices by the setters, and everything is validated before a
/// request is composed.
#[derive(Debug)]
pub struct OrderBuilder {
    extended_hours: bool,
    limit_price: Option<Decimal>,
    order_type: OrderType,
    qty: i32,
    side: OrderSide,
    stop_price: Option<Decimal>,
    symbol: String,
    time_in_force: TimeInForce,
}

/// The mathematical shape of an order under construction.
pub struct OrderBuilderView {
    pub extended_hours: bool,
    pub limit_price: Option<Decimal>,
    pub order_type: OrderType,
    pub qty: i32,
    pub side: OrderSide,
    pub stop_price: Option<Decimal>,
    pub symbol: Seq<char>,
    pub time_in_force: TimeInForce,
}

impl View for OrderBuilder {
    type V = OrderBuilderView;

    closed spec fn view(&self) -> OrderBuilderView {
        OrderBuilderView {
            extended_hours: self.extended_hours,
            limit_price: self.limit_price,
            order_type: self.order_type,
            qty: self.qty,
            side: self.side,
            stop_price: self.stop_price,
            symbol: self.symbol@,
            time_in_force: self.time_in_force,
        }
    }
}

/// Why an order under construction cannot be placed, if it cannot:
/// limit and stop-limit orders need a limit price, stop and stop-limit
/// orders a stop price, and extended hours only work for day limit orders.
pub open spec fn spec_order_problem(b: OrderBuilderView) -> Option<Seq<char>> {
    if (b.order_type == OrderType::Limit || b.order_type == OrderType::StopLimit) && b.limit_price
        is None {
        Some("Limit orders need a limit price."@)
    } else if (b.order_type == OrderType::Stop || b.order_type == OrderType::StopLimit)
        && b.stop_price is None {
        Some("Stop orders need a stop price."@)
    } else if b.extended_hours && (b.order_type != OrderType::Limit || b.time_in_force
        != TimeInForce::DAY) {
        Some("Extended hours only works limit orders for today"@)
    } else {
        None
    }
}

/// The placement request body: the builder's fields in wire order, with
/// the quantity written as a string and the absent prices left out.
pub open spec fn spec_order_body(b: OrderBuilderView) -> Seq<char> {
    "{\"extended_hours\":"@ + (if b.extended_hours {
        "true"@
    } else {
        "false"@
    }) + (match b.limit_price {
        Some(d) => ",\"limit_price\":"@ + spec_dec_str(d),
        None => Seq::<char>::empty(),
    }) + ",\"type\":"@ + spec_json_str(spec_type_str(b.order_type)) + ",\"qty\":\""@
        + JsonBuf::spec_i64_digits(b.qty as int) + "\""@ + ",\"side\":"@ + spec_json_str(
        spec_side_str(b.side),
    ) + (match b.stop_price {
        Some(d) => ",\"stop_price\":"@ + spec_dec_str(d),
        None => Seq::<char>::empty(),
    }) + ",\"symbol\":"@ + spec_json_str(b.symbol) + ",\"time_in_force\":"@ + spec_json_str(
        spec_tif_str(b.time_in_force),
    ) + "}"@
}

impl OrderBuilder {
    /// Marks the order as eligible for extended hours trading.
    pub fn extended_hours(self, extended_hours: bool) -> (r: OrderBuilder)
        ensures
            r@ == (OrderBuilderView { extended_hours, ..self@ }),
    {
        OrderBuilder { extended_hours, ..self }
    }

    /// Sets the limit price.
    pub fn limit_price(self, limit_price: Decimal) -> (r: OrderBuilder)
        ensures
            r@ == (OrderBuilderView { limit_price: Some(limit_price), ..self@ }),
    {
        OrderBuilder { limit_price: Some(limit_price), ..self }
    }

    /// Sets the stop price.
    pub fn stop_price(self, stop_price: Decimal) -> (r: OrderBuilder)
        ensures
            r@ == (OrderBuilderView { stop_price: Some(stop_price), ..self@ }),
    {
        OrderBuilder { stop_price: Some(stop_price), ..self }
    }

    /// Validates the order and composes the placement request.  An invalid
    /// order fails with its reason before any request exists, so nothing
    /// can reach the network for it.
    pub fn place_parts(&self, alpaca: &Alpaca) -> (r: Result<(RequestParts, String), Error>)
        ensures
            match spec_order_problem(self@) {
                Some(reason) => r matches Err(e) && e matches Error::OrderInvalid {
                    reason: rr,
                } && rr@ == reason,
                None => match r {
                    Ok((p, body)) => {
                        &&& body@ == spec_order_body(self@)
                        &&& p.method == HttpMethod::Post
                        &&& url_join_of(alpaca@.host, "v2/orders"@) matches Some(u) && p.url@ == u
                        &&& p.headers@.len() == 2
                        &&& p.headers@[0].0@ == "APCA-API-KEY-ID"@
                        &&& p.headers@[0].1@ == alpaca@.key
                        &&& p.headers@[1].0@ == "APCA-API-SECRET-KEY"@
                        &&& p.headers@[1].1@ == alpaca@.secret
                    },
                    Err(e) => e matches Error::InternalURL && url_join_of(
                        alpaca@.host,
                        "v2/orders"@,
                    ) is None,
                },
            },
    {
        if let Err(e) = self.validate() {
            return Err(e);
        }
        let parts = match alpaca.request(HttpMethod::Post, "v2/orders") {
            Ok(p) => p,
            Err(e) => { return Err(e) },
        };
        Ok((parts, self.body()))
    }

    /// Checks the client-side preconditions and reports the first
    /// violation, exactly as placement would.
    pub fn validate(&self) -> (r: Result<(), Error>)
        ensures
            match spec_order_problem(self@) {
                Some(reason) => r matches Err(e) && e matches Error::OrderInvalid {
                    reason: rr,
                } && rr@ == reason,
                None => r is Ok,
            },
    {
        if (matches!(self.order_type, OrderType::Limit) || matches!(
            self.order_type,
            OrderType::StopLimit,
        )) && self.limit_price.is_none() {
            return Err(
                Error::OrderInvalid {
                    reason: String::from_str("Limit orders need a limit price."),
                },
            );
        }
        if (matches!(self.order_type, OrderType::Stop) || matches!(
            self.order_type,
            OrderType::StopLimit,
        )) && self.stop_price.is_none() {
            return Err(
                Error::OrderInvalid { reason: String::from_str("Stop orders need a stop price.") },
            );
        }
        if self.extended_hours && (!matches!(self.order_type, OrderType::Limit) || !matches!(
            self.time_in_force,
            TimeInForce::DAY,
        )) {
            return Err(
                Error::OrderInvalid {
                    reason: String::from_str("Extended hours only works limit orders for today"),
                },
            );
        }
        Ok(())
    }

    /// Writes the placement request body.
    #[verifier::rlimit(100)]
    pub fn body(&self) -> (r: String)
        ensures
            r@ == spec_order_body(self@),
    {
        let mut buf = JsonBuf::new();
        buf.lit("{\"extended_hours\":");
        if self.extended_hours {
            buf.lit("true");
        } else {
            buf.lit("false");
        }
        if let Some(d) = &self.limit_price {
            buf.lit(",\"limit_price\":");
            buf.dec_val(d);
        }
        buf.lit(",\"type\":");
        buf.str_val(type_str(self.order_type));
        buf.lit(",\"qty\":\"");
        buf.i64_val(self.qty as i64);
        buf.lit("\"");
        buf.lit(",\"side\":");
        buf.str_val(side_str(self.side));
        if let Some(d) = &self.stop_price {
            buf.lit(",\"stop_price\":");
            buf.dec_val(d);
        }
        buf.lit(",\"symbol\":");
        buf.str_val(self.symbol.as_str());
        buf.lit(",\"time_in_force\":");
        buf.str_val(tif_str(self.time_in_force));
        buf.lit("}");
        let r = buf.finish();
        proof {
            assert(r@ =~= spec_order_body(self@));
        }
        r
    }

    /// Maps the response of order placement to its outcome: a success whose
    /// body does not decode as an order is bad data, a 403 means the order
    /// was forbidden, and any other failure is unclassified.
    pub fn place_outcome(status: u16, body: &str) -> (r: Result<Order, Error>)
        ensures
            (200 <= status < 300) ==> match json_of(body@) {
                Some(v) => match spec_decode_order(v) {
                    Some(o) => r matches Ok(x) && x@ == o,
                    None => r matches Err(e) && e matches Error::BadData,
                },
                None => r matches Err(e) && e matches Error::BadData,
            },
            !(200 <= status < 300) ==> match r {
                Err(e) => if status == 403 {
                    e matches Error::OrderForbidden
                } else {
                    e matches Error::Unknown
                },
                Ok(_) => false,
            },
    {
        if 200 <= status && status < 300 {
            match parse_json(body) {
                Some(v) => match Order::decode(&v) {
                    Some(o) => Ok(o),
                    None => Err(Error::BadData),
                },
                None => Err(Error::BadData),
            }
        } else if status == 403 {
            Err(Error::OrderForbidden)
        } else {
            Err(Error::Unknown)
        }
    }
}

impl Default for OrderBuilder {
    /// An empty market day order for nothing.
    fn default() -> (r: OrderBuilder)
        ensures
            r@ == (OrderBuilderView {
                extended_hours: false,
                limit_price: None,
                order_type: OrderType::Market,
                qty: 0,
                side: OrderSide::Buy,
                stop_price: None,
                symbol: Seq::<char>::empty(),
                time_in_force: TimeInForce::DAY,
            }),
    {
        OrderBuilder {
            extended_hours: false,
            limit_price: None,
            order_type: OrderType::Market,
            qty: 0,
            side: OrderSide::Buy,
            stop_price: None,
            symbol: String::new(),
            time_in_force: TimeInForce::DAY,
        }
    }
}

/// An order update under construction: only the fields to change are set,
/// and only those are sent.
#[derive(Debug)]
pub struct OrderUpdater {
    id: String,
    limit_price: Option<Decimal>,
    qty: Option<i32>,
    stop_price: Option<Decimal>,
    time_in_force: Option<TimeInForce>,
}

/// The mathematical shape of an order update under construction.
pub struct OrderUpdaterView {
    pub id: Seq<char>,
    pub limit_price: Option<Decimal>,
    pub qty: Option<i32>,
    pub stop_price: Option<Decimal>,
    pub time_in_force: Option<TimeInForce>,
}

impl View for OrderUpdater {
    type V = OrderUpdaterView;

    closed spec fn view(&self) -> OrderUpdaterView {
        OrderUpdaterView {
            id: self.id@,
            limit_price: self.limit_price,
            qty: self.qty,
            stop_price: self.stop_price,
            time_in_force: self.time_in_force,
        }
    }
}

/// The update request body's fields, each with its leading comma: every
/// value is written as a string, and the time in force by its name.
pub open spec fn spec_update_pieces(u: OrderUpdaterView) -> Seq<char> {
    (match u.limit_price {
        Some(d) => ",\"limit_price\":\""@ + spec_dec_str(d) + "\""@,
        None => Seq::<char>::empty(),
    }) + (match u.qty {
        Some(q) => ",\"qty\":\""@ + JsonBuf::spec_i64_digits(q as int) + "\""@,
        None => Seq::<char>::empty(),
    }) + (match u.stop_price {
        Some(d) => ",\"stop_price\":\""@ + spec_dec_str(d) + "\""@,
        None => Seq::<char>::empty(),
    }) + (match u.time_in_force {
        Some(t) => ",\"time_in_force\":\""@ + spec_tif_name(t) + "\""@,
        None => Seq::<char>::empty(),
    })
}

/// The update request body: the present fields joined inside braces.
pub open spec fn spec_update_body(u: OrderUpdaterView) -> Seq<char> {
    let pieces = spec_update_pieces(u);
    if pieces.len() == 0 {
        "{}"@
    } else {
        "{"@ + pieces.skip(1) + "}"@
    }
}

impl OrderUpdater {
    /// Sets the new limit price.
    pub fn limit_price(self, limit_price: Decimal) -> (r: OrderUpdater)
        ensures
            r@ == (OrderUpdaterView { limit_price: Some(limit_price), ..self@ }),
    {
        OrderUpdater { limit_price: Some(limit_price), ..self }
    }

    /// Sets the new quantity.
    pub fn qty(self, qty: i32) -> (r: OrderUpdater)
        ensures
            r@ == (OrderUpdaterView { qty: Some(qty), ..self@ }),
    {
        OrderUpdater { qty: Some(qty), ..self }
    }

    /// Sets the new stop price.
    pub fn stop_price(self, stop_price: Decimal) -> (r: OrderUpdater)
        ensures
            r@ == (OrderUpdaterView { stop_price: Some(stop_price), ..self@ }),
    {
        OrderUpdater { stop_price: Some(stop_price), ..self }
    }

    /// Sets the new time in force.
    pub fn time_in_force(self, time_in_force: TimeInForce) -> (r: OrderUpdater)
        ensures
            r@ == (OrderUpdaterView { time_in_force: Some(time_in_force), ..self@ }),
    {
        OrderUpdater { time_in_force: Some(time_in_force), ..self }
    }

    /// Writes the present fields, each with its leading comma.
    fn update_pieces(&self) -> (r: JsonBuf)
        ensures
            r@ == spec_update_pieces(self@),
    {
        let ghost p1: Seq<char> = match self@.limit_price {
            Some(d) => ",\"limit_price\":\""@ + spec_dec_str(d) + "\""@,
            None => Seq::<char>::empty(),
        };
        let ghost p2: Seq<char> = match self@.qty {
            Some(q) => ",\"qty\":\""@ + JsonBuf::spec_i64_digits(q as int) + "\""@,
            None => Seq::<char>::empty(),
        };
        let ghost p3: Seq<char> = match self@.stop_price {
            Some(d) => ",\"stop_price\":\""@ + spec_dec_str(d) + "\""@,
            None => Seq::<char>::empty(),
        };
        let ghost p4: Seq<char> = match self@.time_in_force {
            Some(t) => ",\"time_in_force\":\""@ + spec_tif_name(t) + "\""@,
            None => Seq::<char>::empty(),
        };
        let mut pieces = JsonBuf::new();
        if let Some(d) = &self.limit_price {
            pieces.lit(",\"limit_price\":\"");
            pieces.dec_val(d);
            pieces.lit("\"");
        }
        proof {
            assert(pieces@ =~= p1);
        }
        if let Some(q) = &self.qty {
            pieces.lit(",\"qty\":\"");
            pieces.i64_val(*q as i64);
            pieces.lit("\"");
        }
        proof {
            assert(pieces@ =~= p1 + p2);
        }
        if let Some(d) = &self.stop_price {
            pieces.lit(",\"stop_price\":\"");
            pieces.dec_val(d);
            pieces.lit("\"");
        }
        proof {
            assert(pieces@ =~= p1 + p2 + p3);
        }
        if let Some(t) = &self.time_in_force {
            pieces.lit(",\"time_in_force\":\"");
            pieces.lit(tif_name(*t));
            pieces.lit("\"");
        }
        proof {
            assert(pieces@ =~= p1 + p2 + p3 + p4);
        }
        pieces
    }

    /// Writes the update request body.
    pub fn body(&self) -> (r: String)
        ensures
            r@ == spec_update_body(self@),
    {
        let pieces = self.update_pieces();
        let mut buf = JsonBuf::new();
        buf.lit("{");
        buf.append_skip_first(&pieces);
        buf.lit("}");
        let r = buf.finish();
        proof {
            reveal_strlit("{");
            reveal_strlit("}");
            reveal_strlit("{}");
            assert(r@ =~= spec_update_body(self@));
        }
        r
    }

    /// Composes the update request against the order's resource.
    pub fn place_parts(&self, alpaca: &Alpaca) -> (r: Result<(RequestParts, String), Error>)
        ensures
            match r {
                Ok((p, body)) => {
                    &&& body@ == spec_update_body(self@)
                    &&& p.method == HttpMethod::Patch
                    &&& url_join_of(alpaca@.host, "v2/orders/"@ + self@.id) matches Some(u)
                        && p.url@ == u
                    &&& p.headers@.len() == 2
                    &&& p.headers@[0].0@ == "APCA-API-KEY-ID"@
                    &&& p.headers@[0].1@ == alpaca@.key
                    &&& p.headers@[1].0@ == "APCA-API-SECRET-KEY"@
                    &&& p.headers@[1].1@ == alpaca@.secret
                },
                Err(e) => e matches Error::InternalURL && url_join_of(
                    alpaca@.host,
                    "v2/orders/"@ + self@.id,
                ) is None,
            },
    {
        let mut path = String::from_str("v2/orders/");
        path.append(self.id.as_str());
        let parts = match alpaca.request(HttpMethod::Patch, path.as_str()) {
            Ok(p) => p,
            Err(e) => { return Err(e) },
        };
        Ok((parts, self.body()))
    }

    /// Maps the response of an order update to its outcome, exactly as
    /// order placement does.
    pub fn place_outcome(status: u16, body: &str) -> (r: Result<Order, Error>)
        ensures
            (200 <= status < 300) ==> match json_of(body@) {
                Some(v) => match spec_decode_order(v) {
                    Some(o) => r matches Ok(x) && x@ == o,
                    None => r matches Err(e) && e matches Error::BadData,
                },
                None => r matches Err(e) && e matches Error::BadData,
            },
            !(200 <= status < 300) ==> match r {
                Err(e) => if status == 403 {
                    e matches Error::OrderForbidden
                } else {
                    e matches Error::Unknown
                },
                Ok(_) => false,
            },
    {
        OrderBuilder::place_outcome(status, body)
    }
}

/// The orders an array of JSON values decodes to: every element must be an
/// order.
pub open spec fn spec_decode_order_seq(items: Seq<JsonSpec>) -> Option<Seq<OrderView>>
    decreases items.len(),
{
    if items.len() == 0 {
        Some(Seq::empty())
    } else {
        match spec_decode_order(items[0]) {
            Some(o) => match spec_decode_order_seq(items.skip(1)) {
                Some(rest) => Some(seq![o] + rest),
                None => None,
            },
            None => None,
        }
    }
}

/// The orders a JSON value decodes to: it must be an array of orders.
pub open spec fn spec_decode_orders(v: JsonSpec) -> Option<Seq<OrderView>> {
    match v {
        JsonSpec::Arr(items) => spec_decode_order_seq(items),
        _ => None,
    }
}

impl Order {
    /// Decodes a list of orders from a JSON value.
    pub fn decode_list(v: &JsonValue) -> (r: Option<Vec<Order>>)
        ensures
            match r {
                Some(orders) => spec_decode_orders(v@) == Some(
                    Seq::new(orders@.len(), |i: int| orders@[i]@),
                ),
                None => spec_decode_orders(v@) is None,
            },
    {
        let items = match v {
            JsonValue::Arr(items) => items,
            _ => { return None },
        };
        let ghost full = jv_seq_view(items@);
        proof {
            lemma_jv_seq_view(items@);
            assert(full.skip(0) =~= full);
        }
        let n = items.len();
        let mut out: Vec<Order> = Vec::new();
        let mut i: usize = 0;
        while i < n
            invariant
                i <= n == items@.len(),
                out@.len() == i,
                v@ == JsonSpec::Arr(full),
                full == jv_seq_view(items@),
                full.len() == items@.len(),
                forall|k: int| 0 <= k < items@.len() ==> full[k] == crate::json::jv_view(
                    items@[k],
                ),
                spec_decode_order_seq(full) == (match spec_decode_order_seq(full.skip(i as int)) {
                    Some(rest) => Some(Seq::new(out@.len(), |k: int| out@[k]@) + rest),
                    None => None::<Seq<OrderView>>,
                }),
            decreases n - i,
        {
            let ghost before = Seq::new(out@.len(), |k: int| out@[k]@);
            match Order::decode(&items[i]) {
                Some(o) => {
                    proof {
                        assert(full.skip(i as int)[0] == full[i as int]);
                        assert(full.skip(i as int).skip(1) =~= full.skip(i + 1));
                    }
                    out.push(o);
                    proof {
                        assert(Seq::new(out@.len(), |k: int| out@[k]@) =~= before.push(
                            out@[out@.len() - 1]@,
                        ));
                        let tail = spec_decode_order_seq(full.skip(i + 1));
                        if tail is Some {
                            let rest = tail.unwrap();
                            assert(before + (seq![full_decode_first(full, i as int)] + rest)
                                =~= (before.push(full_decode_first(full, i as int)) + rest));
                        }
                    }
                },
                None => {
                    proof {
                        assert(full.skip(i as int)[0] == full[i as int]);
                        assert(spec_decode_order(full[i as int]) is None);
                        assert(spec_decode_order_seq(full.skip(i as int)) is None);
                        assert(spec_decode_order_seq(full) is None);
                        assert(v@ == JsonSpec::Arr(full));
                    }
                    return None;
                },
            }
            i += 1;
        }
        proof {
            assert(full.skip(n as int) =~= Seq::<JsonSpec>::empty());
            assert(Seq::new(out@.len(), |k: int| out@[k]@) + Seq::<OrderView>::empty() =~= Seq::new(
                out@.len(),
                |k: int| out@[k]@,
            ));
        }
        Some(out)
    }

    /// Starts a buy order for the given quantity of the symbol.
    pub fn buy(symbol: &str, qty: i32, order_type: OrderType, time_in_force: TimeInForce) -> (r:
        OrderBuilder)
        ensures
            r@ == (OrderBuilderView {
                extended_hours: false,
                limit_price: None,
                order_type,
                qty,
                side: OrderSide::Buy,
                stop_price: None,
                symbol: symbol@,
                time_in_force,
            }),
    {
        let base = OrderBuilder::default();
        OrderBuilder {
            symbol: String::from_str(symbol),
            qty,
            side: OrderSide::Buy,
            order_type,
            time_in_force,
            ..base
        }
    }

    /// Starts a sell order for the given quantity of the symbol.
    pub fn sell(symbol: &str, qty: i32, order_type: OrderType, time_in_force: TimeInForce) -> (r:
        OrderBuilder)
        ensures
            r@ == (OrderBuilderView {
                extended_hours: false,
                limit_price: None,
                order_type,
                qty,
                side: OrderSide::Sell,
                stop_price: None,
                symbol: symbol@,
                time_in_force,
            }),
    {
        let base = OrderBuilder::default();
        OrderBuilder {
            symbol: String::from_str(symbol),
            qty,
            side: OrderSide::Sell,
            order_type,
            time_in_force,
            ..base
        }
    }

    /// Starts an update of this order.
    pub fn update(&self) -> (r: OrderUpdater)
        ensures
            r@ == (OrderUpdaterView {
                id: self@.id,
                limit_price: None,
                qty: None,
                stop_price: None,
                time_in_force: None,
            }),
    {
        OrderUpdater {
            id: self.id.clone(),
            limit_price: None,
            qty: None,
            stop_price: None,
            time_in_force: None,
        }
    }

    /// Composes the cancel request against this order's resource.
    pub fn cancel_parts(&self, alpaca: &Alpaca) -> (r: Result<RequestParts, Error>)
        ensures
            match r {
                Ok(p) => {
                    &&& p.method == HttpMethod::Delete
                    &&& url_join_of(alpaca@.host, "v2/orders/"@ + self@.id) matches Some(u)
                        && p.url@ == u
                    &&& p.headers@.len() == 2
                    &&& p.headers@[0].0@ == "APCA-API-KEY-ID"@
                    &&& p.headers@[0].1@ == alpaca@.key
                    &&& p.headers@[1].0@ == "APCA-API-SECRET-KEY"@
                    &&& p.headers@[1].1@ == alpaca@.secret
                },
                Err(e) => e matches Error::InternalURL && url_join_of(
                    alpaca@.host,
                    "v2/orders/"@ + self@.id,
                ) is None,
            },
    {
        let mut path = String::from_str("v2/orders/");
        path.append(self.id.as_str());
        alpaca.request(HttpMethod::Delete, path.as_str())
    }

    /// Maps the response of a cancel to its outcome: a 404 means no such
    /// order, a 422 an order that cannot be canceled, and any other
    /// failure is unclassified.
    pub fn cancel_outcome(&self, status: u16) -> (r: Result<(), Error>)
        ensures
            r is Ok <==> 200 <= status < 300,
            !(200 <= status < 300) ==> match r {
                Err(e) => if status == 404 {
                    e matches Error::OrderNotFound { order_id } && order_id@ == self@.id
                } else if status == 422 {
                    e matches Error::OrderNotCancelable { order_id } && order_id@ == self@.id
                } else {
                    e matches Error::Unknown
                },
                Ok(_) => false,
            },
    {
        if 200 <= status && status < 300 {
            Ok(())
        } else if status == 404 {
            Err(Error::OrderNotFound { order_id: self.id.clone() })
        } else if status == 422 {
            Err(Error::OrderNotCancelable { order_id: self.id.clone() })
        } else {
            Err(Error::Unknown)
        }
    }

    /// Composes the request for the open orders.
    pub fn open_orders_parts(alpaca: &Alpaca) -> (r: Result<RequestParts, Error>)
        ensures
            match r {
                Ok(p) => {
                    &&& p.method == HttpMethod::Get
                    &&& url_join_of(alpaca@.host, "v2/orders?status=open"@) matches Some(u)
                        && p.url@ == u
                    &&& p.headers@.len() == 2
                    &&& p.headers@[0].0@ == "APCA-API-KEY-ID"@
                    &&& p.headers@[0].1@ == alpaca@.key
                    &&& p.headers@[1].0@ == "APCA-API-SECRET-KEY"@
                    &&& p.headers@[1].1@ == alpaca@.secret
                },
                Err(e) => e matches Error::InternalURL && url_join_of(
                    alpaca@.host,
                    "v2/orders?status=open"@,
                ) is None,
            },
    {
        alpaca.request(HttpMethod::Get, "v2/orders?status=open")
    }

    /// Maps the response of the open orders fetch to its outcome: any
    /// non-success status means the credentials were not accepted, and a
    /// success whose body does not decode as a list of orders is bad data.
    pub fn open_orders_outcome(status: u16, body: &str) -> (r: Result<Vec<Order>, Error>)
        ensures
            !(200 <= status < 300) ==> (r matches Err(e) && e matches Error::InvalidCredentials),
            (200 <= status < 300) ==> match json_of(body@) {
                Some(v) => match spec_decode_orders(v) {
                    Some(os) => r matches Ok(orders) && os == Seq::new(
                        orders@.len(),
                        |i: int| orders@[i]@,
                    ),
                    None => r matches Err(e) && e matches Error::BadData,
                },
                None => r matches Err(e) && e matches Error::BadData,
            },
    {
        if !(200 <= status && status < 300) {
            return Err(Error::InvalidCredentials);
        }
        match parse_json(body) {
            Some(v) => match Order::decode_list(&v) {
                Some(orders) => Ok(orders),
                None => Err(Error::BadData),
            },
            None => Err(Error::BadData),
        }
    }
}

/// The first element's decoded order, under `spec_decode_order_seq`'s
/// successful step.
spec fn full_decode_first(full: Seq<JsonSpec>, i: int) -> OrderView {
    spec_decode_order(full[i]).unwrap()
}

} // verus!
