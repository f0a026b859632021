//! The realtime event stream.
//!
//! A long-lived socket carries JSON envelopes keyed by a `stream` tag.
//! This module decodes the envelopes into typed events, keeps the session
//! state that the reader and writer loops share - the outbound frame queue
//! and the cooperative shutdown flag - and says exactly which frames go
//! out, which events reach the caller, and that nothing more is forwarded
//! once the stream is stopped.  The socket itself is driven by the
//! surrounding application.

use vstd::prelude::*;
use crate::account::{spec_status_field, status_field, AccountStatus};
use crate::alpaca::{spec_auth_frame, Alpaca};
use crate::json::{spec_obj_get, spec_str_field, spec_dec_field, spec_u32_field, jv_seq_view,
    lemma_jv_seq_view, json_of, obj_get, str_field, dec_field, u32_field, parse_json, JsonSpec,
    JsonValue};
use crate::num::Decimal;
use crate::order::{spec_decode_order, Order, OrderView};
use crate::text::{str_eq, utf8_to_string};
use crate::time::{spec_ts_field, spec_opt_ts_field, ts_field, opt_ts_field};

verus! {

broadcast use vstd::std_specs::vec::group_vec_axioms, vstd::seq::group_seq_axioms;

/// Whether an authorization attempt was accepted.
#[derive(Debug, Clone, Copy, PartialEq, Eq, Structural)]
pub enum AuthorizationStatus {
    Authorized,
    Unauthorized,
}

/// Which action an authorization envelope answers.
#[derive(Debug, Clone, Copy, PartialEq, Eq, Structural)]
pub enum AuthorizationAction {
    Authenticate,
    Listen,
}

/// The server's answer to an authentication or listen frame.
#[derive(Debug, Clone, Copy, PartialEq, Eq, Structural)]
pub struct Authorization {
    pub status: AuthorizationStatus,
    pub action: AuthorizationAction,
}

/// An update that has occurred due to an account change.
#[derive(Debug)]
pub struct AccountEvent {
    /// Account ID - a UUID.
    pub id: String,
    /// When this account was created.
    pub created: i64,
    /// When this account was updated.
    pub updated: i64,
    /// When this account was deleted, if it was.
    pub deleted: Option<i64>,
    /// Account status.
    pub status: AccountStatus,
    /// Cash balance.
    pub cash: Decimal,
    /// The amount of cash that can be withdrawn.
    pub cash_withdrawable: Decimal,
}

/// The mathematical shape of an account event.
pub struct AccountEventView {
    pub id: Seq<char>,
    pub created: i64,
    pub updated: i64,
    pub deleted: Option<i64>,
    pub status: AccountStatus,
    pub cash: Decimal,
    pub cash_withdrawable: Decimal,
}

impl View for AccountEvent {
    type V = AccountEventView;

    open spec fn view(&self) -> AccountEventView {
        AccountEventView {
            id: self.id@,
            created: self.created,
            updated: self.updated,
            deleted: self.deleted,
            status: self.status,
            cash: self.cash,
            cash_withdrawable: self.cash_withdrawable,
        }
    }
}

/// An event that has occurred due to an order.
#[derive(Debug)]
pub enum OrderEvent {
    /// The order has been completed for the day, but remaining settlement
    /// calculations are still pending.
    Calculated { order: Order },
    /// The requested cancelation has been processed.
    Canceled { timestamp: i64, order: Order },
    /// The order is done executing for the day.
    DoneForDay { order: Order },
    /// The order has reached the end of its lifespan.
    Expired { timestamp: i64, order: Order },
    /// The order has been completely filled.
    Fill { timestamp: i64, price: Decimal, qty: u32, order: Order },
    /// The order has been routed to exchanges for execution.
    New { order: Order },
    /// The order cancel has been rejected.
    OrderCancelRejected { order: Order },
    /// The order replace has been rejected.
    OrderReplaceRejected { order: Order },
    /// Less than the total remaining quantity on the order has been filled.
    PartialFill { timestamp: i64, price: Decimal, qty: u32, order: Order },
    /// The order is awaiting cancelation.
    PendingCancel { order: Order },
    /// The order has been received, but not yet accepted for execution.
    PendingNew { order: Order },
    /// The order is awaiting replacement.
    PendingReplace { order: Order },
    /// The order has been rejected.
    Rejected { timestamp: i64, order: Order },
    /// The requested replacement has been processed.
    Replaced { timestamp: i64, order: Order },
    /// A trade is guaranteed for the order, but has not yet occurred.
    Stopped { order: Order },
    /// The order has been suspended and is not eligible for trading.
    Suspended { order: Order },
}

/// The mathematical shape of an order event.
pub enum OrderEventView {
    Calculated { order: OrderView },
    Canceled { timestamp: i64, order: OrderView },
    DoneForDay { order: OrderView },
    Expired { timestamp: i64, order: OrderView },
    Fill { timestamp: i64, price: Decimal, qty: u32, order: OrderView },
    New { order: OrderView },
    OrderCancelRejected { order: OrderView },
    OrderReplaceRejected { order: OrderView },
    PartialFill { timestamp: i64, price: Decimal, qty: u32, order: OrderView },
    PendingCancel { order: OrderView },
    PendingNew { order: OrderView },
    PendingReplace { order: OrderView },
    Rejected { timestamp: i64, order: OrderView },
    Replaced { timestamp: i64, order: OrderView },
    Stopped { order: OrderView },
    Suspended { order: OrderView },
}

impl View for OrderEvent {
    type V = OrderEventView;

    open spec fn view(&self) -> OrderEventView {
        match self {
            OrderEvent::Calculated { order } => OrderEventView::Calculated { order: order@ },
            OrderEvent::Canceled { timestamp, order } => OrderEventView::Canceled {
                timestamp: *timestamp,
                order: order@,
            },
            OrderEvent::DoneForDay { order } => OrderEventView::DoneForDay { order: order@ },
            OrderEvent::Expired { timestamp, order } => OrderEventView::Expired {
                timestamp: *timestamp,
                order: order@,
            },
            OrderEvent::Fill { timestamp, price, qty, order } => OrderEventView::Fill {
                timestamp: *timestamp,
                price: *price,
                qty: *qty,
                order: order@,
            },
            OrderEvent::New { order } => OrderEventView::New { order: order@ },
            OrderEvent::OrderCancelRejected { order } => OrderEventView::OrderCancelRejected {
                order: order@,
            },
            OrderEvent::OrderReplaceRejected { order } => OrderEventView::OrderReplaceRejected {
                order: order@,
            },
            OrderEvent::PartialFill { timestamp, price, qty, order } => OrderEventView::PartialFill {
                timestamp: *timestamp,
                price: *price,
                qty: *qty,
                order: order@,
            },
            OrderEvent::PendingCancel { order } => OrderEventView::PendingCancel { order: order@ },
            OrderEvent::PendingNew { order } => OrderEventView::PendingNew { order: order@ },
            OrderEvent::PendingReplace { order } => OrderEventView::PendingReplace {
                order: order@,
            },
            OrderEvent::Rejected { timestamp, order } => OrderEventView::Rejected {
                timestamp: *timestamp,
                order: order@,
            },
            OrderEvent::Replaced { timestamp, order } => OrderEventView::Replaced {
                timestamp: *timestamp,
                order: order@,
            },
            OrderEvent::Stopped { order } => OrderEventView::Stopped { order: order@ },
            OrderEvent::Suspended { order } => OrderEventView::Suspended { order: order@ },
        }
    }
}

/// The names of the streams this library listens on.
#[derive(Debug)]
pub struct ListenStream {
    pub streams: Vec<String>,
}

impl View for ListenStream {
    type V = Seq<Seq<char>>;

    open spec fn view(&self) -> Seq<Seq<char>> {
        Seq::new(self.streams@.len(), |i: int| self.streams@[i]@)
    }
}

/// One decoded envelope of the event stream.
#[derive(Debug)]
pub enum StreamMessage {
    /// An update pertaining to the brokerage account, balances included.
    Account(AccountEvent),
    Authorization(Authorization),
    Listening(ListenStream),
    /// An update pertaining to an order: fills, partial fills,
    /// cancelations and rejections.
    Order(OrderEvent),
}

/// The mathematical shape of a decoded envelope.
pub enum StreamMessageView {
    Account(AccountEventView),
    Authorization(Authorization),
    Listening(Seq<Seq<char>>),
    Order(OrderEventView),
}

impl View for StreamMessage {
    type V = StreamMessageView;

    open spec fn view(&self) -> StreamMessageView {
        match self {
            StreamMessage::Account(e) => StreamMessageView::Account(e@),
            StreamMessage::Authorization(a) => StreamMessageView::Authorization(*a),
            StreamMessage::Listening(l) => StreamMessageView::Listening(l@),
            StreamMessage::Order(e) => StreamMessageView::Order(e@),
        }
    }
}

/// The status an authorization status field's text decodes to.
pub open spec fn spec_auth_status(s: Seq<char>) -> Option<AuthorizationStatus> {
    if s == "authorized"@ {
        Some(AuthorizationStatus::Authorized)
    } else if s == "unauthorized"@ {
        Some(AuthorizationStatus::Unauthorized)
    } else {
        None
    }
}

/// The action an authorization action field's text decodes to.
pub open spec fn spec_auth_action(s: Seq<char>) -> Option<AuthorizationAction> {
    if s == "authenticate"@ {
        Some(AuthorizationAction::Authenticate)
    } else if s == "listen"@ {
        Some(AuthorizationAction::Listen)
    } else {
        None
    }
}

/// The authorization an object's fields decode to.
pub open spec fn spec_decode_authorization(v: JsonSpec) -> Option<Authorization> {
    match v {
        JsonSpec::Obj(fs) => {
            let status = match spec_str_field(fs, "status"@) {
                Some(s) => spec_auth_status(s),
                None => None,
            };
            let action = match spec_str_field(fs, "action"@) {
                Some(s) => spec_auth_action(s),
                None => None,
            };
            if status is Some && action is Some {
                Some(Authorization { status: status.unwrap(), action: action.unwrap() })
            } else {
                None
            }
        },
        _ => None,
    }
}

/// Decodes an authorization from a JSON value.
pub fn decode_authorization(v: &JsonValue) -> (r: Option<Authorization>)
    ensures
        r == spec_decode_authorization(v@),
{
    let fields = match v {
        JsonValue::Obj(fields) => fields,
        _ => { return None },
    };
    let status_text = match str_field(fields, "status") {
        Some(s) => s,
        None => { return None },
    };
    let action_text = match str_field(fields, "action") {
        Some(s) => s,
        None => { return None },
    };
    let status = if str_eq(status_text.as_str(), "authorized") {
        Some(AuthorizationStatus::Authorized)
    } else if str_eq(status_text.as_str(), "unauthorized") {
        Some(AuthorizationStatus::Unauthorized)
    } else {
        None
    };
    let action = if str_eq(action_text.as_str(), "authenticate") {
        Some(AuthorizationAction::Authenticate)
    } else if str_eq(action_text.as_str(), "listen") {
        Some(AuthorizationAction::Listen)
    } else {
        None
    };
    match (status, action) {
        (Some(status), Some(action)) => Some(Authorization { status, action }),
        _ => None,
    }
}

/// The account event an object's fields decode to.
pub open spec fn spec_account_event_from_fields(fs: Seq<(Seq<char>, JsonSpec)>) -> Option<
    AccountEventView,
> {
    let id = spec_str_field(fs, "id"@);
    let created = spec_ts_field(fs, "created_at"@);
    let updated = spec_ts_field(fs, "updated_at"@);
    let deleted = spec_opt_ts_field(fs, "deleted_at"@);
    let status = spec_status_field(fs, "status"@);
    let cash = spec_dec_field(fs, "cash"@);
    let cash_withdrawable = spec_dec_field(fs, "cash_withdrawable"@);
    if id is Some && created is Some && updated is Some && deleted is Some && status is Some
        && cash is Some && cash_withdrawable is Some {
        Some(
            AccountEventView {
                id: id.unwrap(),
                created: created.unwrap(),
                updated: updated.unwrap(),
                deleted: deleted.unwrap(),
                status: status.unwrap(),
                cash: cash.unwrap(),
                cash_withdrawable: cash_withdrawable.unwrap(),
            },
        )
    } else {
        None
    }
}

/// The account event a JSON value decodes to.
pub open spec fn spec_decode_account_event(v: JsonSpec) -> Option<AccountEventView> {
    match v {
        JsonSpec::Obj(fs) => spec_account_event_from_fields(fs),
        _ => None,
    }
}

/// Decodes an account event from a JSON value.
pub fn decode_account_event(v: &JsonValue) -> (r: Option<AccountEvent>)
    ensures
        match r {
            Some(e) => spec_decode_account_event(v@) == Some(e@),
            None => spec_decode_account_event(v@) is None,
        },
{
    let fields = match v {
        JsonValue::Obj(fields) => fields,
        _ => { return None },
    };
    let id = match str_field(fields, "id") {
        Some(x) => x,
        None => { return None },
    };
    let created = match ts_field(fields, "created_at") {
        Some(x) => x,
        None => { return None },
    };
    let updated = match ts_field(fields, "updated_at") {
        Some(x) => x,
        None => { return None },
    };
    let deleted = match opt_ts_field(fields, "deleted_at") {
        Some(x) => x,
        None => { return None },
    };
    let status = match status_field(fields, "status") {
        Some(x) => x,
        None => { return None },
    };
    let cash = match dec_field(fields, "cash") {
        Some(x) => x,
        None => { return None },
    };
    let cash_withdrawable = match dec_field(fields, "cash_withdrawable") {
        Some(x) => x,
        None => { return None },
    };
    Some(AccountEvent { id, created, updated, deleted, status, cash, cash_withdrawable })
}

/// The order carried inside an order event's fields.
pub open spec fn spec_event_order(fs: Seq<(Seq<char>, JsonSpec)>) -> Option<OrderView> {
    match spec_obj_get(fs, "order"@) {
        Some(v) => spec_decode_order(v),
        None => None,
    }
}

/// The order event an object's fields decode to, by its `event` tag: every
/// variant carries the order's snapshot, the time-stamped variants the
/// event time, and the fill variants the execution price and quantity.
pub open spec fn spec_order_event_from_fields(fs: Seq<(Seq<char>, JsonSpec)>) -> Option<
    OrderEventView,
> {
    match spec_str_field(fs, "event"@) {
        None => None,
        Some(tag) => {
            let order = spec_event_order(fs);
            let timestamp = spec_ts_field(fs, "timestamp"@);
            let price = spec_dec_field(fs, "price"@);
            let qty = spec_u32_field(fs, "position_qty"@);
            if order is None {
                None
            } else if tag == "calculated"@ {
                Some(OrderEventView::Calculated { order: order.unwrap() })
            } else if tag == "canceled"@ {
                if timestamp is Some {
                    Some(
                        OrderEventView::Canceled {
                            timestamp: timestamp.unwrap(),
                            order: order.unwrap(),
                        },
                    )
                } else {
                    None
                }
            } else if tag == "done_for_day"@ {
                Some(OrderEventView::DoneForDay { order: order.unwrap() })
            } else if tag == "expired"@ {
                if timestamp is Some {
                    Some(
                        OrderEventView::Expired {
                            timestamp: timestamp.unwrap(),
                            order: order.unwrap(),
                        },
                    )
                } else {
                    None
                }
            } else if tag == "fill"@ {
                if timestamp is Some && price is Some && qty is Some {
                    Some(
                        OrderEventView::Fill {
                            timestamp: timestamp.unwrap(),
                            price: price.unwrap(),
                            qty: qty.unwrap(),
                            order: order.unwrap(),
                        },
                    )
                } else {
                    None
                }
            } else if tag == "new"@ {
                Some(OrderEventView::New { order: order.unwrap() })
            } else if tag == "order_cancel_rejected"@ {
                Some(OrderEventView::OrderCancelRejected { order: order.unwrap() })
            } else if tag == "order_replace_rejected"@ {
                Some(OrderEventView::OrderReplaceRejected { order: order.unwrap() })
            } else if tag == "partial_fill"@ {
                if timestamp is Some && price is Some && qty is Some {
                    Some(
                        OrderEventView::PartialFill {
                            timestamp: timestamp.unwrap(),
                            price: price.unwrap(),
                            qty: qty.unwrap(),
                            order: order.unwrap(),
                        },
                    )
                } else {
                    None
                }
            } else if tag == "pending_cancel"@ {
                Some(OrderEventView::PendingCancel { order: order.unwrap() })
            } else if tag == "pending_new"@ {
                Some(OrderEventView::PendingNew { order: order.unwrap() })
            } else if tag == "pending_replace"@ {
                Some(OrderEventView::PendingReplace { order: order.unwrap() })
            } else if tag == "rejected"@ {
                if timestamp is Some {
                    Some(
                        OrderEventView::Rejected {
                            timestamp: timestamp.unwrap(),
                            order: order.unwrap(),
                        },
                    )
                } else {
                    None
                }
            } else if tag == "replaced"@ {
                if timestamp is Some {
                    Some(
                        OrderEventView::Replaced {
                            timestamp: timestamp.unwrap(),
                            order: order.unwrap(),
                        },
                    )
                } else {
                    None
                }
            } else if tag == "stopped"@ {
                Some(OrderEventView::Stopped { order: order.unwrap() })
            } else if tag == "suspended"@ {
                Some(OrderEventView::Suspended { order: order.unwrap() })
            } else {
                None
            }
        },
    }
}

/// The order event a JSON value decodes to.
pub open spec fn spec_decode_order_event(v: JsonSpec) -> Option<OrderEventView> {
    match v {
        JsonSpec::Obj(fs) => spec_order_event_from_fields(fs),
        _ => None,
    }
}

/// Decodes an order event from a JSON value.
#[verifier::rlimit(100)]
pub fn decode_order_event(v: &JsonValue) -> (r: Option<OrderEvent>)
    ensures
        match r {
            Some(e) => spec_decode_order_event(v@) == Some(e@),
            None => spec_decode_order_event(v@) is None,
        },
{
    let fields = match v {
        JsonValue::Obj(fields) => fields,
        _ => { return None },
    };
    let tag = match str_field(fields, "event") {
        Some(x) => x,
        None => { return None },
    };
    let order = match obj_get(fields, "order") {
        Some(ov) => match Order::decode(ov) {
            Some(o) => o,
            None => { return None },
        },
        None => { return None },
    };
    let timestamp = ts_field(fields, "timestamp");
    let price = dec_field(fields, "price");
    let qty = u32_field(fields, "position_qty");
    let t = tag.as_str();
    if str_eq(t, "calculated") {
        Some(OrderEvent::Calculated { order })
    } else if str_eq(t, "canceled") {
        match timestamp {
            Some(timestamp) => Some(OrderEvent::Canceled { timestamp, order }),
            None => None,
        }
    } else if str_eq(t, "done_for_day") {
        Some(OrderEvent::DoneForDay { order })
    } else if str_eq(t, "expired") {
        match timestamp {
            Some(timestamp) => Some(OrderEvent::Expired { timestamp, order }),
            None => None,
        }
    } else if str_eq(t, "fill") {
        match (timestamp, price, qty) {
            (Some(timestamp), Some(price), Some(qty)) => Some(
                OrderEvent::Fill { timestamp, price, qty, order },
            ),
            _ => None,
        }
    } else if str_eq(t, "new") {
        Some(OrderEvent::New { order })
    } else if str_eq(t, "order_cancel_rejected") {
        Some(OrderEvent::OrderCancelRejected { order })
    } else if str_eq(t, "order_replace_rejected") {
        Some(OrderEvent::OrderReplaceRejected { order })
    } else if str_eq(t, "partial_fill") {
        match (timestamp, price, qty) {
            (Some(timestamp), Some(price), Some(qty)) => Some(
                OrderEvent::PartialFill { timestamp, price, qty, order },
            ),
            _ => None,
        }
    } else if str_eq(t, "pending_cancel") {
        Some(OrderEvent::PendingCancel { order })
    } else if str_eq(t, "pending_new") {
        Some(OrderEvent::PendingNew { order })
    } else if str_eq(t, "pending_replace") {
        Some(OrderEvent::PendingReplace { order })
    } else if str_eq(t, "rejected") {
        match timestamp {
            Some(timestamp) => Some(OrderEvent::Rejected { timestamp, order }),
            None => None,
        }
    } else if str_eq(t, "replaced") {
        match timestamp {
            Some(timestamp) => Some(OrderEvent::Replaced { timestamp, order }),
            None => None,
        }
    } else if str_eq(t, "stopped") {
        Some(OrderEvent::Stopped { order })
    } else if str_eq(t, "suspended") {
        Some(OrderEvent::Suspended { order })
    } else {
        None
    }
}

/// The stream names an array of JSON values decodes to: every element must
/// be a string.
pub open spec fn spec_decode_str_seq(items: Seq<JsonSpec>) -> Option<Seq<Seq<char>>>
    decreases items.len(),
{
    if items.len() == 0 {
        Some(Seq::empty())
    } else {
        match items[0] {
            JsonSpec::Text(s) => match spec_decode_str_seq(items.skip(1)) {
                Some(rest) => Some(seq![s] + rest),
                None => None,
            },
            _ => None,
        }
    }
}

/// The listen acknowledgment a JSON value decodes to: an object whose
/// `streams` field lists the stream names.
pub open spec fn spec_decode_listen(v: JsonSpec) -> Option<Seq<Seq<char>>> {
    match v {
        JsonSpec::Obj(fs) => match spec_obj_get(fs, "streams"@) {
            Some(JsonSpec::Arr(items)) => spec_decode_str_seq(items),
            _ => None,
        },
        _ => None,
    }
}

/// Decodes a listen acknowledgment from a JSON value.
pub fn decode_listen(v: &JsonValue) -> (r: Option<ListenStream>)
    ensures
        match r {
            Some(l) => spec_decode_listen(v@) == Some(l@),
            None => spec_decode_listen(v@) is None,
        },
{
    let fields = match v {
        JsonValue::Obj(fields) => fields,
        _ => { return None },
    };
    let items = match obj_get(fields, "streams") {
        Some(JsonValue::Arr(items)) => items,
        _ => { return None },
    };
    let ghost full = jv_seq_view(items@);
    proof {
        lemma_jv_seq_view(items@);
        assert(full.skip(0) =~= full);
        assert(spec_decode_listen(v@) == spec_decode_str_seq(full));
    }
    let n = items.len();
    let mut out: Vec<String> = Vec::new();
    let mut i: usize = 0;
    while i < n
        invariant
            i <= n == items@.len(),
            out@.len() == i,
            spec_decode_listen(v@) == spec_decode_str_seq(full),
            full == jv_seq_view(items@),
            full.len() == items@.len(),
            forall|k: int| 0 <= k < items@.len() ==> full[k] == crate::json::jv_view(items@[k]),
            spec_decode_str_seq(full) == (match spec_decode_str_seq(full.skip(i as int)) {
                Some(rest) => Some(Seq::new(out@.len(), |k: int| out@[k]@) + rest),
                None => None::<Seq<Seq<char>>>,
            }),
        decreases n - i,
    {
        let ghost before = Seq::new(out@.len(), |k: int| out@[k]@);
        proof {
            assert(full.skip(i as int)[0] == full[i as int]);
        }
        match &items[i] {
            JsonValue::Text(s) => {
                proof {
                    assert(full.skip(i as int).skip(1) =~= full.skip(i + 1));
                }
                out.push(s.clone());
                proof {
                    assert(Seq::new(out@.len(), |k: int| out@[k]@) =~= before.push(
                        out@[out@.len() - 1]@,
                    ));
                    let tail = spec_decode_str_seq(full.skip(i + 1));
                    if tail is Some {
                        let rest = tail.unwrap();
                        let s0 = items@[i as int]@->Text_0;
                        assert(before + (seq![s0] + rest) =~= (before.push(s0) + rest));
                    }
                }
            },
            _ => {
                return None;
            },
        }
        i += 1;
    }
    proof {
        assert(full.skip(n as int) =~= Seq::<JsonSpec>::empty());
        assert(Seq::new(out@.len(), |k: int| out@[k]@) + Seq::<Seq<char>>::empty() =~= Seq::new(
            out@.len(),
            |k: int| out@[k]@,
        ));
    }
    Some(ListenStream { streams: out })
}

/// The envelope a JSON value decodes to, by its `stream` tag.  An unknown
/// tag, and any malformed payload, decodes to nothing: the frame is
/// dropped, never the connection.
pub open spec fn spec_decode_stream_message(v: JsonSpec) -> Option<StreamMessageView> {
    match v {
        JsonSpec::Obj(fs) => match spec_str_field(fs, "stream"@) {
            None => None,
            Some(tag) => match spec_obj_get(fs, "data"@) {
                None => None,
                Some(data) => {
                    if tag == "account_updates"@ {
                        match spec_decode_account_event(data) {
                            Some(e) => Some(StreamMessageView::Account(e)),
                            None => None,
                        }
                    } else if tag == "authorization"@ {
                        match spec_decode_authorization(data) {
                            Some(a) => Some(StreamMessageView::Authorization(a)),
                            None => None,
                        }
                    } else if tag == "listening"@ {
                        match spec_decode_listen(data) {
                            Some(l) => Some(StreamMessageView::Listening(l)),
                            None => None,
                        }
                    } else if tag == "trade_updates"@ {
                        match spec_decode_order_event(data) {
                            Some(e) => Some(StreamMessageView::Order(e)),
                            None => None,
                        }
                    } else {
                        None
                    }
                },
            },
        },
        _ => None,
    }
}

/// Decodes a stream envelope from a JSON value.
pub fn decode_stream_message(v: &JsonValue) -> (r: Option<StreamMessage>)
    ensures
        match r {
            Some(m) => spec_decode_stream_message(v@) == Some(m@),
            None => spec_decode_stream_message(v@) is None,
        },
{
    let fields = match v {
        JsonValue::Obj(fields) => fields,
        _ => { return None },
    };
    let tag = match str_field(fields, "stream") {
        Some(x) => x,
        None => { return None },
    };
    let data = match obj_get(fields, "data") {
        Some(d) => d,
        None => { return None },
    };
    let t = tag.as_str();
    if str_eq(t, "account_updates") {
        match decode_account_event(data) {
            Some(e) => Some(StreamMessage::Account(e)),
            None => None,
        }
    } else if str_eq(t, "authorization") {
        match decode_authorization(data) {
            Some(a) => Some(StreamMessage::Authorization(a)),
            None => None,
        }
    } else if str_eq(t, "listening") {
        match decode_listen(data) {
            Some(l) => Some(StreamMessage::Listening(l)),
            None => None,
        }
    } else if str_eq(t, "trade_updates") {
        match decode_order_event(data) {
            Some(e) => Some(StreamMessage::Order(e)),
            None => None,
        }
    } else {
        None
    }
}

impl StreamMessage {
    /// Decodes one payload text into its envelope.
    pub fn decode(text: &str) -> (r: Option<StreamMessage>)
        ensures
            match r {
                Some(m) => json_of(text@) matches Some(j) && spec_decode_stream_message(j)
                    == Some(m@),
                None => match json_of(text@) {
                    Some(j) => spec_decode_stream_message(j) is None,
                    None => true,
                },
            },
    {
        match parse_json(text) {
            Some(v) => decode_stream_message(&v),
            None => None,
        }
    }
}

impl OrderEvent {
    /// Decodes one order event from its JSON text.
    pub fn from_text(text: &str) -> (r: Option<OrderEvent>)
        ensures
            match r {
                Some(e) => json_of(text@) matches Some(j) && spec_decode_order_event(j) == Some(
                    e@,
                ),
                None => match json_of(text@) {
                    Some(j) => spec_decode_order_event(j) is None,
                    None => true,
                },
            },
    {
        match parse_json(text) {
            Some(v) => decode_order_event(&v),
            None => None,
        }
    }
}

/// Whether a decoded envelope reaches the caller: only order and account
/// events do; authorization and listen acknowledgments are protocol
/// traffic, consumed internally.
pub open spec fn spec_forwardable(m: StreamMessageView) -> bool {
    m is Order || m is Account
}

/// One unit of inbound socket traffic, as plain values.
#[derive(Debug)]
pub enum WireFrame {
    /// A keep-alive probe carrying its payload.
    Ping(Vec<u8>),
    /// The answer to a keep-alive probe.
    Pong(Vec<u8>),
    /// A payload frame carrying JSON text.
    Text(String),
    /// A payload frame carrying JSON as UTF-8 bytes.
    Binary(Vec<u8>),
    /// The peer closes the connection.
    Close,
    /// Any other traffic; it is ignored.
    Other,
}

/// The mathematical shape of an inbound frame.
pub enum WireFrameView {
    Ping(Seq<u8>),
    Pong(Seq<u8>),
    Text(Seq<char>),
    Binary(Seq<u8>),
    Close,
    Other,
}

impl View for WireFrame {
    type V = WireFrameView;

    open spec fn view(&self) -> WireFrameView {
        match self {
            WireFrame::Ping(b) => WireFrameView::Ping(b@),
            WireFrame::Pong(b) => WireFrameView::Pong(b@),
            WireFrame::Text(s) => WireFrameView::Text(s@),
            WireFrame::Binary(b) => WireFrameView::Binary(b@),
            WireFrame::Close => WireFrameView::Close,
            WireFrame::Other => WireFrameView::Other,
        }
    }
}

/// One unit of outbound socket traffic.
#[derive(Debug)]
pub enum OutboundFrame {
    /// A control frame's JSON text.
    Text(String),
    /// The answer to a keep-alive probe.
    Pong(Vec<u8>),
}

/// The mathematical shape of an outbound frame.
pub enum OutboundFrameView {
    Text(Seq<char>),
    Pong(Seq<u8>),
}

impl View for OutboundFrame {
    type V = OutboundFrameView;

    open spec fn view(&self) -> OutboundFrameView {
        match self {
            OutboundFrame::Text(s) => OutboundFrameView::Text(s@),
            OutboundFrame::Pong(b) => OutboundFrameView::Pong(b@),
        }
    }
}

/// The payload of every pong this library sends.
pub open spec fn spec_pong_payload() -> Seq<u8> {
    seq![112u8, 111u8, 110u8, 103u8]
}

/// The subscription frame: a two-field envelope that asks for the order
/// and the account streams, in that order.
pub open spec fn spec_listen_frame() -> Seq<char> {
    "{\"action\":\"listen\",\"data\":{\"streams\":[\"trade_updates\",\"account_updates\"]}}"@
}

/// The state the reader loop, the writer loop and `stop` share: the
/// outbound frame queue and the cooperative shutdown flag.
pub struct SessionState {
    pub shutdown: bool,
    pub outbound: Seq<OutboundFrameView>,
}

/// What a payload text means for the caller: the envelope it decodes to,
/// if that envelope is one the caller receives.
pub open spec fn spec_inbound_text(s: Seq<char>) -> Option<StreamMessageView> {
    match json_of(s) {
        Some(j) => match spec_decode_stream_message(j) {
            Some(m) => if spec_forwardable(m) {
                Some(m)
            } else {
                None
            },
            None => None,
        },
        None => None,
    }
}

/// The reader loop's step: what one inbound frame does to the session
/// state, and what it forwards.  After shutdown nothing changes and
/// nothing is forwarded.  A ping queues a pong; a close sets the shutdown
/// flag; a payload frame decodes, and only order and account events are
/// forwarded; anything malformed drops the frame alone.
pub open spec fn spec_on_frame(s: SessionState, f: WireFrameView) -> (SessionState, Option<
    StreamMessageView,
>) {
    if s.shutdown {
        (s, None)
    } else {
        match f {
            WireFrameView::Ping(_) => (
                SessionState {
                    outbound: s.outbound.push(OutboundFrameView::Pong(spec_pong_payload())),
                    ..s
                },
                None,
            ),
            WireFrameView::Close => (SessionState { shutdown: true, ..s }, None),
            WireFrameView::Text(text) => (s, spec_inbound_text(text)),
            WireFrameView::Binary(bytes) => (
                s,
                if vstd::utf8::valid_utf8(bytes) {
                    spec_inbound_text(vstd::utf8::decode_utf8(bytes))
                } else {
                    None
                },
            ),
            WireFrameView::Pong(_) => (s, None),
            WireFrameView::Other => (s, None),
        }
    }
}

/// The writer loop's step: which frame goes out next.  After shutdown no
/// frame goes out, whatever is still queued; otherwise the queue drains
/// first in, first out.
pub open spec fn spec_next_outbound(s: SessionState) -> (SessionState, Option<OutboundFrameView>) {
    if s.shutdown {
        (s, None)
    } else if s.outbound.len() > 0 {
        (SessionState { outbound: s.outbound.skip(1), ..s }, Some(s.outbound[0]))
    } else {
        (s, None)
    }
}

/// Once the session is stopped, an inbound frame changes nothing and
/// forwards nothing, and the writer sends nothing more, whatever is still
/// queued.
pub proof fn lemma_stopped_session_is_inert(s: SessionState, f: WireFrameView)
    requires
        s.shutdown,
    ensures
        spec_on_frame(s, f).0 == s,
        spec_on_frame(s, f).1 is None,
        spec_next_outbound(s).0 == s,
        spec_next_outbound(s).1 is None,
{
}

/// The shutdown flag is permanent: no step of either loop clears it.
pub proof fn lemma_shutdown_is_permanent(s: SessionState, f: WireFrameView)
    ensures
        s.shutdown ==> spec_on_frame(s, f).0.shutdown,
        s.shutdown ==> spec_next_outbound(s).0.shutdown,
{
}

/// Authorization and listen acknowledgments are consumed internally: a
/// payload frame whose envelope decodes to either forwards nothing to the
/// caller.
pub proof fn lemma_protocol_envelopes_not_forwarded(
    s: SessionState,
    text: Seq<char>,
    j: JsonSpec,
    m: StreamMessageView,
)
    requires
        json_of(text) == Some(j),
        spec_decode_stream_message(j) == Some(m),
        m is Authorization || m is Listening,
    ensures
        spec_on_frame(s, WireFrameView::Text(text)).1 is None,
{
}

/// Order and account events are forwarded: a payload frame whose envelope
/// decodes to either reaches the caller as it is, unless the session is
/// already stopped.
pub proof fn lemma_domain_events_forwarded(
    s: SessionState,
    text: Seq<char>,
    j: JsonSpec,
    m: StreamMessageView,
)
    requires
        !s.shutdown,
        json_of(text) == Some(j),
        spec_decode_stream_message(j) == Some(m),
        m is Order || m is Account,
    ensures
        spec_on_frame(s, WireFrameView::Text(text)).1 == Some(m),
{
}

/// Realtime event streamer.
///
/// It keeps the session's shared state - the outbound queue and the
/// cooperative shutdown flag - and decides every step of the two loops
/// that the surrounding application runs: `start` queues the
/// authentication and subscription frames, `on_frame` answers one inbound
/// frame, `next_outbound` hands the writer its next frame, and `stop`
/// asks the session to wind down.
pub struct Streamer<'a> {
    alpaca: &'a Alpaca,
    shutdown: bool,
    outbound: Vec<OutboundFrame>,
}

impl<'a> Streamer<'a> {
    /// The session state this streamer is in.
    pub closed spec fn state(&self) -> SessionState {
        SessionState {
            shutdown: self.shutdown,
            outbound: Seq::new(self.outbound@.len(), |i: int| self.outbound@[i]@),
        }
    }

    /// The session this streamer authenticates as.
    pub closed spec fn session(&self) -> crate::alpaca::AlpacaView {
        self.alpaca@
    }

    /// Creates a new event streamer: not yet stopped, nothing queued.
    pub fn new(alpaca: &'a Alpaca) -> (r: Streamer<'a>)
        ensures
            r.state() == (SessionState { shutdown: false, outbound: Seq::<
                OutboundFrameView,
            >::empty() }),
            r.session() == alpaca@,
    {
        let r = Streamer { alpaca, shutdown: false, outbound: Vec::new() };
        proof {
            assert(r.state().outbound =~= Seq::<OutboundFrameView>::empty());
        }
        r
    }

    /// Starts the stream of events: derives the websocket endpoint and
    /// queues, in this order and before anything else can be queued, the
    /// authentication frame and then the subscription frame for the order
    /// and account streams.
    pub fn start(&mut self) -> (endpoint: String)
        requires
            old(self).session().host.len() >= 4,
        ensures
            endpoint@ == "ws"@ + old(self).session().host.skip(4) + "/stream"@,
            final(self).session() == old(self).session(),
            final(self).state().shutdown == old(self).state().shutdown,
            final(self).state().outbound == old(self).state().outbound + seq![
                OutboundFrameView::Text(
                    spec_auth_frame(old(self).session().key, old(self).session().secret),
                ),
                OutboundFrameView::Text(spec_listen_frame()),
            ],
    {
        let ghost before = self.state().outbound;
        let (endpoint, auth) = self.alpaca.stream();
        self.outbound.push(OutboundFrame::Text(auth));
        let listen = String::from_str(
            "{\"action\":\"listen\",\"data\":{\"streams\":[\"trade_updates\",\"account_updates\"]}}",
        );
        self.outbound.push(OutboundFrame::Text(listen));
        proof {
            assert(final(self).state().outbound =~= before + seq![
                OutboundFrameView::Text(
                    spec_auth_frame(old(self).session().key, old(self).session().secret),
                ),
                OutboundFrameView::Text(spec_listen_frame()),
            ]);
        }
        endpoint
    }

    /// Answers one inbound frame, exactly as the reader loop's step says:
    /// what comes back is forwarded to the caller, and the session state
    /// moves on.
    pub fn on_frame(&mut self, frame: WireFrame) -> (r: Option<StreamMessage>)
        ensures
            final(self).session() == old(self).session(),
            final(self).state() == spec_on_frame(old(self).state(), frame@).0,
            ({
                let forwarded = spec_on_frame(old(self).state(), frame@).1;
                match r {
                    Some(m) => forwarded == Some(m@),
                    None => forwarded is None,
                }
            }),
    {
        if self.shutdown {
            return None;
        }
        match frame {
            WireFrame::Ping(_) => {
                let ghost before = self.state().outbound;
                let mut payload: Vec<u8> = Vec::new();
                payload.push(112);
                payload.push(111);
                payload.push(110);
                payload.push(103);
                proof {
                    assert(payload@ =~= spec_pong_payload());
                }
                self.outbound.push(OutboundFrame::Pong(payload));
                proof {
                    assert(final(self).state().outbound =~= before.push(
                        OutboundFrameView::Pong(spec_pong_payload()),
                    ));
                }
                None
            },
            WireFrame::Close => {
                self.shutdown = true;
                None
            },
            WireFrame::Text(text) => self.inbound_text(text.as_str()),
            WireFrame::Binary(bytes) => {
                let ghost raw = bytes@;
                match utf8_to_string(bytes) {
                    Some(text) => {
                        proof {
                            vstd::utf8::encode_utf8_decode_utf8(text@);
                        }
                        self.inbound_text(text.as_str())
                    },
                    None => None,
                }
            },
            WireFrame::Pong(_) => None,
            WireFrame::Other => None,
        }
    }

    /// Decodes one payload text and filters it, as the reader loop's step
    /// says for a text frame.
    fn inbound_text(&self, text: &str) -> (r: Option<StreamMessage>)
        ensures
            match r {
                Some(m) => spec_inbound_text(text@) == Some(m@),
                None => spec_inbound_text(text@) is None,
            },
    {
        let v = match parse_json(text) {
            Some(v) => v,
            None => { return None },
        };
        let m = match decode_stream_message(&v) {
            Some(m) => m,
            None => { return None },
        };
        match &m {
            StreamMessage::Order(_) => Some(m),
            StreamMessage::Account(_) => Some(m),
            _ => None,
        }
    }

    /// Hands the writer loop its next frame, exactly as the writer's step
    /// says: nothing after shutdown, else the queue first in, first out.
    pub fn next_outbound(&mut self) -> (r: Option<OutboundFrame>)
        ensures
            final(self).session() == old(self).session(),
            final(self).state() == spec_next_outbound(old(self).state()).0,
            ({
                let sent = spec_next_outbound(old(self).state()).1;
                match r {
                    Some(f) => sent == Some(f@),
                    None => sent is None,
                }
            }),
    {
        if self.shutdown {
            return None;
        }
        if self.outbound.len() == 0 {
            return None;
        }
        let ghost before = self.state().outbound;
        let f = self.outbound.remove(0);
        proof {
            assert(final(self).state().outbound =~= before.skip(1));
        }
        Some(f)
    }

    /// Whether the session's host can carry the websocket scheme, as
    /// `start` asks.
    pub fn host_supports_streaming(&self) -> (r: bool)
        ensures
            r == (self.session().host.len() >= 4),
    {
        self.alpaca.host_len() >= 4
    }

    /// Whether the session has been asked to wind down.
    pub fn is_stopped(&self) -> (r: bool)
        ensures
            r == self.state().shutdown,
    {
        self.shutdown
    }

    /// Stops the stream of events: sets the shared shutdown flag, once
    /// and for the rest of the session's life.  The loops wind down as
    /// they observe it; the socket is not severed by force.
    pub fn stop(&mut self)
        ensures
            final(self).session() == old(self).session(),
            final(self).state() == (SessionState { shutdown: true, ..old(self).state() }),
    {
        self.shutdown = true;
    }
}

} // verus!
