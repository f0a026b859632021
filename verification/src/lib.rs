//! Client library for a brokerage trading API.
//!
//! The library holds the protocol logic: decoding the realtime stream of
//! order and account events, encoding the control frames the stream needs,
//! validating orders before any request is made, composing requests, and
//! mapping HTTP statuses to typed errors.  The network itself is driven by
//! the surrounding application.

use vstd::prelude::*;

pub mod account;
pub mod alpaca;
pub mod encode;
pub mod json;
pub mod order;
pub mod num;
pub mod streaming;
pub mod text;
pub mod time;

pub use account::Account;
pub use account::AccountStatus;
pub use alpaca::Alpaca;
pub use num::Decimal;
pub use order::Order;
pub use order::OrderBuilder;
pub use order::OrderStatus;
pub use order::OrderType;
pub use order::OrderUpdater;
pub use order::TimeInForce;
pub use streaming::OrderEvent;
pub use streaming::StreamMessage;
pub use streaming::Streamer;

verus! {

/// The error kinds that an operation can surface to its caller.
#[derive(Debug)]
pub enum Error {
    /// The response body could not be decoded.
    BadData,
    /// An unexpected HTTP status came back from the given URL.
    CallFailed { url: String, status: u16 },
    /// A hand-built JSON payload was malformed; should never happen.
    InternalJSON,
    /// A path did not compose into a valid URL; should never happen.
    InternalURL,
    /// The key id or the secret key were not accepted.
    InvalidCredentials,
    /// The order cannot be submitted, e.g. for lack of buying power.
    OrderForbidden,
    /// The order failed client-side validation; no request was made.
    OrderInvalid { reason: String },
    /// The order with this id cannot be canceled.
    OrderNotCancelable { order_id: String },
    /// No order with this id was found.
    OrderNotFound { order_id: String },
    /// The request could not be carried out at the transport level.
    RequestFailed,
    /// The websocket connection failed.
    StreamingFailed,
    /// An unclassified failure.
    Unknown,
}

/// The human-readable description of each error kind.
pub open spec fn spec_error_message(e: &Error) -> Seq<char> {
    match e {
        Error::BadData => "Alpaca returned invalid data"@,
        Error::CallFailed { url, status } => "Alpaca call failed. '"@ + url@ + "' returned a "@
            + encode::spec_u64_digits(*status as nat) + " result."@,
        Error::InternalJSON => "An internal error occurred"@,
        Error::InternalURL => "An internal error occurred - a URL could not be composed"@,
        Error::InvalidCredentials => "The key ID or secret key were not accepted"@,
        Error::OrderForbidden => "The order cannot be submitted due to lack of buying power"@,
        Error::OrderInvalid { reason } => "The order is invalid.  "@ + reason@,
        Error::OrderNotCancelable { order_id } => "The order '"@ + order_id@
            + "' cannot be canceled"@,
        Error::OrderNotFound { order_id } => "The order '"@ + order_id@ + "' was not found"@,
        Error::RequestFailed => "Alpaca call failed for unknown reason."@,
        Error::StreamingFailed => "Alpaca websocket connection failed for unknown reason."@,
        Error::Unknown => "An unexpected error occurred"@,
    }
}

impl Error {
    /// Describes the error in words.
    pub fn message(&self) -> (r: String)
        ensures
            r@ == spec_error_message(self),
    {
        let mut buf = encode::JsonBuf::new();
        match self {
            Error::BadData => buf.lit("Alpaca returned invalid data"),
            Error::CallFailed { url, status } => {
                buf.lit("Alpaca call failed. '");
                buf.lit(url.as_str());
                buf.lit("' returned a ");
                buf.u64_val(*status as u64);
                buf.lit(" result.");
            },
            Error::InternalJSON => buf.lit("An internal error occurred"),
            Error::InternalURL => buf.lit(
                "An internal error occurred - a URL could not be composed",
            ),
            Error::InvalidCredentials => buf.lit("The key ID or secret key were not accepted"),
            Error::OrderForbidden => buf.lit(
                "The order cannot be submitted due to lack of buying power",
            ),
            Error::OrderInvalid { reason } => {
                buf.lit("The order is invalid.  ");
                buf.lit(reason.as_str());
            },
            Error::OrderNotCancelable { order_id } => {
                buf.lit("The order '");
                buf.lit(order_id.as_str());
                buf.lit("' cannot be canceled");
            },
            Error::OrderNotFound { order_id } => {
                buf.lit("The order '");
                buf.lit(order_id.as_str());
                buf.lit("' was not found");
            },
            Error::RequestFailed => buf.lit("Alpaca call failed for unknown reason."),
            Error::StreamingFailed => buf.lit(
                "Alpaca websocket connection failed for unknown reason.",
            ),
            Error::Unknown => buf.lit("An unexpected error occurred"),
        }
        let r = buf.finish();
        proof {
            assert(r@ =~= spec_error_message(self));
        }
        r
    }
}

} // verus!
