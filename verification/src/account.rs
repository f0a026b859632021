//! The account resource and its decoding.

use vstd::prelude::*;
use crate::json::{spec_obj_get, spec_str_field, spec_dec_field, spec_bool_field, jv_fields_view,
    json_of, obj_get, str_field, dec_field, bool_field, parse_json, JsonSpec, JsonValue};
use crate::num::Decimal;
use crate::text::str_eq;
use crate::Error;

verus! {

/// The status of the account.
#[derive(Debug, Clone, Copy, PartialEq, Eq, Structural)]
pub enum AccountStatus {
    /// The account information is being updated.
    AccountUpdated,
    /// The account is active for trading.
    Active,
    /// The final account approval is pending.
    ApprovalPending,
    /// The account is onboarding.
    Onboarding,
    /// The account application has been rejected.
    Rejected,
    /// The account application submission failed.
    SubmissionFailed,
    /// The account application has been submitted for review.
    Submitted,
}

/// The status an account status field's text decodes to.
pub open spec fn spec_account_status(s: Seq<char>) -> Option<AccountStatus> {
    if s == "ACCOUNT_UPDATED"@ {
        Some(AccountStatus::AccountUpdated)
    } else if s == "ACTIVE"@ {
        Some(AccountStatus::Active)
    } else if s == "APPROVAL_PENDING"@ {
        Some(AccountStatus::ApprovalPending)
    } else if s == "ONBOARDING"@ {
        Some(AccountStatus::Onboarding)
    } else if s == "REJECTED"@ {
        Some(AccountStatus::Rejected)
    } else if s == "SUBMISSION_FAILED"@ {
        Some(AccountStatus::SubmissionFailed)
    } else if s == "SUBMITTED"@ {
        Some(AccountStatus::Submitted)
    } else {
        None
    }
}

/// Decodes an account status from its text.
pub fn account_status_of(s: &str) -> (r: Option<AccountStatus>)
    ensures
        r == spec_account_status(s@),
{
    if str_eq(s, "ACCOUNT_UPDATED") {
        Some(AccountStatus::AccountUpdated)
    } else if str_eq(s, "ACTIVE") {
        Some(AccountStatus::Active)
    } else if str_eq(s, "APPROVAL_PENDING") {
        Some(AccountStatus::ApprovalPending)
    } else if str_eq(s, "ONBOARDING") {
        Some(AccountStatus::Onboarding)
    } else if str_eq(s, "REJECTED") {
        Some(AccountStatus::Rejected)
    } else if str_eq(s, "SUBMISSION_FAILED") {
        Some(AccountStatus::SubmissionFailed)
    } else if str_eq(s, "SUBMITTED") {
        Some(AccountStatus::Submitted)
    } else {
        None
    }
}

/// An account status field of an object.
pub open spec fn spec_status_field(fs: Seq<(Seq<char>, JsonSpec)>, key: Seq<char>) -> Option<
    AccountStatus,
> {
    match spec_obj_get(fs, key) {
        Some(JsonSpec::Text(s)) => spec_account_status(s),
        _ => None,
    }
}

/// Reads an account status field out of an object's fields.
pub fn status_field(fields: &Vec<(String, JsonValue)>, key: &str) -> (r: Option<AccountStatus>)
    ensures
        r == spec_status_field(jv_fields_view(fields@), key@),
{
    match obj_get(fields, key) {
        Some(JsonValue::Text(s)) => account_status_of(s.as_str()),
        _ => None,
    }
}

/// Important information related to an account: its status, the funds
/// available, and the flags that restrict what it may do.
#[derive(Debug)]
pub struct Account {
    /// Account ID - a UUID.
    pub id: String,
    /// Account number - a string different from the account ID.
    pub number: String,
    /// Cash balance.
    pub cash: Decimal,
    /// The total equity in the account.
    pub equity: Decimal,
    /// Real-time value of all long positions held in the account.
    pub long_market_value: Decimal,
    /// Real-time value of all short positions held in the account.
    pub short_market_value: Decimal,
    /// Current available buying power.
    pub buying_power: Decimal,
    /// If true, all account activity by the user is prohibited.
    pub is_account_blocked: bool,
    /// If true, the account has been flagged as a pattern day trader.
    pub is_pattern_day_trader: bool,
    /// If true, the account may not place orders, by the user's own request.
    pub is_trade_suspended: bool,
    /// If true, the account is not allowed to place orders.
    pub is_trading_blocked: bool,
    /// If true, the account is not allowed to request money transfers.
    pub is_transfers_blocked: bool,
    /// Account status.
    pub status: AccountStatus,
}

/// The mathematical shape of an account.
pub struct AccountView {
    pub id: Seq<char>,
    pub number: Seq<char>,
    pub cash: Decimal,
    pub equity: Decimal,
    pub long_market_value: Decimal,
    pub short_market_value: Decimal,
    pub buying_power: Decimal,
    pub is_account_blocked: bool,
    pub is_pattern_day_trader: bool,
    pub is_trade_suspended: bool,
    pub is_trading_blocked: bool,
    pub is_transfers_blocked: bool,
    pub status: AccountStatus,
}

impl View for Account {
    type V = AccountView;

    open spec fn view(&self) -> AccountView {
        AccountView {
            id: self.id@,
            number: self.number@,
            cash: self.cash,
            equity: self.equity,
            long_market_value: self.long_market_value,
            short_market_value: self.short_market_value,
            buying_power: self.buying_power,
            is_account_blocked: self.is_account_blocked,
            is_pattern_day_trader: self.is_pattern_day_trader,
            is_trade_suspended: self.is_trade_suspended,
            is_trading_blocked: self.is_trading_blocked,
            is_transfers_blocked: self.is_transfers_blocked,
            status: self.status,
        }
    }
}

/// The account an object's fields decode to: every field must be present
/// and well-formed, with the balances accepted as JSON numbers or as
/// numeric strings alike.
pub open spec fn spec_account_from_fields(fs: Seq<(Seq<char>, JsonSpec)>) -> Option<AccountView> {
    let id = spec_str_field(fs, "id"@);
    let number = spec_str_field(fs, "account_number"@);
    let cash = spec_dec_field(fs, "cash"@);
    let equity = spec_dec_field(fs, "equity"@);
    let long_market_value = spec_dec_field(fs, "long_market_value"@);
    let short_market_value = spec_dec_field(fs, "short_market_value"@);
    let buying_power = spec_dec_field(fs, "buying_power"@);
    let is_account_blocked = spec_bool_field(fs, "account_blocked"@);
    let is_pattern_day_trader = spec_bool_field(fs, "pattern_day_trader"@);
    let is_trade_suspended = spec_bool_field(fs, "trade_suspended_by_user"@);
    let is_trading_blocked = spec_bool_field(fs, "trading_blocked"@);
    let is_transfers_blocked = spec_bool_field(fs, "transfers_blocked"@);
    let status = spec_status_field(fs, "status"@);
    if id is Some && number is Some && cash is Some && equity is Some && long_market_value is Some
        && short_market_value is Some && buying_power is Some && is_account_blocked is Some
        && is_pattern_day_trader is Some && is_trade_suspended is Some && is_trading_blocked
        is Some && is_transfers_blocked is Some && status is Some {
        Some(
            AccountView {
                id: id.unwrap(),
                number: number.unwrap(),
                cash: cash.unwrap(),
                equity: equity.unwrap(),
                long_market_value: long_market_value.unwrap(),
                short_market_value: short_market_value.unwrap(),
                buying_power: buying_power.unwrap(),
                is_account_blocked: is_account_blocked.unwrap(),
                is_pattern_day_trader: is_pattern_day_trader.unwrap(),
                is_trade_suspended: is_trade_suspended.unwrap(),
                is_trading_blocked: is_trading_blocked.unwrap(),
                is_transfers_blocked: is_transfers_blocked.unwrap(),
                status: status.unwrap(),
            },
        )
    } else {
        None
    }
}

/// The account a JSON value decodes to: it must be an object.
pub open spec fn spec_decode_account(v: JsonSpec) -> Option<AccountView> {
    match v {
        JsonSpec::Obj(fs) => spec_account_from_fields(fs),
        _ => None,
    }
}

/// Two JSON values that differ at most in how a numeral is written: as a
/// JSON number or as a JSON string.
pub open spec fn numerals_agree(v1: JsonSpec, v2: JsonSpec) -> bool {
    ||| v1 == v2
    ||| (match (v1, v2) {
        (JsonSpec::Num(a), JsonSpec::Text(b)) => a == b,
        (JsonSpec::Text(a), JsonSpec::Num(b)) => a == b,
        _ => false,
    })
}

/// Field lists that carry the same keys in the same order, with values
/// that differ at most in how their numerals are written.
pub open spec fn fields_numerals_agree(
    fs1: Seq<(Seq<char>, JsonSpec)>,
    fs2: Seq<(Seq<char>, JsonSpec)>,
) -> bool {
    &&& fs1.len() == fs2.len()
    &&& forall|i: int|
        0 <= i < fs1.len() ==> (#[trigger] fs1[i]).0 == (#[trigger] fs2[i]).0 && numerals_agree(
            fs1[i].1,
            fs2[i].1,
        )
}

/// Looking a key up in two such field lists finds values that differ at
/// most in how their numerals are written, or finds neither.
pub proof fn lemma_obj_get_numerals(
    fs1: Seq<(Seq<char>, JsonSpec)>,
    fs2: Seq<(Seq<char>, JsonSpec)>,
    key: Seq<char>,
)
    requires
        fields_numerals_agree(fs1, fs2),
    ensures
        match (spec_obj_get(fs1, key), spec_obj_get(fs2, key)) {
            (Some(v1), Some(v2)) => numerals_agree(v1, v2),
            (None, None) => true,
            _ => false,
        },
    decreases fs1.len(),
{
    if fs1.len() > 0 {
        assert(fs1[0].0 == fs2[0].0 && numerals_agree(fs1[0].1, fs2[0].1));
        if fs1[0].0 != key {
            assert(fields_numerals_agree(fs1.skip(1), fs2.skip(1))) by {
                assert forall|i: int|
                    0 <= i < fs1.skip(1).len() implies (#[trigger] fs1.skip(1)[i]).0 == (
                #[trigger] fs2.skip(1)[i]).0 && numerals_agree(
                    fs1.skip(1)[i].1,
                    fs2.skip(1)[i].1,
                ) by {
                    assert(fs1.skip(1)[i] == fs1[i + 1]);
                    assert(fs2.skip(1)[i] == fs2[i + 1]);
                }
            }
            lemma_obj_get_numerals(fs1.skip(1), fs2.skip(1), key);
        }
    }
}

/// Valid account payloads decode to identical typed values whether their
/// numeric fields are written as JSON numbers or as numeric strings.
#[verifier::rlimit(100)]
pub proof fn lemma_account_decode_numerals(
    fs1: Seq<(Seq<char>, JsonSpec)>,
    fs2: Seq<(Seq<char>, JsonSpec)>,
)
    requires
        fields_numerals_agree(fs1, fs2),
        spec_account_from_fields(fs1) is Some,
        spec_account_from_fields(fs2) is Some,
    ensures
        spec_account_from_fields(fs1) == spec_account_from_fields(fs2),
{
    lemma_obj_get_numerals(fs1, fs2, "id"@);
    lemma_obj_get_numerals(fs1, fs2, "account_number"@);
    lemma_obj_get_numerals(fs1, fs2, "cash"@);
    lemma_obj_get_numerals(fs1, fs2, "equity"@);
    lemma_obj_get_numerals(fs1, fs2, "long_market_value"@);
    lemma_obj_get_numerals(fs1, fs2, "short_market_value"@);
    lemma_obj_get_numerals(fs1, fs2, "buying_power"@);
    lemma_obj_get_numerals(fs1, fs2, "account_blocked"@);
    lemma_obj_get_numerals(fs1, fs2, "pattern_day_trader"@);
    lemma_obj_get_numerals(fs1, fs2, "trade_suspended_by_user"@);
    lemma_obj_get_numerals(fs1, fs2, "trading_blocked"@);
    lemma_obj_get_numerals(fs1, fs2, "transfers_blocked"@);
    lemma_obj_get_numerals(fs1, fs2, "status"@);
}

impl Account {
    /// Decodes an account from a JSON value.
    pub fn decode(v: &JsonValue) -> (r: Option<Account>)
        ensures
            match r {
                Some(a) => spec_decode_account(v@) == Some(a@),
                None => spec_decode_account(v@) is None,
            },
    {
        let fields = match v {
            JsonValue::Obj(fields) => fields,
            _ => { return None },
        };
        let id = match str_field(fields, "id") {
            Some(x) => x,
            None => { return None },
        };
        let number = match str_field(fields, "account_number") {
            Some(x) => x,
            None => { return None },
        };
        let cash = match dec_field(fields, "cash") {
            Some(x) => x,
            None => { return None },
        };
        let equity = match dec_field(fields, "equity") {
            Some(x) => x,
            None => { return None },
        };
        let long_market_value = match dec_field(fields, "long_market_value") {
            Some(x) => x,
            None => { return None },
        };
        let short_market_value = match dec_field(fields, "short_market_value") {
            Some(x) => x,
            None => { return None },
        };
        let buying_power = match dec_field(fields, "buying_power") {
            Some(x) => x,
            None => { return None },
        };
        let is_account_blocked = match bool_field(fields, "account_blocked") {
            Some(x) => x,
            None => { return None },
        };
        let is_pattern_day_trader = match bool_field(fields, "pattern_day_trader") {
            Some(x) => x,
            None => { return None },
        };
        let is_trade_suspended = match bool_field(fields, "trade_suspended_by_user") {
            Some(x) => x,
            None => { return None },
        };
        let is_trading_blocked = match bool_field(fields, "trading_blocked") {
            Some(x) => x,
            None => { return None },
        };
        let is_transfers_blocked = match bool_field(fields, "transfers_blocked") {
            Some(x) => x,
            None => { return None },
        };
        let status = match status_field(fields, "status") {
            Some(x) => x,
            None => { return None },
        };
        Some(
            Account {
                id,
                number,
                cash,
                equity,
                long_market_value,
                short_market_value,
                buying_power,
                is_account_blocked,
                is_pattern_day_trader,
                is_trade_suspended,
                is_trading_blocked,
                is_transfers_blocked,
                status,
            },
        )
    }

    /// Maps the response of the account fetch to its outcome: any
    /// non-success status means the credentials were not accepted, and a
    /// success whose body does not decode is bad data.
    pub fn from_response(status: u16, body: &str) -> (r: Result<Account, Error>)
        ensures
            !(200 <= status < 300) ==> (r matches Err(e) && e matches Error::InvalidCredentials),
            (200 <= status < 300) ==> match json_of(body@) {
                Some(v) => match spec_decode_account(v) {
                    Some(a) => r matches Ok(acct) && acct@ == a,
                    None => r matches Err(e) && e matches Error::BadData,
                },
                None => r matches Err(e) && e matches Error::BadData,
            },
    {
        if !(200 <= status && status < 300) {
            return Err(Error::InvalidCredentials);
        }
        match parse_json(body) {
            Some(v) => match Account::decode(&v) {
                Some(a) => Ok(a),
                None => Err(Error::BadData),
            },
            None => Err(Error::BadData),
        }
    }
}

} // verus!
