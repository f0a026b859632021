use alpaca_finance::num::Decimal;
use alpaca_finance::{Account, AccountStatus, StreamMessage};

fn valid_account_json() -> String {
    let mut s = String::new();
    s.push_str("{\"id\":\"e6fe16f3-64a4-4921-8928-cadf02f92f98\",");
    s.push_str("\"account_number\":\"010203ABCD\",");
    s.push_str("\"cash\":\"-23140.2\",");
    s.push_str("\"equity\":\"103820.56\",");
    s.push_str("\"long_market_value\":\"126960.76\",");
    s.push_str("\"short_market_value\":\"0\",");
    s.push_str("\"buying_power\":\"262113.632\",");
    s.push_str("\"account_blocked\":false,");
    s.push_str("\"pattern_day_trader\":false,");
    s.push_str("\"trade_suspended_by_user\":false,");
    s.push_str("\"trading_blocked\":false,");
    s.push_str("\"transfers_blocked\":false,");
    s.push_str("\"status\":\"ACTIVE\"}");
    s
}

#[test]
fn get_account() {
    //! Ensure that we can load a valid account

    // GIVEN - a valid account payload from Alpaca
    let body = valid_account_json();

    // WHEN - we get our account
    let account = Account::from_response(200, &body).unwrap();

    // THEN - we get the results we expect
    assert_eq!("e6fe16f3-64a4-4921-8928-cadf02f92f98", account.id);
    assert_eq!("010203ABCD", account.number);
    assert_eq!(Decimal::new(true, 231402, 1), account.cash);
    assert_eq!(Decimal::new(false, 10382056, 2), account.equity);
    assert_eq!(Decimal::new(false, 12696076, 2), account.long_market_value);
    assert_eq!(Decimal::new(false, 0, 0), account.short_market_value);
    assert_eq!(Decimal::new(false, 262113632, 3), account.buying_power);
    assert_eq!(AccountStatus::Active, account.status);
    assert_eq!(false, account.is_account_blocked);
    assert_eq!(false, account.is_trade_suspended);
    assert_eq!(false, account.is_trading_blocked);
    assert_eq!(false, account.is_transfers_blocked);
}

#[test]
#[should_panic(expected = "InvalidCredentials")]
fn get_account_bad_credentials() {
    //! Ensure that we fail gracefully when we have bad credentials

    // GIVEN - a 403 answer for the account
    let body = valid_account_json();

    // WHEN - we get our account
    Account::from_response(403, &body).unwrap();

    // THEN - we get an error
}

#[test]
#[should_panic(expected = "BadData")]
fn get_account_bad_data() {
    //! Ensure that we fail gracefully when Alpaca sends us bad data

    // GIVEN - an account with corrupted data
    let body = "corrupted";

    // WHEN - we get our account
    Account::from_response(200, body).unwrap();

    // THEN - we get an error
}

#[test]
fn numbers_and_numeric_strings_decode_alike() {
    // the same account, with every numeric field written as a JSON number
    let mut s = String::new();
    s.push_str("{\"id\":\"e6fe16f3-64a4-4921-8928-cadf02f92f98\",");
    s.push_str("\"account_number\":\"010203ABCD\",");
    s.push_str("\"cash\":-23140.2,");
    s.push_str("\"equity\":103820.56,");
    s.push_str("\"long_market_value\":126960.76,");
    s.push_str("\"short_market_value\":0,");
    s.push_str("\"buying_power\":262113.632,");
    s.push_str("\"account_blocked\":false,");
    s.push_str("\"pattern_day_trader\":false,");
    s.push_str("\"trade_suspended_by_user\":false,");
    s.push_str("\"trading_blocked\":false,");
    s.push_str("\"transfers_blocked\":false,");
    s.push_str("\"status\":\"ACTIVE\"}");

    let from_numbers = Account::from_response(200, &s).unwrap();
    let from_strings = Account::from_response(200, &valid_account_json()).unwrap();
    assert_eq!(from_numbers.cash, from_strings.cash);
    assert_eq!(from_numbers.equity, from_strings.equity);
    assert_eq!(from_numbers.long_market_value, from_strings.long_market_value);
    assert_eq!(from_numbers.short_market_value, from_strings.short_market_value);
    assert_eq!(from_numbers.buying_power, from_strings.buying_power);
}

#[test]
fn account_event_envelope_decodes() {
    let mut s = String::new();
    s.push_str("{\"stream\":\"account_updates\",\"data\":{");
    s.push_str("\"id\":\"e6fe16f3-64a4-4921-8928-cadf02f92f98\",");
    s.push_str("\"created_at\":\"2020-01-01T00:00:00Z\",");
    s.push_str("\"updated_at\":\"2020-01-02T00:00:00Z\",");
    s.push_str("\"deleted_at\":null,");
    s.push_str("\"status\":\"ACTIVE\",");
    s.push_str("\"cash\":\"500.12\",");
    s.push_str("\"cash_withdrawable\":250}}");

    match StreamMessage::decode(&s).unwrap() {
        StreamMessage::Account(e) => {
            assert_eq!("e6fe16f3-64a4-4921-8928-cadf02f92f98", e.id);
            assert_eq!(1577836800000i64, e.created);
            assert_eq!(1577923200000i64, e.updated);
            assert_eq!(None, e.deleted);
            assert_eq!(AccountStatus::Active, e.status);
            assert_eq!(Decimal::new(false, 50012, 2), e.cash);
            assert_eq!(Decimal::new(false, 250, 0), e.cash_withdrawable);
        }
        _ => panic!("Expected an account event"),
    }
}
