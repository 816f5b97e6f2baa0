use schwab_api::Client;
use schwab_api::FrequencyType;
use schwab_api::HttpMethod;
use schwab_api::HttpRequest;
use schwab_api::OptionType;
use schwab_api::OrderStatus;
use schwab_api::PeriodType;
use schwab_api::RequestTimeout;
use schwab_api::SchwabError;
use schwab_api::StreamCommand;
use schwab_api::StreamerInfo;
use schwab_api::TimeFormat;
use schwab_api::TokenResponse;
use schwab_api::UserPreferences;
use schwab_api::UtcTime;

fn client() -> Client {
    Client::new("a".repeat(32), "b".repeat(16), "https://example.com".to_string()).unwrap()
}

fn logged_in() -> Client {
    let mut c = client();
    let t = UtcTime::from_timestamp(1_700_000_000, 0).unwrap();
    c.token_manager_mut().set_tokens(
        t,
        t,
        TokenResponse {
            access_token: "mock_access_token".to_string(),
            refresh_token: "mock_refresh_token".to_string(),
            id_token: "mock_id_token".to_string(),
            token_type: "Bearer".to_string(),
            expires_in: 1800,
            scope: "api".to_string(),
            refresh_token_expires_in: 604800,
        },
    );
    c
}

fn pairs(v: &[(&str, &str)]) -> Vec<(String, String)> {
    v.iter().map(|(a, b)| (a.to_string(), b.to_string())).collect()
}

fn get_headers() -> Vec<(String, String)> {
    pairs(&[("Authorization", "Bearer mock_access_token"), ("Accept", "application/json")])
}

fn query(r: &HttpRequest) -> Vec<(String, String)> {
    r.query.clone().expect("query parameters")
}

#[test]
fn client_test_client_creation() {
    let client = Client::new("a".repeat(32), "b".repeat(16), "https://example.com".to_string());
    assert!(client.is_ok());
}

#[test]
fn test_auth_url() {
    let client = client();
    let auth_url = client.get_auth_url();
    assert!(auth_url.contains("client_id="));
    assert!(auth_url.contains("redirect_uri="));
}

#[test]
fn client_test_time_formatting() {
    let client = client();
    let dt = UtcTime::from_timestamp(1609459200, 0).unwrap();
    assert_eq!(client.format_time(&dt, TimeFormat::Epoch), "1609459200");
    assert_eq!(client.format_time(&dt, TimeFormat::EpochMs), "1609459200000");
    assert_eq!(client.format_time(&dt, TimeFormat::YearMonthDay), "2021-01-01");
}

#[test]
fn iso_format_has_milliseconds_and_zone() {
    let client = client();
    let dt = UtcTime::from_timestamp(1609459200, 123_456_789).unwrap();
    assert_eq!(client.format_time(&dt, TimeFormat::Iso8601), "2021-01-01T00:00:00.123Z");
    assert_eq!(client.format_time(&dt, TimeFormat::EpochMs), "1609459200123");
}

#[test]
fn times_before_the_epoch_round_toward_zero() {
    let client = client();
    let dt = UtcTime::from_timestamp(-1, 500_000_000).unwrap();
    assert_eq!(client.format_time(&dt, TimeFormat::Epoch), "-1");
    assert_eq!(client.format_time(&dt, TimeFormat::EpochMs), "-500");
}

#[test]
fn requests_need_an_access_token() {
    match client().get_accounts(None) {
        Err(SchwabError::Token(m)) => assert_eq!(m, "No access token available"),
        other => panic!("unexpected {:?}", other),
    }
}

#[test]
fn accounts_request() {
    let r = logged_in().get_accounts(Some("positions")).unwrap();
    assert_eq!(r.method, HttpMethod::Get);
    assert_eq!(r.url, "https://api.schwabapi.com/trader/v1/accounts");
    assert_eq!(r.headers, get_headers());
    assert_eq!(query(&r), pairs(&[("fields", "positions")]));
    assert_eq!(r.timeout, RequestTimeout { secs: 10, nanos: 0 });
    assert!(!r.json_body);
    let r = logged_in().get_accounts(None).unwrap();
    assert!(query(&r).is_empty());
}

#[test]
fn account_numbers_request_has_no_query() {
    let r = logged_in().get_account_numbers().unwrap();
    assert_eq!(r.url, "https://api.schwabapi.com/trader/v1/accounts/accountNumbers");
    assert!(r.query.is_none());
}

#[test]
fn orders_requests() {
    let c = logged_in();
    let from = UtcTime::from_timestamp(1609459200, 0).unwrap();
    let to = UtcTime::from_timestamp(1609545600, 0).unwrap();
    let r = c.get_account_orders("hash", &from, &to, Some(25), Some(OrderStatus::Filled)).unwrap();
    assert_eq!(r.url, "https://api.schwabapi.com/trader/v1/accounts/hash/orders");
    assert_eq!(
        query(&r),
        pairs(&[
            ("fromEnteredTime", "2021-01-01T00:00:00.000Z"),
            ("toEnteredTime", "2021-01-02T00:00:00.000Z"),
            ("maxResults", "25"),
            ("status", "\"FILLED\""),
        ])
    );
    let r = c.get_all_orders(&from, &to, None, None).unwrap();
    assert_eq!(r.url, "https://api.schwabapi.com/trader/v1/orders");
    assert_eq!(query(&r).len(), 2);
}

#[test]
fn order_changes_carry_a_body() {
    let c = logged_in();
    let r = c.place_order("hash").unwrap();
    assert_eq!(r.method, HttpMethod::Post);
    assert!(r.json_body);
    assert_eq!(r.headers[2], ("Content-Type".to_string(), "application/json".to_string()));
    let r = c.replace_order("hash", "7").unwrap();
    assert_eq!(r.method, HttpMethod::Put);
    assert_eq!(r.url, "https://api.schwabapi.com/trader/v1/accounts/hash/orders/7");
    let r = c.cancel_order("hash", "7").unwrap();
    assert_eq!(r.method, HttpMethod::Delete);
    assert!(!r.json_body);
    let r = c.get_order("hash", "7").unwrap();
    assert_eq!(r.method, HttpMethod::Get);
}

#[test]
fn transactions_request() {
    let c = logged_in();
    let start = UtcTime::from_timestamp(1609459200, 0).unwrap();
    let r = c.get_transactions("hash", &start, &start, "TRADE", Some("AAPL")).unwrap();
    assert_eq!(
        query(&r),
        pairs(&[
            ("startDate", "2021-01-01T00:00:00.000Z"),
            ("endDate", "2021-01-01T00:00:00.000Z"),
            ("types", "TRADE"),
            ("symbol", "AAPL"),
        ])
    );
    let r = c.get_transaction("hash", "99").unwrap();
    assert_eq!(r.url, "https://api.schwabapi.com/trader/v1/accounts/hash/transactions/99");
}

#[test]
fn quote_symbol_is_percent_encoded() {
    let r = logged_in().get_quote("BRK/B", None).unwrap();
    assert_eq!(r.url, "https://api.schwabapi.com/marketdata/v1/BRK%2FB/quotes");
    let r = logged_in().get_quote("é x~", None).unwrap();
    assert_eq!(r.url, "https://api.schwabapi.com/marketdata/v1/%C3%A9%20x~/quotes");
    let r = logged_in().get_quote("AAPL", Some("quote")).unwrap();
    assert_eq!(r.url, "https://api.schwabapi.com/marketdata/v1/AAPL/quotes");
    assert_eq!(query(&r), pairs(&[("fields", "quote")]));
}

#[test]
fn quotes_join_symbols() {
    let symbols = vec!["AAPL".to_string(), "MSFT".to_string()];
    let r = logged_in().get_quotes(&symbols, None, Some(false)).unwrap();
    assert_eq!(query(&r), pairs(&[("symbols", "AAPL,MSFT"), ("indicative", "false")]));
}

#[test]
fn movers_and_hours_and_instruments() {
    let c = logged_in();
    let r = c.get_movers("$DJI", None, Some(5)).unwrap();
    assert_eq!(query(&r), pairs(&[("symbol", "$DJI"), ("frequency", "5")]));
    let day = UtcTime::from_timestamp(1640995200, 0).unwrap();
    let r = c.get_market_hours(&vec!["equity".to_string(), "option".to_string()], Some(day)).unwrap();
    assert_eq!(query(&r), pairs(&[("symbols", "equity,option"), ("date", "2022-01-01")]));
    let r = c.get_market_hour("equity", None).unwrap();
    assert_eq!(r.url, "https://api.schwabapi.com/marketdata/v1/markets/equity");
    let r = c.search_instruments("AAPL", "symbol-search").unwrap();
    assert_eq!(query(&r), pairs(&[("symbol", "AAPL"), ("projection", "symbol-search")]));
    let r = c.get_instrument_by_cusip("037833100").unwrap();
    assert_eq!(r.url, "https://api.schwabapi.com/marketdata/v1/instruments/037833100");
    assert!(r.query.is_none());
}

#[test]
fn price_history_epoch_dates() {
    let start = UtcTime::from_timestamp(1640995200, 0).unwrap();
    let r = logged_in()
        .get_price_history("AAPL", Some(PeriodType::Day), Some(10), Some(FrequencyType::Minute), None, Some(start), None, Some(true), None)
        .unwrap();
    assert_eq!(
        query(&r),
        pairs(&[
            ("symbol", "AAPL"),
            ("periodType", "\"day\""),
            ("period", "10"),
            ("frequencyType", "\"minute\""),
            ("startDate", "1640995200000"),
            ("needExtendedHoursData", "true"),
        ])
    );
}

#[test]
fn option_chain_parameters_in_order() {
    let r = logged_in()
        .get_option_chain("AAPL", Some(OptionType::Put), Some(-3), None, None, Some("2.5"), None, None, None, None)
        .unwrap();
    assert_eq!(
        query(&r),
        pairs(&[("symbol", "AAPL"), ("contractType", "\"PUT\""), ("strikeCount", "-3"), ("interval", "2.5")])
    );
}

#[test]
fn timeout_is_used_by_later_requests() {
    let mut c = logged_in();
    c.set_timeout(RequestTimeout { secs: 3, nanos: 5 });
    assert_eq!(c.get_user_preferences().unwrap().timeout, RequestTimeout { secs: 3, nanos: 5 });
}

#[test]
fn user_preferences_hand_streamer_info_to_the_stream() {
    let mut c = logged_in();
    let prefs = UserPreferences {
        accounts: None,
        streamer_info: Some(vec![StreamerInfo {
            streamer_socket_url: "wss://streamer.schwabapi.com".to_string(),
            schwab_client_customer_id: "mock_customer_id".to_string(),
            schwab_client_correl_id: "mock_correl_id".to_string(),
            schwab_client_channel: "mock_channel".to_string(),
            schwab_client_function_id: "mock_function_id".to_string(),
        }]),
        offers: None,
    };
    let keys = vec!["AAPL".to_string()];
    let fields = vec!["0".to_string()];
    assert!(c.stream.level_one_equities(&keys, &fields, StreamCommand::Subscribe).is_err());
    c.apply_user_preferences(&prefs);
    let r = c.stream.level_one_equities(&keys, &fields, StreamCommand::Subscribe).unwrap();
    assert_eq!(r.schwab_client_customer_id, "mock_customer_id");
    assert_eq!(r.schwab_client_correl_id, "mock_correl_id");
}

#[test]
fn success_statuses() {
    assert!(schwab_api::client::is_success_status(200));
    assert!(schwab_api::client::is_success_status(299));
    assert!(!schwab_api::client::is_success_status(199));
    assert!(!schwab_api::client::is_success_status(300));
}
