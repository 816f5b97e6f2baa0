use schwab_api::client::check_response;
use schwab_api::client::order_id_from_location;
use schwab_api::Client;
use schwab_api::FrequencyType;
use schwab_api::HttpMethod;
use schwab_api::HttpRequest;
use schwab_api::OptionType;
use schwab_api::PeriodType;
use schwab_api::SchwabError;
use schwab_api::StreamClient;
use schwab_api::TokenManager;
use schwab_api::TokenResponse;
use schwab_api::UtcTime;

fn mock_token_response() -> TokenResponse {
    TokenResponse {
        access_token: "mock_access_token".to_string(),
        refresh_token: "mock_refresh_token".to_string(),
        id_token: "mock_id_token".to_string(),
        token_type: "Bearer".to_string(),
        expires_in: 1800,
        scope: "api".to_string(),
        refresh_token_expires_in: 604800,
    }
}

fn create_test_client() -> Client {
    let mut client = Client::new("a".repeat(32), "b".repeat(16), "https://example.com/callback".to_string()).unwrap();
    let now = UtcTime::now();
    client.token_manager_mut().set_tokens(now, now, mock_token_response());
    client
}

fn header<'a>(r: &'a HttpRequest, name: &str) -> Option<&'a str> {
    r.headers.iter().find(|(n, _)| n == name).map(|(_, v)| v.as_str())
}

fn query_value<'a>(r: &'a HttpRequest, name: &str) -> Option<&'a str> {
    r.query.as_ref()?.iter().find(|(n, _)| n == name).map(|(_, v)| v.as_str())
}

fn has_bearer(r: &HttpRequest) -> bool {
    match header(r, "Authorization") {
        Some(v) => v.starts_with("Bearer ") && v.len() > "Bearer ".len(),
        None => false,
    }
}

#[test]
fn integration_tests_test_client_creation() {
    let client = Client::new("a".repeat(32), "b".repeat(16), "https://example.com".to_string());
    assert!(client.is_ok());
}

#[test]
fn test_invalid_credentials() {
    let result = Client::new("short".to_string(), "b".repeat(16), "https://example.com".to_string());
    assert!(result.is_err());
}

#[test]
fn integration_tests_test_auth_url_generation() {
    let client = Client::new("a".repeat(32), "b".repeat(16), "https://example.com".to_string()).unwrap();
    let auth_url = client.get_auth_url();
    assert!(auth_url.contains("client_id="));
    assert!(auth_url.contains("redirect_uri="));
    assert!(auth_url.contains("https://api.schwabapi.com/v1/oauth/authorize"));
}

#[test]
fn test_token_exchange() {
    let mut client = Client::new("a".repeat(32), "b".repeat(16), "https://example.com/callback".to_string()).unwrap();
    let request = client.token_manager().oauth_token_request("authorization_code", "mock_code@");
    assert!(request.url.ends_with("/v1/oauth/token"));
    assert!(request.form.contains(&("code".to_string(), "mock_code@".to_string())));
    assert!(check_response(200, "").is_ok());
    let now = UtcTime::now();
    client.token_manager_mut().set_tokens(now, now, mock_token_response());
    assert!(client.token_manager().get_access_token().is_ok());
}

#[test]
fn test_get_accounts_success() {
    let r = create_test_client().get_accounts(None).unwrap();
    assert_eq!(r.method, HttpMethod::Get);
    assert!(r.url.ends_with("/trader/v1/accounts"));
    assert!(has_bearer(&r));
    assert!(check_response(200, "").is_ok());
}

#[test]
fn test_get_quotes_success() {
    let r = create_test_client().get_quotes(&["AAPL".to_string()], None, None).unwrap();
    assert_eq!(r.method, HttpMethod::Get);
    assert!(r.url.ends_with("/marketdata/v1/quotes"));
    assert_eq!(query_value(&r, "symbols"), Some("AAPL"));
}

#[test]
fn test_get_user_preferences_success() {
    let r = create_test_client().get_user_preferences().unwrap();
    assert_eq!(r.method, HttpMethod::Get);
    assert!(r.url.ends_with("/trader/v1/userPreference"));
    assert!(has_bearer(&r));
}

#[test]
fn test_api_error_handling() {
    let r = create_test_client().get_accounts(None).unwrap();
    assert!(r.url.ends_with("/trader/v1/accounts"));
    match check_response(401, "{\"error\":\"Unauthorized\"}") {
        Err(SchwabError::Api { status, message }) => {
            assert_eq!(status, 401);
            assert_eq!(message, "{\"error\":\"Unauthorized\"}");
        }
        other => panic!("unexpected {:?}", other),
    }
}

#[test]
fn test_price_history_parameters() {
    let r = create_test_client()
        .get_price_history("AAPL", Some(PeriodType::Month), None, Some(FrequencyType::Daily), None, None, None, None, None)
        .unwrap();
    assert!(r.url.ends_with("/marketdata/v1/pricehistory"));
    assert_eq!(query_value(&r, "symbol"), Some("AAPL"));
    assert_eq!(query_value(&r, "periodType"), Some("\"month\""));
    assert_eq!(query_value(&r, "frequencyType"), Some("\"daily\""));
}

#[test]
fn test_option_chain_request() {
    let r = create_test_client()
        .get_option_chain("AAPL", Some(OptionType::Call), None, None, None, None, None, None, None, None)
        .unwrap();
    assert!(r.url.ends_with("/marketdata/v1/chains"));
    assert_eq!(query_value(&r, "symbol"), Some("AAPL"));
    assert_eq!(query_value(&r, "contractType"), Some("\"CALL\""));
}

#[test]
fn test_order_placement_mock() {
    let r = create_test_client().place_order("mock_hash").unwrap();
    assert_eq!(r.method, HttpMethod::Post);
    assert!(r.url.ends_with("/trader/v1/accounts/mock_hash/orders"));
    assert!(has_bearer(&r));
    assert_eq!(header(&r, "Content-Type"), Some("application/json"));
    assert!(check_response(201, "").is_ok());
    assert_eq!(order_id_from_location(Some("/orders/12345")).unwrap(), "12345");
}

#[test]
fn order_placement_without_location_fails() {
    match order_id_from_location(None) {
        Err(SchwabError::Generic(m)) => assert_eq!(m, "Order placed but order ID not found in response"),
        other => panic!("unexpected {:?}", other),
    }
}

#[test]
fn integration_tests_test_stream_client_creation() {
    let token_manager = TokenManager::new("a".repeat(32), "b".repeat(16), "https://example.com".to_string(), None);
    assert!(token_manager.is_ok());
    let stream_client = StreamClient::new();
    assert!(!stream_client.is_active());
}

#[test]
fn test_stream_request_generation() {
    let mut stream_client = StreamClient::new();
    let id1 = stream_client.next_request_id();
    let id2 = stream_client.next_request_id();
    assert_eq!(id1, 1);
    assert_eq!(id2, 2);
}

#[test]
fn test_error_types() {
    let auth_error = SchwabError::auth("Test auth error");
    assert!(matches!(auth_error, SchwabError::Auth(_)));

    let token_error = SchwabError::token("Test token error");
    assert!(matches!(token_error, SchwabError::Token(_)));

    let api_error = SchwabError::api(404, "Not found");
    assert!(matches!(api_error, SchwabError::Api { status: 404, .. }));

    let config_error = SchwabError::config("Test config error");
    assert!(matches!(config_error, SchwabError::Config(_)));
}

#[test]
fn error_messages() {
    assert_eq!(SchwabError::auth("Test auth error").message(), "Authentication error: Test auth error");
    assert_eq!(SchwabError::api(404, "Not found").message(), "API error: 404 - Not found");
    assert_eq!(SchwabError::config("x").message(), "Configuration error: x");
    assert_eq!(SchwabError::stream("y").message(), "Stream error: y");
    assert_eq!(SchwabError::generic("z").message(), "Error: z");
    assert_eq!(SchwabError::Http("down".to_string()).message(), "HTTP request failed: down");
}

#[test]
fn integration_tests_test_time_formatting() {
    let dt = UtcTime::from_timestamp(1640995200, 0).unwrap();
    let epoch_str = dt.timestamp().to_string();
    assert_eq!(epoch_str, "1640995200");
    let epoch_ms_str = dt.timestamp_millis().to_string();
    assert_eq!(epoch_ms_str, "1640995200000");
    let date_str = dt.format("%Y-%m-%d");
    assert_eq!(date_str, "2022-01-01");
}

#[test]
fn out_of_range_timestamps_are_refused() {
    assert!(UtcTime::from_timestamp(i64::MAX, 0).is_none());
    assert!(UtcTime::from_timestamp(0, 2_000_000_000).is_none());
    assert_eq!(UtcTime::epoch().timestamp(), 0);
}

#[test]
fn test_comprehensive_workflow() {
    let mut client = Client::new("a".repeat(32), "b".repeat(16), "https://example.com/callback".to_string()).unwrap();
    assert!(client.get_accounts(None).is_err());
    let token_request = client.token_manager().oauth_token_request("authorization_code", "code");
    assert_eq!(token_request.url, "https://api.schwabapi.com/v1/oauth/token");
    let now = UtcTime::now();
    client.token_manager_mut().set_tokens(now, now, mock_token_response());
    let accounts = client.get_accounts(None).unwrap();
    let quotes = client.get_quotes(&["AAPL".to_string()], None, None).unwrap();
    let prefs = client.get_user_preferences().unwrap();
    assert!(accounts.url.ends_with("/trader/v1/accounts"));
    assert!(quotes.url.ends_with("/marketdata/v1/quotes"));
    assert!(prefs.url.ends_with("/trader/v1/userPreference"));
    assert_eq!(client.token_manager().update_tokens_if_needed().unwrap(), false);
}

#[test]
fn chrono_range_edges() {
    assert!(UtcTime::from_timestamp(8_210_266_876_799, 999_999_999).is_some());
    assert!(UtcTime::from_timestamp(8_210_266_876_800, 0).is_none());
    assert!(UtcTime::from_timestamp(-8_334_601_228_800, 0).is_some());
    assert!(UtcTime::from_timestamp(-8_334_601_228_801, 0).is_none());
    assert!(UtcTime::from_timestamp(59, 1_500_000_000).is_some());
    assert!(UtcTime::from_timestamp(58, 1_500_000_000).is_none());
    assert!(UtcTime::from_timestamp(-1, 1_999_999_999).is_some());
}
