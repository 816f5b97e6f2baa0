use schwab_api::pkce::verifier_from_words;
use schwab_api::SchwabError;
use schwab_api::TokenManager;
use schwab_api::TokenResponse;
use schwab_api::UtcTime;

fn manager() -> TokenManager {
    TokenManager::new("a".repeat(32), "b".repeat(16), "https://example.com".to_string(), None).unwrap()
}

fn response(access: &str) -> TokenResponse {
    TokenResponse {
        access_token: access.to_string(),
        refresh_token: "mock_refresh_token".to_string(),
        id_token: "mock_id_token".to_string(),
        token_type: "Bearer".to_string(),
        expires_in: 1800,
        scope: "api".to_string(),
        refresh_token_expires_in: 604800,
    }
}

fn config_message(r: Result<TokenManager, SchwabError>) -> String {
    match r {
        Err(SchwabError::Config(m)) => m,
        Err(e) => panic!("unexpected error {:?}", e),
        Ok(_) => panic!("accepted"),
    }
}

#[test]
fn test_token_manager_creation() {
    let manager = TokenManager::new("a".repeat(32), "b".repeat(16), "https://example.com".to_string(), None);
    assert!(manager.is_ok());
}

#[test]
fn test_invalid_app_key() {
    let manager = TokenManager::new("short".to_string(), "b".repeat(16), "https://example.com".to_string(), None);
    assert!(manager.is_err());
}

#[test]
fn test_invalid_callback_url() {
    let manager = TokenManager::new("a".repeat(32), "b".repeat(16), "http://example.com".to_string(), None);
    assert!(manager.is_err());
}

#[test]
fn tokens_test_auth_url_generation() {
    let manager = manager();
    let auth_url = manager.get_auth_url();
    assert!(auth_url.contains("client_id="));
    assert!(auth_url.contains("redirect_uri="));
    assert!(auth_url.contains("https://api.schwabapi.com/v1/oauth/authorize"));
}

#[test]
fn auth_url_is_exact() {
    let manager = TokenManager::new("k".repeat(32), "s".repeat(16), "https://127.0.0.1:8080".to_string(), None).unwrap();
    let verifier = manager.code_verifier().clone();
    assert_eq!(
        manager.get_auth_url(),
        format!(
            "https://api.schwabapi.com/v1/oauth/authorize?client_id={}&redirect_uri=https://127.0.0.1:8080&code_challenge={}&code_challenge_method=plain",
            "k".repeat(32),
            verifier
        )
    );
}

#[test]
fn each_credential_rule_has_its_message() {
    let cb = "https://example.com".to_string();
    assert_eq!(config_message(TokenManager::new(String::new(), "b".repeat(16), cb.clone(), None)), "app_key cannot be empty");
    assert_eq!(config_message(TokenManager::new("a".repeat(32), String::new(), cb.clone(), None)), "app_secret cannot be empty");
    assert_eq!(config_message(TokenManager::new("a".repeat(32), "b".repeat(16), String::new(), None)), "callback_url cannot be empty");
    assert_eq!(config_message(TokenManager::new("a".repeat(31), "b".repeat(16), cb.clone(), None)), "app_key must be 32 characters long");
    assert_eq!(config_message(TokenManager::new("a".repeat(32), "b".repeat(17), cb.clone(), None)), "app_secret must be 16 characters long");
    assert_eq!(config_message(TokenManager::new("a".repeat(32), "b".repeat(16), "ftp://x".to_string(), None)), "callback_url must use HTTPS");
    assert_eq!(config_message(TokenManager::new("a".repeat(32), "b".repeat(16), "https://x/".to_string(), None)), "callback_url cannot end with '/'");
}

#[test]
fn key_length_counts_bytes() {
    // sixteen two-byte characters make 32 bytes
    assert!(TokenManager::new("é".repeat(16), "b".repeat(16), "https://example.com".to_string(), None).is_ok());
    assert!(TokenManager::new("é".repeat(32), "b".repeat(16), "https://example.com".to_string(), None).is_err());
}

#[test]
fn tokens_file_defaults() {
    assert_eq!(manager().tokens_file(), "tokens.json");
    let custom = TokenManager::new("a".repeat(32), "b".repeat(16), "https://example.com".to_string(), Some("t.json".to_string())).unwrap();
    assert_eq!(custom.tokens_file(), "t.json");
}

#[test]
fn no_access_token_before_login() {
    match manager().get_access_token() {
        Err(SchwabError::Token(m)) => assert_eq!(m, "No access token available"),
        other => panic!("unexpected {:?}", other),
    }
}

#[test]
fn stored_tokens_are_read_back() {
    let mut m = manager();
    let now = UtcTime::now();
    let saved = m.set_tokens(now, now, response("mock_access_token"));
    assert_eq!(m.get_access_token().unwrap(), "mock_access_token");
    assert_eq!(saved.token_dictionary.refresh_token, "mock_refresh_token");
}

#[test]
fn fresh_tokens_need_nothing() {
    let mut m = manager();
    let t = UtcTime::from_timestamp(1_700_000_000, 0).unwrap();
    m.set_tokens(t, t, response("x"));
    assert_eq!(m.check_tokens_at(&t, &t).unwrap(), false);
    assert_eq!(m.access_token_delta(&t), 1800);
    assert_eq!(m.refresh_token_delta(&t), 604800);
}

#[test]
fn access_token_renewed_within_a_minute_of_expiry() {
    let mut m = manager();
    let t = UtcTime::from_timestamp(1_700_000_000, 0).unwrap();
    m.set_tokens(t, t, response("x"));
    let later = UtcTime::from_timestamp(1_700_000_000 + 1740, 0).unwrap();
    assert_eq!(m.check_tokens_at(&later, &later).unwrap(), true);
    let just_before = UtcTime::from_timestamp(1_700_000_000 + 1739, 0).unwrap();
    assert_eq!(m.check_tokens_at(&just_before, &just_before).unwrap(), false);
}

#[test]
fn refresh_token_expiry_needs_new_login() {
    let mut m = manager();
    let t = UtcTime::from_timestamp(1_700_000_000, 0).unwrap();
    m.set_tokens(t, t, response("x"));
    let late = UtcTime::from_timestamp(1_700_000_000 + 604800 - 1799, 0).unwrap();
    match m.check_tokens_at(&late, &late) {
        Err(SchwabError::Token(msg)) => assert_eq!(msg, "Refresh token expired - manual authentication required"),
        other => panic!("unexpected {:?}", other),
    }
    let ok = UtcTime::from_timestamp(1_700_000_000 + 604800 - 1800, 0).unwrap();
    assert!(m.check_tokens_at(&ok, &ok).is_ok());
}

#[test]
fn never_logged_in_manager_has_expired_refresh_token() {
    assert!(manager().update_tokens_if_needed().is_err());
}

#[test]
fn initialize_without_saved_tokens_asks_for_login() {
    let mut m = manager();
    match m.initialize(None) {
        Err(SchwabError::Token(msg)) => assert_eq!(msg, "No valid tokens found, authentication required"),
        other => panic!("unexpected {:?}", other),
    }
}

#[test]
fn token_request_for_code() {
    let m = TokenManager::new("a".repeat(32), "b".repeat(16), "https://example.com".to_string(), None).unwrap();
    let req = m.oauth_token_request("authorization_code", "mock_code@");
    assert_eq!(req.url, "https://api.schwabapi.com/v1/oauth/token");
    assert_eq!(req.content_type, "application/x-www-form-urlencoded");
    assert_eq!(
        req.authorization,
        "Basic YWFhYWFhYWFhYWFhYWFhYWFhYWFhYWFhYWFhYWFhYWE6YmJiYmJiYmJiYmJiYmJiYg=="
    );
    assert_eq!(
        req.form,
        vec![
            ("grant_type".to_string(), "authorization_code".to_string()),
            ("code".to_string(), "mock_code@".to_string()),
            ("redirect_uri".to_string(), "https://example.com".to_string()),
            ("code_verifier".to_string(), m.code_verifier().clone()),
        ]
    );
    let other = m.oauth_token_request("client_credentials", "x");
    assert_eq!(other.form, vec![("grant_type".to_string(), "client_credentials".to_string())]);
}

#[test]
fn refresh_request_needs_refresh_token() {
    let mut m = manager();
    match m.update_access_token_request() {
        Err(SchwabError::Token(msg)) => assert_eq!(msg, "No refresh token available"),
        other => panic!("unexpected {:?}", other),
    }
    let t = UtcTime::from_timestamp(1_700_000_000, 0).unwrap();
    m.set_tokens(t, t, response("x"));
    let req = m.update_access_token_request().unwrap();
    assert_eq!(
        req.form,
        vec![
            ("grant_type".to_string(), "refresh_token".to_string()),
            ("refresh_token".to_string(), "mock_refresh_token".to_string()),
        ]
    );
}

#[test]
fn access_token_update_keeps_refresh_issue_time() {
    let mut m = manager();
    let t = UtcTime::from_timestamp(1_600_000_000, 0).unwrap();
    m.set_tokens(t, t, response("old"));
    let saved = m.apply_access_token_update(response("new"));
    assert_eq!(saved.refresh_token_issued.timestamp(), 1_600_000_000);
    assert!(saved.access_token_issued.timestamp() > 1_600_000_000);
    assert_eq!(m.get_access_token().unwrap(), "new");
}

#[test]
fn verdicts_persist_at_later_instants() {
    let mut m = manager();
    let t = UtcTime::from_timestamp(1_700_000_000, 0).unwrap();
    m.set_tokens(t, t, response("x"));
    let due = UtcTime::from_timestamp(1_700_000_000 + 1740, 0).unwrap();
    let later = UtcTime::from_timestamp(1_700_000_000 + 100_000, 0).unwrap();
    assert_eq!(m.check_tokens_at(&due, &due).unwrap(), true);
    assert_eq!(m.check_tokens_at(&later, &later).unwrap(), true);
    let expired = UtcTime::from_timestamp(1_700_000_000 + 604800 - 1799, 0).unwrap();
    let much_later = UtcTime::from_timestamp(1_800_000_000, 0).unwrap();
    assert!(m.check_tokens_at(&t, &expired).is_err());
    assert!(m.check_tokens_at(&t, &much_later).is_err());
}

#[test]
fn code_verifiers_are_fresh_and_well_formed() {
    let a = manager();
    let b = manager();
    let v = a.code_verifier();
    assert_eq!(v.len(), 64);
    assert!(v.chars().all(|c| c.is_ascii_alphanumeric() || c == '-' || c == '_'));
    assert_ne!(a.code_verifier(), b.code_verifier());
    assert!(a.get_auth_url().contains("code_challenge="));
    assert!(a.get_auth_url().contains("code_challenge_method=plain"));
}

#[test]
fn token_endpoint_replies() {
    let mut m = manager();
    let t = UtcTime::from_timestamp(1_700_000_000, 0).unwrap();
    match m.apply_exchange_reply(t, Err("bad code".to_string())) {
        Err(SchwabError::Auth(msg)) => assert_eq!(msg, "Token exchange failed: bad code"),
        other => panic!("unexpected {:?}", other),
    }
    assert!(m.get_access_token().is_err());
    let saved = m.apply_exchange_reply(t, Ok(response("fresh"))).unwrap();
    assert_eq!(saved.access_token_issued.timestamp(), 1_700_000_000);
    assert_eq!(m.get_access_token().unwrap(), "fresh");
    match m.apply_refresh_reply(Err("expired".to_string())) {
        Err(SchwabError::Token(msg)) => assert_eq!(msg, "Access token update failed: expired"),
        other => panic!("unexpected {:?}", other),
    }
    assert_eq!(m.get_access_token().unwrap(), "fresh");
    let saved = m.apply_refresh_reply(Ok(response("renewed"))).unwrap();
    assert_eq!(saved.refresh_token_issued.timestamp(), 1_700_000_000);
    assert_eq!(m.get_access_token().unwrap(), "renewed");
}

#[test]
fn verifier_written_from_words() {
    assert_eq!(verifier_from_words(&vec![0; 8]), "A".repeat(64));
    let words = vec![1 + 62 * 64, 63, 26, 52, 25 + 51 * 64, 0, 0, u64::MAX];
    let v = verifier_from_words(&words);
    assert_eq!(v.len(), 64);
    assert_eq!(&v[0..8], "B-AAAAAA");
    assert_eq!(&v[8..16], "_AAAAAAA");
    assert_eq!(&v[16..24], "aAAAAAAA");
    assert_eq!(&v[24..32], "0AAAAAAA");
    assert_eq!(&v[32..40], "ZzAAAAAA");
    assert_eq!(&v[56..64], "________");
}
