use schwab_api::ReconnectAction;
use schwab_api::SchwabError;
use schwab_api::StreamClient;
use schwab_api::StreamCommand;
use schwab_api::StreamRequest;
use schwab_api::StreamerInfo;
use schwab_api::TokenManager;

fn info() -> StreamerInfo {
    StreamerInfo {
        streamer_socket_url: "wss://streamer.schwabapi.com".to_string(),
        schwab_client_customer_id: "mock_customer_id".to_string(),
        schwab_client_correl_id: "mock_correl_id".to_string(),
        schwab_client_channel: "mock_channel".to_string(),
        schwab_client_function_id: "mock_function_id".to_string(),
    }
}

fn strings(v: &[&str]) -> Vec<String> {
    v.iter().map(|s| s.to_string()).collect()
}

fn param<'a>(r: &'a StreamRequest, name: &str) -> &'a str {
    r.parameters.as_ref().unwrap().iter().rev().find(|(k, _)| k == name).map(|(_, v)| v.as_str()).unwrap()
}

#[test]
fn stream_test_stream_client_creation() {
    let _token_manager = TokenManager::new("a".repeat(32), "b".repeat(16), "https://example.com".to_string(), None).unwrap();
    let stream_client = StreamClient::new();
    assert!(!stream_client.is_active());
}

#[test]
fn test_request_id_generation() {
    let _token_manager = TokenManager::new("a".repeat(32), "b".repeat(16), "https://example.com".to_string(), None).unwrap();
    let mut stream_client = StreamClient::new();
    let id1 = stream_client.next_request_id();
    let id2 = stream_client.next_request_id();
    assert_eq!(id1, 1);
    assert_eq!(id2, 2);
}

#[test]
fn start_needs_streamer_info() {
    let mut c = StreamClient::new();
    match c.start() {
        Err(SchwabError::Stream(m)) => assert_eq!(m, "Streamer info not available - call get_user_preferences() first"),
        other => panic!("unexpected {:?}", other),
    }
    c.set_streamer_info(info());
    assert!(c.start().is_ok());
    assert!(!c.is_active());
}

#[test]
fn subscription_without_streamer_info_fails_but_counts() {
    let mut c = StreamClient::new();
    let r = c.level_one_equities(&strings(&["AAPL"]), &strings(&["0"]), StreamCommand::Subscribe);
    match r {
        Err(SchwabError::Stream(m)) => assert_eq!(m, "No streamer info available"),
        other => panic!("unexpected {:?}", other),
    }
    assert_eq!(c.next_request_id(), 2);
    assert!(c.replay_groups().is_empty());
}

#[test]
fn level_one_equities_request() {
    let mut c = StreamClient::new();
    c.set_streamer_info(info());
    let r = c
        .level_one_equities(&strings(&["AAPL", "MSFT"]), &strings(&["0", "1", "2"]), StreamCommand::Subscribe)
        .unwrap();
    assert_eq!(r.service, "LEVELONE_EQUITIES");
    assert_eq!(r.command, "SUBS");
    assert_eq!(r.requestid, 1);
    assert_eq!(r.schwab_client_customer_id, "mock_customer_id");
    assert_eq!(r.schwab_client_correl_id, "mock_correl_id");
    assert_eq!(param(&r, "keys"), "AAPL,MSFT");
    assert_eq!(param(&r, "fields"), "0,1,2");
}

#[test]
fn each_service_names_itself() {
    let mut c = StreamClient::new();
    c.set_streamer_info(info());
    let k = strings(&["X"]);
    let f = strings(&["0"]);
    assert_eq!(c.level_one_options(&k, &f, StreamCommand::Add).unwrap().service, "LEVELONE_OPTIONS");
    assert_eq!(c.level_one_futures(&k, &f, StreamCommand::Add).unwrap().service, "LEVELONE_FUTURES");
    assert_eq!(c.level_one_forex(&k, &f, StreamCommand::Add).unwrap().service, "LEVELONE_FOREX");
    assert_eq!(c.nyse_book(&k, &f, StreamCommand::Add).unwrap().service, "NYSE_BOOK");
    assert_eq!(c.nasdaq_book(&k, &f, StreamCommand::Add).unwrap().service, "NASDAQ_BOOK");
    let r = c.chart_equity(&k, &f, StreamCommand::View).unwrap();
    assert_eq!(r.service, "CHART_EQUITY");
    assert_eq!(r.command, "VIEW");
    assert_eq!(r.requestid, 6);
}

#[test]
fn account_activity_defaults() {
    let mut c = StreamClient::new();
    c.set_streamer_info(info());
    let r = c.account_activity(None, None, StreamCommand::Subscribe).unwrap();
    assert_eq!(r.service, "ACCOUNT_ACTIVITY");
    assert_eq!(param(&r, "keys"), "Account Activity");
    assert_eq!(param(&r, "fields"), "0,1,2,3");
}

#[test]
fn subs_replaces_and_unsubs_removes() {
    let mut c = StreamClient::new();
    c.set_streamer_info(info());
    c.level_one_equities(&strings(&["AAPL", "MSFT"]), &strings(&["0", "1"]), StreamCommand::Subscribe).unwrap();
    c.level_one_equities(&strings(&["GOOG"]), &strings(&["0", "1"]), StreamCommand::Add).unwrap();
    c.level_one_equities(&strings(&["MSFT"]), &strings(&["0"]), StreamCommand::Unsubscribe).unwrap();
    let groups = c.replay_groups();
    assert_eq!(groups.len(), 1);
    assert_eq!(groups[0].service, "LEVELONE_EQUITIES");
    assert_eq!(groups[0].keys, "AAPL,GOOG");
    assert_eq!(groups[0].fields, "0,1");
    c.level_one_equities(&strings(&["TSLA"]), &strings(&["3"]), StreamCommand::Subscribe).unwrap();
    let groups = c.replay_groups();
    assert_eq!(groups.len(), 1);
    assert_eq!(groups[0].keys, "TSLA");
    assert_eq!(groups[0].fields, "3");
}

#[test]
fn replay_groups_by_fields_and_numbers_requests() {
    let mut c = StreamClient::new();
    c.set_streamer_info(info());
    c.level_one_equities(&strings(&["A", "B"]), &strings(&["0", "1"]), StreamCommand::Add).unwrap();
    c.level_one_equities(&strings(&["C"]), &strings(&["2"]), StreamCommand::Add).unwrap();
    c.level_one_equities(&strings(&["D"]), &strings(&["0", "1"]), StreamCommand::Add).unwrap();
    c.level_one_options(&strings(&["O1"]), &strings(&["5"]), StreamCommand::Add).unwrap();
    let groups = c.replay_groups();
    assert_eq!(groups.len(), 3);
    assert_eq!((groups[0].keys.as_str(), groups[0].fields.as_str()), ("A,B,D", "0,1"));
    assert_eq!((groups[1].keys.as_str(), groups[1].fields.as_str()), ("C", "2"));
    assert_eq!(groups[2].service, "LEVELONE_OPTIONS");
    let reqs = c.queued_subscription_requests(&groups).unwrap();
    assert_eq!(reqs.len(), 3);
    assert_eq!(reqs[0].requestid, 5);
    assert_eq!(reqs[2].requestid, 7);
    assert!(reqs.iter().all(|r| r.command == "ADD"));
    assert_eq!(param(&reqs[0], "keys"), "A,B,D");
}

#[test]
fn replaying_rebuilds_the_record() {
    let mut c = StreamClient::new();
    c.set_streamer_info(info());
    c.level_one_equities(&strings(&["A", "B"]), &strings(&["0", "1"]), StreamCommand::Add).unwrap();
    c.nyse_book(&strings(&["N"]), &strings(&["7"]), StreamCommand::Add).unwrap();
    c.chart_equity(&strings(&["Z"]), &strings(&["1"]), StreamCommand::Unsubscribe).unwrap();
    let groups = c.replay_groups();
    let reqs = c.queued_subscription_requests(&groups).unwrap();
    let mut fresh = StreamClient::new();
    fresh.set_streamer_info(info());
    for r in &reqs {
        assert!(!fresh.send_request(r));
    }
    let again = fresh.replay_groups();
    assert_eq!(again.len(), groups.len());
    for (a, b) in again.iter().zip(groups.iter()) {
        assert_eq!((&a.service, &a.keys, &a.fields), (&b.service, &b.keys, &b.fields));
    }
}

#[test]
fn stop_clears_on_request_and_logs_out() {
    let mut c = StreamClient::new();
    c.set_streamer_info(info());
    c.level_one_equities(&strings(&["A"]), &strings(&["0"]), StreamCommand::Add).unwrap();
    let r = c.stop(false).unwrap();
    assert_eq!((r.service.as_str(), r.command.as_str()), ("ADMIN", "LOGOUT"));
    assert!(r.parameters.is_none());
    assert_eq!(c.replay_groups().len(), 1);
    c.stop(true).unwrap();
    assert!(c.replay_groups().is_empty());
}

#[test]
fn login_request_carries_token_and_channel() {
    let mut c = StreamClient::new();
    assert!(c.login_request("tok").is_err());
    c.set_streamer_info(info());
    let r = c.login_request("tok").unwrap();
    assert_eq!((r.service.as_str(), r.command.as_str(), r.requestid), ("ADMIN", "LOGIN", 1));
    assert_eq!(param(&r, "Authorization"), "tok");
    assert_eq!(param(&r, "SchwabClientChannel"), "mock_channel");
    assert_eq!(param(&r, "SchwabClientFunctionId"), "mock_function_id");
}

#[test]
fn requests_are_sent_only_when_active() {
    let mut c = StreamClient::new();
    c.set_streamer_info(info());
    let r = c.level_one_equities(&strings(&["A"]), &strings(&["0"]), StreamCommand::Add).unwrap();
    assert!(!c.send_request(&r));
    c.set_active(true);
    assert!(c.send_request(&r));
}

#[test]
fn backoff_doubles_to_a_cap_and_resets() {
    let mut c = StreamClient::new();
    assert_eq!(c.connection_ended(true, 500), ReconnectAction::Stop);
    assert_eq!(c.connection_ended(false, 89), ReconnectAction::Stop);
    let waits: Vec<ReconnectAction> = (0..8).map(|_| c.connection_ended(false, 90)).collect();
    let expected: Vec<ReconnectAction> =
        [2, 4, 8, 16, 32, 64, 128, 128].iter().map(|w| ReconnectAction::RetryAfter(*w)).collect();
    assert_eq!(waits, expected);
    c.reset_backoff();
    assert_eq!(c.backoff_secs(), 2);
}

#[test]
fn requests_recorded_together_in_order() {
    let mut source = StreamClient::new();
    source.set_streamer_info(info());
    let subs = source.level_one_equities(&strings(&["A", "B"]), &strings(&["0"]), StreamCommand::Subscribe).unwrap();
    let unsubs = source.level_one_equities(&strings(&["A"]), &strings(&["0"]), StreamCommand::Unsubscribe).unwrap();
    let mut c = StreamClient::new();
    assert_eq!(c.last_request_id(), 0);
    assert!(!c.send_requests(&[subs.clone(), unsubs.clone()]));
    let groups = c.replay_groups();
    assert_eq!(groups.len(), 1);
    assert_eq!(groups[0].keys, "B");
    let mut other = StreamClient::new();
    other.set_active(true);
    assert!(other.send_requests(&[unsubs, subs]));
    assert_eq!(other.replay_groups()[0].keys, "A,B");
    assert!(other.streamer_info().is_none());
    source.set_active(false);
    assert_eq!(source.streamer_info().unwrap().schwab_client_channel, "mock_channel");
    assert_eq!(source.last_request_id(), 2);
}

#[test]
fn repeated_add_changes_nothing_and_services_stay_apart() {
    let mut c = StreamClient::new();
    c.set_streamer_info(info());
    c.level_one_equities(&strings(&["A", "B"]), &strings(&["0", "1"]), StreamCommand::Add).unwrap();
    c.nasdaq_book(&strings(&["Q"]), &strings(&["2"]), StreamCommand::Add).unwrap();
    let once: Vec<(String, String, String)> =
        c.replay_groups().into_iter().map(|g| (g.service, g.keys, g.fields)).collect();
    c.level_one_equities(&strings(&["A", "B"]), &strings(&["0", "1"]), StreamCommand::Add).unwrap();
    let twice: Vec<(String, String, String)> =
        c.replay_groups().into_iter().map(|g| (g.service, g.keys, g.fields)).collect();
    assert_eq!(once, twice);
    c.level_one_equities(&strings(&["A", "B"]), &strings(&["0"]), StreamCommand::Unsubscribe).unwrap();
    let groups = c.replay_groups();
    assert_eq!(groups.len(), 1);
    assert_eq!((groups[0].service.as_str(), groups[0].keys.as_str()), ("NASDAQ_BOOK", "Q"));
}

#[test]
fn stop_and_connection_end_mark_the_stream_inactive() {
    let mut c = StreamClient::new();
    c.set_streamer_info(info());
    c.set_active(true);
    c.stop(false).unwrap();
    assert!(!c.is_active());
    c.set_active(true);
    assert_eq!(c.connection_ended(false, 500), ReconnectAction::RetryAfter(2));
    assert!(!c.is_active());
    c.set_active(true);
    assert_eq!(c.connection_ended(true, 500), ReconnectAction::Stop);
    assert!(!c.is_active());
}

#[test]
fn replayed_keys_are_listed_once() {
    let mut c = StreamClient::new();
    c.set_streamer_info(info());
    c.level_one_equities(&strings(&["A", "A", "B"]), &strings(&["0"]), StreamCommand::Add).unwrap();
    c.level_one_equities(&strings(&["B", "C"]), &strings(&["0"]), StreamCommand::Add).unwrap();
    let groups = c.replay_groups();
    assert_eq!(groups.len(), 1);
    assert_eq!(groups[0].keys, "A,B,C");
}
