//! The broker's end-to-end behaviour: sign-in URL generation, callback
//! correlation, token exchange, and refresh scheduling.

use kcal::broker::{Broker, ExchangeMode};
use kcal::jsonio::{parse_token_reply, TokenEndpointReply};
use kcal::model::{
    ClientId, ExchangeFailure, OauthError, OauthRequest, OauthResponse, ProviderConfig,
};

fn test_config() -> ProviderConfig {
    ProviderConfig {
        client_id: "id".to_string(),
        client_secret: "sec".to_string(),
        auth_url: "https://accounts.example/o/oauth2/auth".to_string(),
        token_url: "https://oauth2.example/token".to_string(),
        redirect_url: "https://broker.example/auth".to_string(),
    }
}

fn client_a() -> ClientId {
    ClientId::new("node-a.os".to_string(), "client:kcal:node".to_string())
}

fn state_of(url: &str) -> String {
    let start = url.find("state=").expect("url carries a state parameter") + "state=".len();
    let rest = &url[start..];
    let end = rest.find('&').unwrap_or(rest.len());
    rest[..end].to_string()
}

fn ok_reply(access: &str, refresh: Option<&str>, expires_in: u64) -> TokenEndpointReply {
    TokenEndpointReply {
        status: 200,
        json_ok: true,
        access_token: Some(access.to_string()),
        refresh_token: refresh.map(|r| r.to_string()),
        expires_in: Some(expires_in),
    }
}

#[test]
fn generated_url_carries_fresh_state() {
    let mut broker = Broker::new(test_config());
    let url = broker.generate_url(client_a(), 1_000);
    let state = state_of(&url);
    assert!(!state.is_empty());
    assert!(broker.pending.contains(&state));
    assert_eq!(broker.pending.len(), 1);
    assert!(url.starts_with("https://accounts.example/o/oauth2/auth?response_type=code&client_id=id&state="));
    assert!(url.contains("&code_challenge="));
    assert!(url.contains("&code_challenge_method=S256"));
    assert!(url.contains("&redirect_uri=https%3A%2F%2Fbroker.example%2Fauth"));
    assert!(url.contains("&scope=https%3A%2F%2Fwww.googleapis.com%2Fauth%2Fcalendar"));
    assert!(url.contains("&access_type=offline&prompt=consent"));
}

#[test]
fn generated_states_are_unique() {
    let mut broker = Broker::new(test_config());
    let mut seen = std::collections::HashSet::new();
    for i in 0..10_000u64 {
        let url = broker.generate_url(client_a(), i);
        let state = state_of(&url);
        assert!(seen.insert(state), "two generations shared a state value");
    }
    assert_eq!(broker.pending.len(), 10_000);
}

#[test]
fn unknown_state_yields_session_not_found() {
    let mut broker = Broker::new(test_config());
    let r = broker.handle_callback(Some("C1".to_string()), Some("missing".to_string()));
    assert!(matches!(r, Err(OauthError::SessionNotFound)));
    assert_eq!(Broker::callback_status(&r), 401);
    assert_eq!(broker.pending.len(), 0);
    assert_eq!(broker.tokens.len(), 0);
}

#[test]
fn missing_parameters_yield_malformed_callback() {
    let mut broker = Broker::new(test_config());
    broker.generate_url(client_a(), 5);
    let r = broker.handle_callback(None, Some("S1".to_string()));
    assert!(matches!(r, Err(OauthError::MalformedCallback)));
    assert_eq!(Broker::callback_status(&r), 400);
    let r = broker.handle_callback(Some("C1".to_string()), None);
    assert!(matches!(r, Err(OauthError::MalformedCallback)));
    assert_eq!(broker.pending.len(), 1, "a malformed callback consumes nothing");
}

#[test]
fn matching_callback_consumes_the_session() {
    let mut broker = Broker::new(test_config());
    let url = broker.generate_url(client_a(), 10);
    let state = state_of(&url);
    let first = broker.handle_callback(Some("C1".to_string()), Some(state.clone()));
    let ticket = first.expect("a live session matches");
    assert!(ticket.client.same_as(&client_a()));
    assert_eq!(ticket.code, "C1");
    assert!(!ticket.verifier.is_empty());
    assert_eq!(broker.pending.len(), 0);
    let second = broker.handle_callback(Some("C1".to_string()), Some(state));
    assert!(matches!(second, Err(OauthError::SessionNotFound)));
}

#[test]
fn code_exchange_request_body_is_exact() {
    let broker = Broker::new(test_config());
    let mode = ExchangeMode::AuthCode { code: "a b/c".to_string(), verifier: "V1".to_string() };
    let req = broker.exchange_request(&mode);
    assert_eq!(req.url, "https://oauth2.example/token");
    let expected = format!(
        "{}{}",
        "grant_type=authorization_code&client_id=id&client_secret=sec&code=a+b%2Fc",
        "&redirect_uri=https%3A%2F%2Fbroker.example%2Fauth&code_verifier=V1"
    );
    assert_eq!(req.body, expected);
}

#[test]
fn refresh_exchange_request_body_is_exact() {
    let broker = Broker::new(test_config());
    let mode = ExchangeMode::Refresh { refresh_token: "RT1".to_string() };
    let req = broker.exchange_request(&mode);
    assert_eq!(req.url, "https://oauth2.example/token");
    assert_eq!(req.body, "grant_type=refresh_token&client_id=id&client_secret=sec&refresh_token=RT1");
}

#[test]
fn successful_exchange_stores_record_and_arms_refresh() {
    let mut broker = Broker::new(test_config());
    let mode = ExchangeMode::AuthCode { code: "C1".to_string(), verifier: "V1".to_string() };
    let outcome = broker
        .apply_token_response(mode, client_a(), Some(&ok_reply("AT1", Some("RT1"), 3600)), 1_000)
        .expect("a complete reply succeeds");
    assert_eq!(outcome.access_token, "AT1");
    assert_eq!(outcome.refresh_delay, 3570);
    let record = broker.tokens.get(&client_a()).expect("a record was created");
    assert_eq!(record.refresh_token, "RT1");
    assert_eq!(record.expires_at, 4600);
    assert!(record.scopes.is_empty());
}

#[test]
fn short_expiry_clamps_refresh_delay_to_zero() {
    let mut broker = Broker::new(test_config());
    let mode = ExchangeMode::AuthCode { code: "C1".to_string(), verifier: "V1".to_string() };
    let outcome = broker
        .apply_token_response(mode, client_a(), Some(&ok_reply("AT1", Some("RT1"), 10)), 50)
        .expect("a complete reply succeeds");
    assert_eq!(outcome.refresh_delay, 0);
    assert_eq!(broker.tokens.get(&client_a()).unwrap().expires_at, 60);
}

#[test]
fn missing_access_token_fails_and_changes_nothing() {
    let mut broker = Broker::new(test_config());
    let mode = ExchangeMode::AuthCode { code: "C0".to_string(), verifier: "V0".to_string() };
    broker
        .apply_token_response(mode, client_a(), Some(&ok_reply("OLD", Some("OLD-RT"), 100)), 0)
        .unwrap();
    let before = (
        broker.tokens.get(&client_a()).unwrap().refresh_token.clone(),
        broker.tokens.get(&client_a()).unwrap().expires_at,
    );
    let mut reply = ok_reply("AT1", Some("RT1"), 3600);
    reply.access_token = None;
    let mode = ExchangeMode::AuthCode { code: "C1".to_string(), verifier: "V1".to_string() };
    let r = broker.apply_token_response(mode, client_a(), Some(&reply), 1_000);
    assert!(matches!(
        r,
        Err(OauthError::TokenExchangeFailed(ExchangeFailure::MissingAccessToken))
    ));
    let after = (
        broker.tokens.get(&client_a()).unwrap().refresh_token.clone(),
        broker.tokens.get(&client_a()).unwrap().expires_at,
    );
    assert_eq!(before, after, "a failed exchange leaves the record untouched");
}

#[test]
fn missing_expires_in_fails() {
    let mut broker = Broker::new(test_config());
    let mut reply = ok_reply("AT1", Some("RT1"), 3600);
    reply.expires_in = None;
    let mode = ExchangeMode::AuthCode { code: "C1".to_string(), verifier: "V1".to_string() };
    let r = broker.apply_token_response(mode, client_a(), Some(&reply), 1_000);
    assert!(matches!(
        r,
        Err(OauthError::TokenExchangeFailed(ExchangeFailure::MissingExpiresIn))
    ));
    assert_eq!(broker.tokens.len(), 0);
}

#[test]
fn code_exchange_requires_refresh_token() {
    let mut broker = Broker::new(test_config());
    let mode = ExchangeMode::AuthCode { code: "C1".to_string(), verifier: "V1".to_string() };
    let r = broker.apply_token_response(mode, client_a(), Some(&ok_reply("AT1", None, 3600)), 0);
    assert!(matches!(
        r,
        Err(OauthError::TokenExchangeFailed(ExchangeFailure::MissingRefreshToken))
    ));
}

#[test]
fn refresh_without_new_token_retains_the_presented_one() {
    let mut broker = Broker::new(test_config());
    let mode = ExchangeMode::Refresh { refresh_token: "RT1".to_string() };
    let outcome = broker
        .apply_token_response(mode, client_a(), Some(&ok_reply("AT2", None, 3600)), 5_000)
        .expect("refresh_token may be absent on refresh");
    assert_eq!(outcome.access_token, "AT2");
    assert_eq!(broker.tokens.get(&client_a()).unwrap().refresh_token, "RT1");
}

#[test]
fn transport_failure_fails_and_changes_nothing() {
    let mut broker = Broker::new(test_config());
    let mode = ExchangeMode::AuthCode { code: "C0".to_string(), verifier: "V0".to_string() };
    broker
        .apply_token_response(mode, client_a(), Some(&ok_reply("AT1", Some("RT1"), 100)), 0)
        .unwrap();
    let mode = ExchangeMode::Refresh { refresh_token: "RT1".to_string() };
    let r = broker.apply_token_response(mode, client_a(), None, 50);
    assert!(matches!(r, Err(OauthError::TokenExchangeFailed(ExchangeFailure::Transport))));
    let record = broker.tokens.get(&client_a()).unwrap();
    assert_eq!(record.refresh_token, "RT1");
    assert_eq!(record.expires_at, 100, "no reply: the record is untouched");
}

#[test]
fn non_2xx_status_fails_exchange() {
    let mut broker = Broker::new(test_config());
    let mut reply = ok_reply("AT1", Some("RT1"), 3600);
    reply.status = 500;
    let mode = ExchangeMode::AuthCode { code: "C1".to_string(), verifier: "V1".to_string() };
    let r = broker.apply_token_response(mode, client_a(), Some(&reply), 0);
    assert!(matches!(r, Err(OauthError::TokenExchangeFailed(ExchangeFailure::BadStatus))));
}

#[test]
fn malformed_json_fails_exchange() {
    let mut broker = Broker::new(test_config());
    let reply = parse_token_reply(200, b"this is not json");
    assert!(!reply.json_ok);
    let mode = ExchangeMode::AuthCode { code: "C1".to_string(), verifier: "V1".to_string() };
    let r = broker.apply_token_response(mode, client_a(), Some(&reply), 0);
    assert!(matches!(r, Err(OauthError::TokenExchangeFailed(ExchangeFailure::MalformedJson))));
}

#[test]
fn token_reply_parsing_reads_the_three_fields() {
    let reply = parse_token_reply(
        200,
        br#"{"access_token":"AT1","refresh_token":"RT1","expires_in":3600,"scope":"x"}"#,
    );
    assert!(reply.json_ok);
    assert_eq!(reply.access_token.as_deref(), Some("AT1"));
    assert_eq!(reply.refresh_token.as_deref(), Some("RT1"));
    assert_eq!(reply.expires_in, Some(3600));
    let partial = parse_token_reply(200, br#"{"access_token":7,"expires_in":"soon"}"#);
    assert!(partial.json_ok);
    assert_eq!(partial.access_token, None, "a non-string access_token is rejected");
    assert_eq!(partial.expires_in, None, "a non-integer expires_in is rejected");
    assert_eq!(partial.refresh_token, None);
}

#[test]
fn refresh_request_without_record_is_a_silent_no_op() {
    let broker = Broker::new(test_config());
    let r = broker.refresh_exchange(&client_a());
    assert!(matches!(r, Err(OauthError::NoRecord)), "no record: no exchange, no notification");
}

#[test]
fn timer_fire_uses_the_stored_refresh_token() {
    let mut broker = Broker::new(test_config());
    let mode = ExchangeMode::AuthCode { code: "C1".to_string(), verifier: "V1".to_string() };
    broker
        .apply_token_response(mode, client_a(), Some(&ok_reply("AT1", Some("RT1"), 3600)), 0)
        .unwrap();
    match broker.refresh_exchange(&client_a()) {
        Ok(ExchangeMode::Refresh { refresh_token }) => assert_eq!(refresh_token, "RT1"),
        other => panic!("expected a refresh mode, got {:?}", other.is_ok()),
    }
}

#[test]
fn end_to_end_code_flow_then_scheduled_refresh() {
    let mut broker = Broker::new(test_config());
    let now = 1_000u64;

    // Sign-in URL for client A; its state keys the pending session.
    let url = broker.generate_url(client_a(), now);
    let s1 = state_of(&url);
    assert!(url.contains(&format!("state={}", s1)));

    // Provider redirect with code C1 and that state.
    let callback = broker.handle_callback(Some("C1".to_string()), Some(s1));
    assert_eq!(Broker::callback_status(&callback), 200);
    let ticket = callback.unwrap();
    let mode = ExchangeMode::AuthCode { code: ticket.code, verifier: ticket.verifier };
    let req = broker.exchange_request(&mode);
    assert!(req.body.contains("grant_type=authorization_code"));
    assert!(req.body.contains("code=C1"));

    // Token endpoint answers with a full token set.
    let reply = parse_token_reply(
        200,
        br#"{"access_token":"AT1","refresh_token":"RT1","expires_in":3600}"#,
    );
    let outcome = broker.apply_token_response(mode, ticket.client, Some(&reply), now).unwrap();
    assert_eq!(outcome.access_token, "AT1");
    assert_eq!(outcome.refresh_delay, 3570);
    assert_eq!(broker.tokens.get(&client_a()).unwrap().refresh_token, "RT1");
    assert_eq!(broker.tokens.get(&client_a()).unwrap().expires_at, now + 3600);

    // The timer fires 3570 seconds later; the stored token refreshes, and
    // the provider sends no new refresh token.
    let fire_at = now + outcome.refresh_delay;
    let mode = broker.refresh_exchange(&client_a()).unwrap();
    let req = broker.exchange_request(&mode);
    assert!(req.body.contains("grant_type=refresh_token"));
    assert!(req.body.contains("refresh_token=RT1"));
    let reply = parse_token_reply(200, br#"{"access_token":"AT2","expires_in":3600}"#);
    let outcome = broker.apply_token_response(mode, client_a(), Some(&reply), fire_at).unwrap();
    assert_eq!(outcome.access_token, "AT2");
    let record = broker.tokens.get(&client_a()).unwrap();
    assert_eq!(record.refresh_token, "RT1", "the old refresh token is retained");
    assert_eq!(record.expires_at, fire_at + 3600);
}

#[test]
fn generate_url_request_is_answered_directly() {
    let mut broker = Broker::new(test_config());
    let (reply, action) = broker.handle_request(client_a(), OauthRequest::GenerateUrl, 3);
    match reply {
        Some(OauthResponse::Url { url }) => {
            let state = state_of(&url);
            assert!(broker.pending.contains(&state));
        },
        other => panic!("expected a direct Url reply, got {:?}", other),
    }
    assert!(action.is_none());
}

#[test]
fn refresh_request_without_record_is_fully_silent() {
    let mut broker = Broker::new(test_config());
    let (reply, action) = broker.handle_request(client_a(), OauthRequest::RefreshToken, 3);
    assert!(reply.is_none(), "RefreshToken is never answered directly");
    assert!(action.is_none(), "no record: no outbound call");
}

#[test]
fn refresh_request_with_record_asks_for_the_stored_token() {
    let mut broker = Broker::new(test_config());
    let mode = ExchangeMode::AuthCode { code: "C1".to_string(), verifier: "V1".to_string() };
    broker
        .apply_token_response(mode, client_a(), Some(&ok_reply("AT1", Some("RT1"), 3600)), 0)
        .unwrap();
    let (reply, action) = broker.handle_request(client_a(), OauthRequest::RefreshToken, 9);
    assert!(reply.is_none());
    match action {
        Some(ExchangeMode::Refresh { refresh_token }) => assert_eq!(refresh_token, "RT1"),
        _ => panic!("expected a refresh exchange"),
    }
}

#[test]
fn stray_exchange_and_token_requests_are_ignored() {
    let mut broker = Broker::new(test_config());
    let request = OauthRequest::Exchange { code: "C".to_string(), state: "S".to_string() };
    let (reply, action) = broker.handle_request(client_a(), request, 1);
    assert!(reply.is_none() && action.is_none());
    let request = OauthRequest::Token { token: "T".to_string() };
    let (reply, action) = broker.handle_request(client_a(), request, 1);
    assert!(reply.is_none() && action.is_none());
    assert_eq!(broker.pending.len(), 0);
    assert_eq!(broker.tokens.len(), 0);
}

#[test]
fn endpoints_parse_accepts_urls_and_rejects_text() {
    let good = test_config();
    assert!(good.endpoints_parse());
    let mut bad = test_config();
    bad.token_url = "not a url".to_string();
    assert!(!bad.endpoints_parse());
}
