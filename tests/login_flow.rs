use base64::Engine;
use codex_switcher::callback::{
    finish_exchange, handle_oauth_request, poll_step, CallbackStep, OAuthError, PollStep,
    LOGIN_TIMEOUT_MS, SUCCESS_PAGE,
};
use codex_switcher::claims::{parse_id_token_claims, read_token_response, ExchangeError, TokenResponse};
use codex_switcher::flow::{FlowSession, PendingSlot};
use codex_switcher::pkce::{
    build_authorize_url, decimal, generate_pkce, generate_state, redirect_uri_for, token_request,
    PkceCodes, CLIENT_ID, DEFAULT_ISSUER,
};
use codex_switcher::types::AuthData;
use sha2::Digest;

fn b64(bytes: &[u8]) -> String {
    base64::engine::general_purpose::URL_SAFE_NO_PAD.encode(bytes)
}

fn token_with_payload(payload: &str) -> String {
    format!("{}.{}.sig", b64(br#"{"alg":"none"}"#), b64(payload.as_bytes()))
}

fn url_safe(s: &str) -> bool {
    s.chars().all(|c| c.is_ascii_alphanumeric() || c == '-' || c == '_')
}

#[test]
fn pkce_challenge_is_digest_of_verifier() {
    for _ in 0..20 {
        let p = generate_pkce();
        let decoded = base64::engine::general_purpose::URL_SAFE_NO_PAD
            .decode(&p.code_challenge)
            .unwrap();
        let digest = sha2::Sha256::digest(p.code_verifier.as_bytes());
        assert_eq!(decoded, digest.to_vec());
        assert!(url_safe(&p.code_verifier));
        assert!(url_safe(&p.code_challenge));
        assert!(!p.code_verifier.contains('='));
        assert!(!p.code_challenge.contains('='));
        assert_eq!(p.code_verifier.len(), 86);
        assert_eq!(p.code_challenge.len(), 43);
    }
}

#[test]
fn generated_values_differ() {
    let mut seen = std::collections::HashSet::new();
    for _ in 0..200 {
        assert!(seen.insert(generate_pkce().code_verifier));
        assert!(seen.insert(generate_state()));
    }
}

#[test]
fn state_is_url_safe() {
    let s = generate_state();
    assert_eq!(s.len(), 43);
    assert!(url_safe(&s));
}

fn fixed_pkce() -> PkceCodes {
    PkceCodes { code_verifier: "verifier".to_string(), code_challenge: "chal-lenge_1".to_string() }
}

#[test]
fn authorize_url_is_exact_and_deterministic() {
    let p = fixed_pkce();
    let a = build_authorize_url("https://issuer.test", "client", "http://localhost:1455/auth/callback", &p, "st ate");
    let b = build_authorize_url("https://issuer.test", "client", "http://localhost:1455/auth/callback", &p, "st ate");
    assert_eq!(a, b);
    assert_eq!(
        a,
        "https://issuer.test/oauth/authorize?response_type=code&client_id=client\
&redirect_uri=http%3A%2F%2Flocalhost%3A1455%2Fauth%2Fcallback\
&scope=openid%20profile%20email%20offline_access&code_challenge=chal-lenge_1\
&code_challenge_method=S256&id_token_add_organizations=true\
&codex_cli_simplified_flow=true&state=st%20ate&originator=codex_cli_rs"
    );
}

#[test]
fn redirect_uri_round_trips_through_encoding() {
    let p = fixed_pkce();
    let redirect = "http://localhost:1455/auth/callback";
    let url = build_authorize_url(DEFAULT_ISSUER, CLIENT_ID, redirect, &p, "s");
    let query = url.split_once('?').unwrap().1;
    let value = query
        .split('&')
        .find_map(|kv| kv.strip_prefix("redirect_uri="))
        .unwrap();
    assert!(!value.contains(':') && !value.contains('/'));
    assert_eq!(urlencoding::decode(value).unwrap(), redirect);
}

#[test]
fn decimal_and_redirect_uri() {
    assert_eq!(decimal(0), "0");
    assert_eq!(decimal(7), "7");
    assert_eq!(decimal(1455), "1455");
    assert_eq!(decimal(65535), "65535");
    assert_eq!(redirect_uri_for(1455), "http://localhost:1455/auth/callback");
    assert_eq!(redirect_uri_for(50123), "http://localhost:50123/auth/callback");
}

#[test]
fn token_request_is_bound_to_flow_values() {
    let p = fixed_pkce();
    let r = token_request("https://issuer.test", "cli ent", "http://localhost:9/auth/callback", &p, "a/b");
    assert_eq!(r.url, "https://issuer.test/oauth/token");
    assert_eq!(r.content_type, "application/x-www-form-urlencoded");
    assert_eq!(
        r.body,
        "grant_type=authorization_code&code=a%2Fb\
&redirect_uri=http%3A%2F%2Flocalhost%3A9%2Fauth%2Fcallback&client_id=cli%20ent&code_verifier=verifier"
    );
}

#[test]
fn claims_are_read_from_payload() {
    let t = token_with_payload(
        r#"{"email":"a@b.com","https://api.openai.com/auth":{"chatgpt_plan_type":"plus","chatgpt_account_id":"acc-1"}}"#,
    );
    let (email, plan, account) = parse_id_token_claims(&t);
    assert_eq!(email.as_deref(), Some("a@b.com"));
    assert_eq!(plan.as_deref(), Some("plus"));
    assert_eq!(account.as_deref(), Some("acc-1"));
}

#[test]
fn unreadable_claims_are_absent() {
    assert_eq!(parse_id_token_claims("only.two"), (None, None, None));
    assert_eq!(parse_id_token_claims("a.b.c.d"), (None, None, None));
    assert_eq!(parse_id_token_claims("x.!!!.y"), (None, None, None));
    let not_json = format!("h.{}.s", b64(b"not json"));
    assert_eq!(parse_id_token_claims(&not_json), (None, None, None));
    let no_claims = token_with_payload(r#"{"sub":"1","email":7}"#);
    assert_eq!(parse_id_token_claims(&no_claims), (None, None, None));
}

#[test]
fn token_response_is_read() {
    let ok = read_token_response(200, r#"{"id_token":"I","access_token":"A","refresh_token":"R","x":1}"#).unwrap();
    assert_eq!((ok.id_token.as_str(), ok.access_token.as_str(), ok.refresh_token.as_str()), ("I", "A", "R"));
    match read_token_response(400, "bad") {
        Err(ExchangeError::Status { status, body }) => {
            assert_eq!(status, 400);
            assert_eq!(body, "bad");
        }
        other => panic!("unexpected {:?}", other),
    }
    assert!(matches!(read_token_response(200, "{\"id_token\":\"I\"}"), Err(ExchangeError::Malformed)));
    assert!(matches!(read_token_response(201, "nonsense"), Err(ExchangeError::Malformed)));
}

#[test]
fn callback_without_code_fails() {
    match handle_oauth_request("/auth/callback?state=S", "S") {
        CallbackStep::Fail { reply, error: OAuthError::MissingCode } => {
            assert_eq!(reply.status, 400);
            assert_eq!(reply.body, "Missing authorization code");
        }
        other => panic!("unexpected {:?}", other),
    }
    assert!(matches!(
        handle_oauth_request("/auth/callback?state=S&code=", "S"),
        CallbackStep::Fail { error: OAuthError::MissingCode, .. }
    ));
}

#[test]
fn callback_with_provider_error_fails() {
    match handle_oauth_request("/auth/callback?error=access_denied&state=S&code=c", "S") {
        CallbackStep::Fail { reply, error: OAuthError::ProviderError { error, description } } => {
            assert_eq!(reply.status, 400);
            assert_eq!(error, "access_denied");
            assert_eq!(description, "Unknown error");
            assert_eq!(reply.body, "OAuth Error: access_denied - Unknown error");
        }
        other => panic!("unexpected {:?}", other),
    }
    match handle_oauth_request("/auth/callback?error=x&error_description=no+way", "S") {
        CallbackStep::Fail { error: OAuthError::ProviderError { description, .. }, .. } => {
            assert_eq!(description, "no way")
        }
        other => panic!("unexpected {:?}", other),
    }
}

#[test]
fn callback_with_wrong_state_never_exchanges() {
    for target in ["/auth/callback?state=T&code=abc", "/auth/callback?code=abc", "/auth/callback?state=s&code=abc"] {
        match handle_oauth_request(target, "S") {
            CallbackStep::Fail { reply, error: OAuthError::StateMismatch } => {
                assert_eq!(reply.status, 400);
                assert_eq!(reply.body, "State mismatch");
            }
            other => panic!("unexpected {:?}", other),
        }
    }
}

#[test]
fn stray_requests_keep_listening() {
    match handle_oauth_request("/favicon.ico", "S") {
        CallbackStep::Continue { reply } => {
            assert_eq!(reply.status, 404);
            assert_eq!(reply.body, "Not Found");
        }
        other => panic!("unexpected {:?}", other),
    }
}

#[test]
fn valid_callback_hands_on_code() {
    match handle_oauth_request("/auth/callback?code=abc&state=S", "S") {
        CallbackStep::Exchange { code } => assert_eq!(code, "abc"),
        other => panic!("unexpected {:?}", other),
    }
    match handle_oauth_request("/auth/callback?state=S&code=a%2Bb&code=last", "S") {
        CallbackStep::Exchange { code } => assert_eq!(code, "last"),
        other => panic!("unexpected {:?}", other),
    }
}

#[test]
fn exchange_outcome_decides_reply() {
    let tokens = TokenResponse {
        id_token: token_with_payload(r#"{"email":"a@b.com"}"#),
        access_token: "AT".to_string(),
        refresh_token: "RT".to_string(),
    };
    let (reply, result) = finish_exchange("work", Ok(tokens));
    assert_eq!(reply.status, 200);
    assert!(reply.html);
    assert_eq!(reply.body, SUCCESS_PAGE);
    let account = result.unwrap();
    assert_eq!(account.name, "work");
    assert_eq!(account.email.as_deref(), Some("a@b.com"));
    assert_eq!(account.id.len(), 36);

    let (reply, result) = finish_exchange("work", Err(ExchangeError::Status { status: 401, body: "no".to_string() }));
    assert_eq!(reply.status, 500);
    assert_eq!(reply.body, "Token exchange failed: Token exchange failed: 401 - no");
    assert!(matches!(result, Err(OAuthError::ExchangeFailure { .. })));
}

#[test]
fn account_without_claims_is_unlabelled() {
    let tokens = TokenResponse {
        id_token: token_with_payload(r#"{"sub":"x"}"#),
        access_token: "AT".to_string(),
        refresh_token: "RT".to_string(),
    };
    let (_, result) = finish_exchange("plain", Ok(tokens));
    let account = result.unwrap();
    assert_eq!(account.email, None);
    assert_eq!(account.plan_type, None);
    match account.auth_data {
        AuthData::ChatGPT { account_id, access_token, refresh_token, .. } => {
            assert_eq!(account_id, None);
            assert_eq!(access_token, "AT");
            assert_eq!(refresh_token, "RT");
        }
        AuthData::ApiKey { .. } => panic!("wrong credentials"),
    }
}

#[test]
fn poll_step_honours_cancel_and_deadline() {
    assert!(matches!(poll_step(true, 0), PollStep::Stop { error: OAuthError::Cancelled }));
    assert!(matches!(poll_step(true, LOGIN_TIMEOUT_MS + 1), PollStep::Stop { error: OAuthError::Cancelled }));
    assert!(matches!(poll_step(false, LOGIN_TIMEOUT_MS + 1), PollStep::Stop { error: OAuthError::Timeout }));
    assert!(matches!(poll_step(false, LOGIN_TIMEOUT_MS), PollStep::Listen));
    assert!(matches!(poll_step(false, 0), PollStep::Listen));
}

#[test]
fn second_start_hands_back_first() {
    let mut slot: PendingSlot<u32> = PendingSlot::new();
    assert_eq!(slot.start_login(1), None);
    assert_eq!(slot.start_login(2), Some(1));
    assert_eq!(slot.complete_login().unwrap(), 2);
    assert!(matches!(slot.complete_login(), Err(OAuthError::NoPendingLogin)));
    assert_eq!(slot.start_login(3), None);
    assert_eq!(slot.cancel_login(), Some(3));
    assert_eq!(slot.cancel_login(), None);
}

#[test]
fn flow_from_start_to_account() {
    let (session, info) = FlowSession::begin("me".to_string(), 50123);
    assert_eq!(info.callback_port, 50123);
    assert_eq!(session.redirect_uri, "http://localhost:50123/auth/callback");
    assert!(info.auth_url.starts_with("https://auth.openai.com/oauth/authorize?"));
    assert!(info.auth_url.contains(&format!("&state={}&", session.state)));
    assert!(info.auth_url.contains(&format!("&code_challenge={}&", session.pkce.code_challenge)));
    let target = format!("/auth/callback?code=abc&state={}", session.state);
    let code = match handle_oauth_request(&target, &session.state) {
        CallbackStep::Exchange { code } => code,
        other => panic!("unexpected {:?}", other),
    };
    assert_eq!(code, "abc");
    let request = session.token_request(&code);
    assert!(request.body.contains("&code_verifier="));
    assert!(request.body.ends_with(&session.pkce.code_verifier));
    let body = format!(
        r#"{{"id_token": "{}", "access_token":"AT","refresh_token":"RT"}}"#,
        token_with_payload(r#"{"email":"a@b.com"}"#)
    );
    let (reply, result) = finish_exchange(&session.account_name, read_token_response(200, &body));
    assert_eq!(reply.status, 200);
    let account = result.unwrap();
    assert_eq!(account.email.as_deref(), Some("a@b.com"));
    match account.auth_data {
        AuthData::ChatGPT { access_token, .. } => assert_eq!(access_token, "AT"),
        AuthData::ApiKey { .. } => panic!("wrong credentials"),
    }
}
