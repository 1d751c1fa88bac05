//! The callback request: its validation, the failures of a flow, and the
//! reply the browser is shown.
use vstd::prelude::*;
use vstd::string::StringExecFns;
use crate::claims::{
    claims_of, id_token_payload, ACCOUNT_ID_POINTER, EMAIL_POINTER, PLAN_TYPE_POINTER, parse_id_token_claims, ExchangeError, TokenResponse};
use crate::codec::{json_str_at, parse_target, target_parts, QueryPair};
use crate::pkce::decimal;
use crate::pkce::decimal_of;
use crate::types::{opt_view, str_eq, AuthData, StoredAccount};

verus! {

/// The path the provider redirects the browser to.
pub const CALLBACK_PATH: &'static str = "/auth/callback";

/// The page shown in the browser after a successful login.
pub const SUCCESS_PAGE: &'static str = "<!DOCTYPE html>
<html>
<head>
    <title>Login Successful</title>
    <style>
        body { font-family: -apple-system, BlinkMacSystemFont, 'Segoe UI', Roboto, sans-serif; display: flex; justify-content: center; align-items: center; height: 100vh; margin: 0; background: linear-gradient(135deg, #667eea 0%, #764ba2 100%); }
        .container { text-align: center; background: white; padding: 40px 60px; border-radius: 16px; box-shadow: 0 20px 60px rgba(0,0,0,0.3); }
        h1 { color: #333; margin-bottom: 10px; }
        p { color: #666; }
        .checkmark { font-size: 48px; margin-bottom: 20px; }
    </style>
</head>
<body>
    <div class=\"container\">
        <div class=\"checkmark\">&#10003;</div>
        <h1>Login Successful!</h1>
        <p>You can close this window and return to Codex Switcher.</p>
    </div>
</body>
</html>";

/// Why a login flow ended without an account.
#[derive(Debug, Clone)]
pub enum OAuthError {
    /// Neither the preferred port nor an ephemeral one could be bound.
    BindFailure { default_error: String, fallback_error: String },
    /// The bound listener has no IP address to read a port from.
    PortUnknown,
    /// The provider redirected with an `error` parameter.
    ProviderError { error: String, description: String },
    /// The callback's `state` is absent or not the flow's own.
    StateMismatch,
    /// The callback carries no authorization code.
    MissingCode,
    /// The code could not be redeemed for tokens.
    ExchangeFailure { cause: ExchangeError },
    /// No callback came before the deadline.
    Timeout,
    /// The flow was cancelled, or a newer one replaced it.
    Cancelled,
    /// There is no flow to complete.
    NoPendingLogin,
}

/// One HTTP answer to the browser.
#[derive(Debug, Clone)]
pub struct HttpReply {
    pub status: u16,
    pub body: String,
    /// Whether the body is an HTML page rather than plain text.
    pub html: bool,
}

/// What the listener does with one request.
#[derive(Debug, Clone)]
pub enum CallbackStep {
    /// Answer, and keep listening.
    Continue { reply: HttpReply },
    /// Answer, and end the flow with this failure.
    Fail { reply: HttpReply, error: OAuthError },
    /// The callback is valid: redeem the code, then answer.
    Exchange { code: String },
}

/// The value of the last query pair with a name, as a map built from the
/// pairs in order keeps it.
pub open spec fn param_of(q: Seq<(Seq<char>, Seq<char>)>, key: Seq<char>) -> Option<Seq<char>>
    decreases q.len(),
{
    if q.len() == 0 {
        None
    } else if q.last().0 == key {
        Some(q.last().1)
    } else {
        param_of(q.drop_last(), key)
    }
}

/// Looks a query parameter up.
fn query_param(q: &Vec<QueryPair>, key: &str) -> (r: Option<String>)
    ensures
        opt_view(r) == param_of(q@.map_values(|p: QueryPair| (p.name@, p.value@)), key@),
{
    let ghost qv = q@.map_values(|p: QueryPair| (p.name@, p.value@));
    let mut found: Option<String> = None;
    let mut i: usize = 0;
    while i < q.len()
        invariant
            i <= q@.len(),
            qv == q@.map_values(|p: QueryPair| (p.name@, p.value@)),
            opt_view(found) == param_of(qv.take(i as int), key@),
        decreases q@.len() - i,
    {
        assert(qv.take(i + 1).drop_last() =~= qv.take(i as int));
        if str_eq(q[i].name.as_str(), key) {
            found = Some(q[i].value.clone());
        }
        i = i + 1;
    }
    assert(qv.take(q@.len() as int) =~= qv);
    found
}

fn text_reply(status: u16, body: String) -> (r: HttpReply)
    ensures
        r.status == status,
        r.body == body,
        !r.html,
{
    HttpReply { status, body, html: false }
}

/// The text of a provider-reported error.
pub open spec fn provider_error_text(error: Seq<char>, description: Seq<char>) -> Seq<char> {
    "OAuth Error: "@ + error + " - "@ + description
}

/// Validates one request to the listener against the flow's expected state.
///
/// Requests to other paths, and targets that are no URL, are answered and
/// do not end the flow. On the callback path, in order: a provider `error`
/// ends the flow with that error; a `state` other than the expected one ends
/// it as a forgery; an absent or empty `code` ends it; otherwise the code is
/// handed on for the exchange. Only that last outcome reaches the exchange.
pub fn handle_oauth_request(target: &str, expected_state: &str) -> (r: CallbackStep)
    ensures
        match target_parts(target@) {
            None => (r matches CallbackStep::Continue { reply } && reply.status == 400
                && reply.body@ == "Bad Request"@),
            Some((path, q)) => if path != CALLBACK_PATH@ {
                r matches CallbackStep::Continue { reply } && reply.status == 404
                    && reply.body@ == "Not Found"@
            } else if param_of(q, "error"@) is Some {
                let error = param_of(q, "error"@).unwrap();
                let description = match param_of(q, "error_description"@) {
                    Some(d) => d,
                    None => "Unknown error"@,
                };
                r matches CallbackStep::Fail {
                    reply,
                    error: OAuthError::ProviderError { error: e, description: d },
                } && reply.status == 400 && e@ == error && d@ == description
                    && reply.body@ == provider_error_text(error, description)
            } else if param_of(q, "state"@) != Some(expected_state@) {
                r matches CallbackStep::Fail { reply, error: OAuthError::StateMismatch }
                    && reply.status == 400 && reply.body@ == "State mismatch"@
            } else if param_of(q, "code"@) is None || param_of(q, "code"@).unwrap().len() == 0 {
                r matches CallbackStep::Fail { reply, error: OAuthError::MissingCode }
                    && reply.status == 400 && reply.body@ == "Missing authorization code"@
            } else {
                r matches CallbackStep::Exchange { code } && code@ == param_of(q, "code"@).unwrap()
            },
        },
{
    let parsed = match parse_target(target) {
        Some(t) => t,
        None => {
            return CallbackStep::Continue {
                reply: text_reply(400, String::from_str("Bad Request")),
            };
        },
    };
    if !str_eq(parsed.path.as_str(), CALLBACK_PATH) {
        return CallbackStep::Continue { reply: text_reply(404, String::from_str("Not Found")) };
    }
    if let Some(error) = query_param(&parsed.query, "error") {
        let description = match query_param(&parsed.query, "error_description") {
            Some(d) => d,
            None => String::from_str("Unknown error"),
        };
        let mut body = String::from_str("OAuth Error: ");
        body.append(error.as_str());
        body.append(" - ");
        body.append(description.as_str());
        return CallbackStep::Fail {
            reply: text_reply(400, body),
            error: OAuthError::ProviderError { error, description },
        };
    }
    let state_ok = match query_param(&parsed.query, "state") {
        Some(s) => str_eq(s.as_str(), expected_state),
        None => false,
    };
    if !state_ok {
        return CallbackStep::Fail {
            reply: text_reply(400, String::from_str("State mismatch")),
            error: OAuthError::StateMismatch,
        };
    }
    match query_param(&parsed.query, "code") {
        Some(code) => {
            if code.as_str().is_empty() {
                CallbackStep::Fail {
                    reply: text_reply(400, String::from_str("Missing authorization code")),
                    error: OAuthError::MissingCode,
                }
            } else {
                CallbackStep::Exchange { code }
            }
        },
        None => CallbackStep::Fail {
            reply: text_reply(400, String::from_str("Missing authorization code")),
            error: OAuthError::MissingCode,
        },
    }
}

/// The text of an exchange failure.
pub open spec fn exchange_error_text(e: ExchangeError) -> Seq<char> {
    match e {
        ExchangeError::Transport { message } => "Failed to send token request: "@ + message@,
        ExchangeError::Status { status, body } => "Token exchange failed: "@ + decimal_of(
            status as nat,
        ) + " - "@ + body@,
        ExchangeError::Malformed => "Failed to parse token response"@,
    }
}

impl ExchangeError {
    /// Describes the failure for the user.
    pub fn message(&self) -> (r: String)
        ensures
            r@ == exchange_error_text(*self),
    {
        match self {
            ExchangeError::Transport { message } => {
                let mut t = String::from_str("Failed to send token request: ");
                t.append(message.as_str());
                t
            },
            ExchangeError::Status { status, body } => {
                let mut t = String::from_str("Token exchange failed: ");
                let digits = decimal(*status);
                t.append(digits.as_str());
                t.append(" - ");
                t.append(body.as_str());
                t
            },
            ExchangeError::Malformed => String::from_str("Failed to parse token response"),
        }
    }
}

/// An account made from a token response: named as asked, labelled with the
/// identity token's claims where they can be read, holding the three tokens.
pub open spec fn account_matches_tokens(
    a: StoredAccount,
    name: Seq<char>,
    id_token: Seq<char>,
    access_token: Seq<char>,
    refresh_token: Seq<char>,
) -> bool {
    let claims = claims_of(id_token);
    &&& a.name@ == name
    &&& opt_view(a.email) == claims.0
    &&& opt_view(a.plan_type) == claims.1
    &&& a.auth_mode == crate::types::AuthMode::ChatGPT
    &&& a.auth_data matches AuthData::ChatGPT { id_token: i, access_token: t, refresh_token: f, account_id }
        && i@ == id_token && t@ == access_token && f@ == refresh_token
        && opt_view(account_id) == claims.2
}

/// Builds the account record for a successful login.
pub fn account_from_tokens(account_name: &str, tokens: TokenResponse) -> (r: StoredAccount)
    ensures
        account_matches_tokens(
            r,
            account_name@,
            tokens.id_token@,
            tokens.access_token@,
            tokens.refresh_token@,
        ),
        r.id@.len() == 36,
        r.last_used_at is None,
{
    let (email, plan_type, account_id) = parse_id_token_claims(tokens.id_token.as_str());
    StoredAccount::new_chatgpt(
        String::from_str(account_name),
        email,
        plan_type,
        tokens.id_token,
        tokens.access_token,
        tokens.refresh_token,
        account_id,
    )
}

/// Ends a flow once the exchange is done: on success the account and the
/// success page; on failure the exchange error and a 500 with its text.
pub fn finish_exchange(account_name: &str, exchange: Result<TokenResponse, ExchangeError>) -> (r: (
    HttpReply,
    Result<StoredAccount, OAuthError>,
))
    ensures
        match exchange {
            Ok(t) => r.0.status == 200 && r.0.html && r.0.body@ == SUCCESS_PAGE@
                && (r.1 matches Ok(a) && account_matches_tokens(
                a,
                account_name@,
                t.id_token@,
                t.access_token@,
                t.refresh_token@,
            )),
            Err(e) => r.0.status == 500 && !r.0.html && r.0.body@ == "Token exchange failed: "@
                + exchange_error_text(e) && (r.1 matches Err(OAuthError::ExchangeFailure { cause })
                && cause == e),
        },
{
    match exchange {
        Ok(tokens) => {
            let account = account_from_tokens(account_name, tokens);
            (HttpReply { status: 200, body: String::from_str(SUCCESS_PAGE), html: true }, Ok(account))
        },
        Err(e) => {
            let mut body = String::from_str("Token exchange failed: ");
            let text = e.message();
            body.append(text.as_str());
            (text_reply(500, body), Err(OAuthError::ExchangeFailure { cause: e }))
        },
    }
}

/// How long a flow waits for its callback, in milliseconds.
pub const LOGIN_TIMEOUT_MS: u64 = 300000;

/// How long the listener waits for a request before it looks at the
/// cancellation flag and the deadline again, in milliseconds.
pub const POLL_INTERVAL_MS: u64 = 1000;

/// What the listener does before it waits for the next request.
#[derive(Debug, Clone)]
pub enum PollStep {
    /// Wait for a request, at most one poll interval.
    Listen,
    /// Release the port and end the flow with this failure.
    Stop { error: OAuthError },
}

/// Decides, at each turn of the accept loop, whether the flow goes on: a set
/// cancellation flag ends it as cancelled, and past the deadline it ends as
/// timed out.
pub fn poll_step(cancelled: bool, elapsed_ms: u64) -> (r: PollStep)
    ensures
        cancelled ==> r matches PollStep::Stop { error: OAuthError::Cancelled },
        !cancelled && elapsed_ms > LOGIN_TIMEOUT_MS ==> r matches PollStep::Stop {
            error: OAuthError::Timeout,
        },
        !cancelled && elapsed_ms <= LOGIN_TIMEOUT_MS ==> r matches PollStep::Listen,
{
    if cancelled {
        PollStep::Stop { error: OAuthError::Cancelled }
    } else if elapsed_ms > LOGIN_TIMEOUT_MS {
        PollStep::Stop { error: OAuthError::Timeout }
    } else {
        PollStep::Listen
    }
}

/// An account made from a token response whose identity token carries no
/// labelling claims (or cannot be read) has no email, plan type or provider
/// account id, and still holds the tokens.
pub proof fn lemma_unlabelled_account(
    a: StoredAccount,
    name: Seq<char>,
    id_token: Seq<char>,
    access_token: Seq<char>,
    refresh_token: Seq<char>,
)
    requires
        account_matches_tokens(a, name, id_token, access_token, refresh_token),
        id_token_payload(id_token) matches Some(p) ==> json_str_at(p, EMAIL_POINTER@) is None
            && json_str_at(p, PLAN_TYPE_POINTER@) is None && json_str_at(p, ACCOUNT_ID_POINTER@) is None,
    ensures
        a.email is None,
        a.plan_type is None,
        a.auth_data matches AuthData::ChatGPT { account_id, access_token: t, .. } && account_id is None
            && t@ == access_token,
{
}

} // verus!
