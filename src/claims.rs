//! Reading the provider's token response and the claims of its identity
//! token.
//!
//! The identity token's signature is not checked: the token comes straight
//! from the provider's token endpoint over TLS, and its claims only label the
//! account. Claims that cannot be read are left out; they never fail a login.
use vstd::prelude::*;
use vstd::string::StrSliceExecFns;
use vstd::string::StringExecFns;
use crate::codec::{base64url_decode, base64url_decoded, json_str_at, json_str_lookup};
use crate::types::opt_view;

verus! {

/// JSON pointers to the claims that label an account.
pub const EMAIL_POINTER: &'static str = "/email";

pub const PLAN_TYPE_POINTER: &'static str = "/https:~1~1api.openai.com~1auth/chatgpt_plan_type";

pub const ACCOUNT_ID_POINTER: &'static str = "/https:~1~1api.openai.com~1auth/chatgpt_account_id";

/// The positions of the dots in a text, in order.
pub open spec fn dot_positions(s: Seq<char>) -> Seq<int>
    decreases s.len(),
{
    if s.len() == 0 {
        Seq::empty()
    } else if s.last() == '.' {
        dot_positions(s.drop_last()).push(s.len() - 1)
    } else {
        dot_positions(s.drop_last())
    }
}

/// The decoded middle segment of a three-segment token; `None` where the
/// token has another number of segments or the segment is not base64url.
pub open spec fn id_token_payload(t: Seq<char>) -> Option<Seq<u8>> {
    let d = dot_positions(t);
    if d.len() != 2 {
        None
    } else {
        base64url_decoded(t.subrange(d[0] + 1, d[1]))
    }
}

/// The email, plan type and provider account id that an identity token
/// carries, each absent where it cannot be read.
pub open spec fn claims_of(t: Seq<char>) -> (Option<Seq<char>>, Option<Seq<char>>, Option<Seq<char>>) {
    match id_token_payload(t) {
        None => (None, None, None),
        Some(p) => (
            json_str_at(p, EMAIL_POINTER@),
            json_str_at(p, PLAN_TYPE_POINTER@),
            json_str_at(p, ACCOUNT_ID_POINTER@),
        ),
    }
}

proof fn lemma_dot_positions_bounds(s: Seq<char>)
    ensures
        forall|k: int| 0 <= k < dot_positions(s).len() ==> 0 <= #[trigger] dot_positions(s)[k] < s.len(),
        forall|k: int, l: int| 0 <= k < l < dot_positions(s).len() ==> dot_positions(s)[k] < dot_positions(s)[l],
    decreases s.len(),
{
    if s.len() > 0 {
        let p = s.drop_last();
        lemma_dot_positions_bounds(p);
        let dp = dot_positions(p);
        if s.last() == '.' {
            let d = dp.push(s.len() - 1);
            assert forall|k: int| 0 <= k < d.len() implies 0 <= #[trigger] d[k] < s.len() by {
                if k < dp.len() {
                    assert(d[k] == dp[k]);
                }
            }
            assert forall|k: int, l: int| 0 <= k < l < d.len() implies d[k] < d[l] by {
                assert(d[k] == dp[k]);
                if l < dp.len() {
                    assert(d[l] == dp[l]);
                }
            }
        }
    }
}

/// Finds the positions of the dots in a token.
fn find_dots(t: &str) -> (r: Vec<usize>)
    ensures
        r@.len() == dot_positions(t@).len(),
        t@.len() <= usize::MAX,
        forall|k: int| 0 <= k < r@.len() ==> r@[k] as int == dot_positions(t@)[k],
{
    let n = t.unicode_len();
    let mut dots: Vec<usize> = Vec::new();
    let mut i: usize = 0;
    while i < n
        invariant
            n == t@.len(),
            i <= n,
            dots@.len() == dot_positions(t@.take(i as int)).len(),
            forall|k: int| 0 <= k < dots@.len() ==> dots@[k] as int == dot_positions(t@.take(i as int))[k],
        decreases n - i,
    {
        let c = t.get_char(i);
        assert(t@.take(i + 1).drop_last() =~= t@.take(i as int));
        if c == '.' {
            dots.push(i);
        }
        i = i + 1;
    }
    assert(t@.take(n as int) =~= t@);
    dots
}

/// Reads the labelling claims of an identity token, without checking its
/// signature. Anything that cannot be read comes back as `None`.
pub fn parse_id_token_claims(id_token: &str) -> (r: (Option<String>, Option<String>, Option<String>))
    ensures
        (opt_view(r.0), opt_view(r.1), opt_view(r.2)) == claims_of(id_token@),
{
    let dots = find_dots(id_token);
    if dots.len() != 2 {
        return (None, None, None);
    }
    proof {
        lemma_dot_positions_bounds(id_token@);
    }
    let segment = id_token.substring_char(dots[0] + 1, dots[1]);
    let payload = match base64url_decode(segment) {
        Some(bytes) => bytes,
        None => return (None, None, None),
    };
    let email = json_str_lookup(payload.as_slice(), EMAIL_POINTER);
    let plan_type = json_str_lookup(payload.as_slice(), PLAN_TYPE_POINTER);
    let account_id = json_str_lookup(payload.as_slice(), ACCOUNT_ID_POINTER);
    (email, plan_type, account_id)
}

/// The tokens the provider returns for an authorization code.
#[derive(Debug, Clone)]
pub struct TokenResponse {
    pub id_token: String,
    pub access_token: String,
    pub refresh_token: String,
}

/// Why a token exchange failed.
#[derive(Debug, Clone)]
pub enum ExchangeError {
    /// The request could not be sent or its answer not read.
    Transport { message: String },
    /// The provider answered with a status outside 200..=299.
    Status { status: u16, body: String },
    /// The answer is not a JSON object with the three tokens as strings.
    Malformed,
}

/// A token response body read as JSON: the three tokens where each is a
/// string member of the document.
pub open spec fn token_fields_of(body: Seq<u8>) -> Option<(Seq<char>, Seq<char>, Seq<char>)> {
    match (
        json_str_at(body, "/id_token"@),
        json_str_at(body, "/access_token"@),
        json_str_at(body, "/refresh_token"@),
    ) {
        (Some(i), Some(a), Some(f)) => Some((i, a, f)),
        _ => None,
    }
}

pub open spec fn is_success_status(status: u16) -> bool {
    200 <= status && status <= 299
}

/// Reads the provider's answer to a token request: a status outside the 2xx
/// range fails with that status and body, a body without the three tokens
/// fails as malformed.
pub fn read_token_response(status: u16, body: &str) -> (r: Result<TokenResponse, ExchangeError>)
    ensures
        !is_success_status(status) ==> (r matches Err(ExchangeError::Status { status: s, body: b })
            && s == status && b@ == body@),
        is_success_status(status) ==> match token_fields_of(vstd::utf8::encode_utf8(body@)) {
            None => r matches Err(ExchangeError::Malformed),
            Some((i, a, f)) => (r matches Ok(t) && t.id_token@ == i && t.access_token@ == a
                && t.refresh_token@ == f),
        },
{
    if status < 200 || status > 299 {
        return Err(ExchangeError::Status { status, body: String::from_str(body) });
    }
    let bytes = body.as_bytes();
    let id_token = json_str_lookup(bytes, "/id_token");
    let access_token = json_str_lookup(bytes, "/access_token");
    let refresh_token = json_str_lookup(bytes, "/refresh_token");
    match (id_token, access_token, refresh_token) {
        (Some(id_token), Some(access_token), Some(refresh_token)) => Ok(
            TokenResponse { id_token, access_token, refresh_token },
        ),
        _ => Err(ExchangeError::Malformed),
    }
}

} // verus!
