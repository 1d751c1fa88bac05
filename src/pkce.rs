//! PKCE codes, the anti-forgery state, and the texts the flow sends to the
//! provider.
use vstd::prelude::*;
use vstd::string::StringExecFns;
use crate::codec::{
    all_url_safe, hex_digit, is_unreserved, is_url_safe_char, percent_encoded, base64url_decoded, base64url_encode, base64url_of, random_bytes, sha256,
    sha256_of, url_encode, url_encoded,
};

verus! {

/// The identity provider's base URL.
pub const DEFAULT_ISSUER: &'static str = "https://auth.openai.com";

/// The client identifier registered with the provider.
pub const CLIENT_ID: &'static str = "app_EMoamEEZ73f0CkXaXp7hrann";

/// The callback port that the provider has on record.
pub const DEFAULT_PORT: u16 = 1455;

/// The random bytes behind a verifier and behind a state token.
pub const VERIFIER_BYTES: usize = 64;

pub const STATE_BYTES: usize = 32;

/// A PKCE verifier and the challenge derived from it.
#[derive(Debug, Clone)]
pub struct PkceCodes {
    pub code_verifier: String,
    pub code_challenge: String,
}

/// The challenge that belongs to a verifier: the base64url of the SHA-256 of
/// its bytes.
pub open spec fn challenge_of(verifier: Seq<char>) -> Seq<char> {
    base64url_of(sha256_of(vstd::utf8::encode_utf8(verifier)))
}

impl PkceCodes {
    /// A well-formed pair: both texts are unpadded URL-safe base64, and the
    /// challenge decodes to the SHA-256 of the verifier's bytes.
    pub open spec fn wf(&self) -> bool {
        &&& all_url_safe(self.code_verifier@)
        &&& all_url_safe(self.code_challenge@)
        &&& self.code_challenge@ == challenge_of(self.code_verifier@)
        &&& base64url_decoded(self.code_challenge@) == Some(
            sha256_of(vstd::utf8::encode_utf8(self.code_verifier@)),
        )
    }
}

/// Draws a fresh verifier from 64 random bytes and derives its challenge.
pub fn generate_pkce() -> (r: PkceCodes)
    ensures
        r.wf(),
        exists|b: Seq<u8>| b.len() == VERIFIER_BYTES && r.code_verifier@ == base64url_of(b),
{
    let bytes = random_bytes(VERIFIER_BYTES);
    let code_verifier = base64url_encode(bytes.as_slice());
    let digest = sha256(code_verifier.as_str().as_bytes());
    let code_challenge = base64url_encode(digest.as_slice());
    PkceCodes { code_verifier, code_challenge }
}

/// Draws a fresh state token from 32 random bytes.
pub fn generate_state() -> (r: String)
    ensures
        all_url_safe(r@),
        exists|b: Seq<u8>| b.len() == STATE_BYTES && r@ == base64url_of(b),
{
    let bytes = random_bytes(STATE_BYTES);
    base64url_encode(bytes.as_slice())
}

/// The decimal digits of a number.
pub open spec fn decimal_of(n: nat) -> Seq<char>
    decreases n,
{
    if n < 10 {
        seq![((48 + n) as u8) as char]
    } else {
        decimal_of(n / 10) + seq![((48 + n % 10) as u8) as char]
    }
}

/// The text of one decimal digit.
fn digit_text(d: u16) -> (r: &'static str)
    requires
        d < 10,
    ensures
        r@ == seq![((48 + d) as u8) as char],
{
    if d == 0 {
        proof {
            reveal_strlit("0");
        }
        "0"
    } else if d == 1 {
        proof {
            reveal_strlit("1");
        }
        "1"
    } else if d == 2 {
        proof {
            reveal_strlit("2");
        }
        "2"
    } else if d == 3 {
        proof {
            reveal_strlit("3");
        }
        "3"
    } else if d == 4 {
        proof {
            reveal_strlit("4");
        }
        "4"
    } else if d == 5 {
        proof {
            reveal_strlit("5");
        }
        "5"
    } else if d == 6 {
        proof {
            reveal_strlit("6");
        }
        "6"
    } else if d == 7 {
        proof {
            reveal_strlit("7");
        }
        "7"
    } else if d == 8 {
        proof {
            reveal_strlit("8");
        }
        "8"
    } else {
        proof {
            reveal_strlit("9");
        }
        "9"
    }
}

/// Writes a number in decimal.
pub fn decimal(n: u16) -> (r: String)
    ensures
        r@ == decimal_of(n as nat),
    decreases n,
{
    if n < 10 {
        String::from_str(digit_text(n))
    } else {
        let mut s = decimal(n / 10);
        s.append(digit_text(n % 10));
        s
    }
}

/// The scopes the login asks for.
pub const SCOPE: &'static str = "openid profile email offline_access";

/// The tag by which the provider knows this kind of client.
pub const ORIGINATOR: &'static str = "codex_cli_rs";

/// The authorization URL: the issuer's authorize endpoint with a fixed list
/// of query parameters in a fixed order, every value percent-encoded.
pub open spec fn authorize_url(
    issuer: Seq<char>,
    client_id: Seq<char>,
    redirect_uri: Seq<char>,
    challenge: Seq<char>,
    state: Seq<char>,
) -> Seq<char> {
    issuer + "/oauth/authorize?response_type="@ + url_encoded("code"@) + "&client_id="@
        + url_encoded(client_id) + "&redirect_uri="@ + url_encoded(redirect_uri) + "&scope="@
        + url_encoded(SCOPE@) + "&code_challenge="@ + url_encoded(challenge)
        + "&code_challenge_method="@ + url_encoded("S256"@) + "&id_token_add_organizations="@
        + url_encoded("true"@) + "&codex_cli_simplified_flow="@ + url_encoded("true"@)
        + "&state="@ + url_encoded(state) + "&originator="@ + url_encoded(ORIGINATOR@)
}

/// Appends a separator and key, then a percent-encoded value.
fn push_param(text: &mut String, key: &str, value: &str)
    ensures
        final(text)@ == old(text)@ + key@ + url_encoded(value@),
{
    text.append(key);
    let encoded = url_encode(value);
    text.append(encoded.as_str());
}

/// Builds the provider's authorization URL for one flow.
pub fn build_authorize_url(
    issuer: &str,
    client_id: &str,
    redirect_uri: &str,
    pkce: &PkceCodes,
    state: &str,
) -> (r: String)
    ensures
        r@ == authorize_url(issuer@, client_id@, redirect_uri@, pkce.code_challenge@, state@),
{
    let mut url = String::from_str(issuer);
    push_param(&mut url, "/oauth/authorize?response_type=", "code");
    push_param(&mut url, "&client_id=", client_id);
    push_param(&mut url, "&redirect_uri=", redirect_uri);
    push_param(&mut url, "&scope=", SCOPE);
    push_param(&mut url, "&code_challenge=", pkce.code_challenge.as_str());
    push_param(&mut url, "&code_challenge_method=", "S256");
    push_param(&mut url, "&id_token_add_organizations=", "true");
    push_param(&mut url, "&codex_cli_simplified_flow=", "true");
    push_param(&mut url, "&state=", state);
    push_param(&mut url, "&originator=", ORIGINATOR);
    url
}

/// The redirect URI for a callback port.
pub open spec fn redirect_uri_of(port: u16) -> Seq<char> {
    "http://localhost:"@ + decimal_of(port as nat) + "/auth/callback"@
}

/// The redirect URI that the listener on a port answers.
pub fn redirect_uri_for(port: u16) -> (r: String)
    ensures
        r@ == redirect_uri_of(port),
{
    let mut uri = String::from_str("http://localhost:");
    let digits = decimal(port);
    uri.append(digits.as_str());
    uri.append("/auth/callback");
    uri
}

/// The form body that redeems an authorization code.
pub open spec fn token_request_body_of(
    client_id: Seq<char>,
    redirect_uri: Seq<char>,
    verifier: Seq<char>,
    code: Seq<char>,
) -> Seq<char> {
    "grant_type=authorization_code"@ + "&code="@ + url_encoded(code) + "&redirect_uri="@
        + url_encoded(redirect_uri) + "&client_id="@ + url_encoded(client_id) + "&code_verifier="@
        + url_encoded(verifier)
}

/// The token endpoint of an issuer.
pub open spec fn token_endpoint_of(issuer: Seq<char>) -> Seq<char> {
    issuer + "/oauth/token"@
}

/// The POST that redeems an authorization code: where it goes, its content
/// type and its form-encoded body.
#[derive(Debug, Clone)]
pub struct TokenRequest {
    pub url: String,
    pub content_type: String,
    pub body: String,
}

/// Builds the token request for a code, bound to the flow's verifier, client
/// and redirect URI.
pub fn token_request(
    issuer: &str,
    client_id: &str,
    redirect_uri: &str,
    pkce: &PkceCodes,
    code: &str,
) -> (r: TokenRequest)
    ensures
        r.url@ == token_endpoint_of(issuer@),
        r.content_type@ == "application/x-www-form-urlencoded"@,
        r.body@ == token_request_body_of(client_id@, redirect_uri@, pkce.code_verifier@, code@),
{
    let mut url = String::from_str(issuer);
    url.append("/oauth/token");
    let mut body = String::from_str("grant_type=authorization_code");
    push_param(&mut body, "&code=", code);
    push_param(&mut body, "&redirect_uri=", redirect_uri);
    push_param(&mut body, "&client_id=", client_id);
    push_param(&mut body, "&code_verifier=", pkce.code_verifier.as_str());
    TokenRequest {
        url,
        content_type: String::from_str("application/x-www-form-urlencoded"),
        body,
    }
}

/// A generated pair binds the challenge to the verifier: the challenge
/// decodes to the SHA-256 of the verifier's bytes, and neither text holds a
/// padding `=` or any character outside the URL-safe alphabet.
pub proof fn lemma_pkce_binding(p: PkceCodes)
    requires
        p.wf(),
    ensures
        base64url_decoded(p.code_challenge@) == Some(
            sha256_of(vstd::utf8::encode_utf8(p.code_verifier@)),
        ),
        !p.code_verifier@.contains('='),
        !p.code_challenge@.contains('='),
        all_url_safe(p.code_verifier@),
        all_url_safe(p.code_challenge@),
{
    assert(!p.code_verifier@.contains('=')) by {
        if p.code_verifier@.contains('=') {
            let i = choose|i: int| 0 <= i < p.code_verifier@.len() && p.code_verifier@[i] == '=';
            assert(is_url_safe_char(p.code_verifier@[i]));
        }
    }
    assert(!p.code_challenge@.contains('=')) by {
        if p.code_challenge@.contains('=') {
            let i = choose|i: int| 0 <= i < p.code_challenge@.len() && p.code_challenge@[i] == '=';
            assert(is_url_safe_char(p.code_challenge@[i]));
        }
    }
}

/// A character that may stand in a percent-encoded value.
pub open spec fn is_encoded_char(c: char) -> bool {
    is_url_safe_char(c) || c == '.' || c == '~' || c == '%'
}

/// A percent-encoded value holds only unreserved characters and `%`, so no
/// value can add a parameter to a query or end it (`&`, `=`, `#`).
pub proof fn lemma_encoded_value_is_inert(b: Seq<u8>)
    ensures
        forall|i: int| 0 <= i < percent_encoded(b).len() ==> is_encoded_char(
            #[trigger] percent_encoded(b)[i],
        ),
    decreases b.len(),
{
    if b.len() > 0 {
        lemma_encoded_value_is_inert(b.drop_first());
        let x = b[0];
        let head = if is_unreserved(x) {
            seq![x as char]
        } else {
            seq!['%', hex_digit(x / 16), hex_digit(x % 16)]
        };
        let tail = percent_encoded(b.drop_first());
        assert(percent_encoded(b) == head + tail);
        assert forall|i: int| 0 <= i < head.len() implies is_encoded_char(#[trigger] head[i]) by {
            if is_unreserved(x) {
                assert(head[i] == x as char);
            } else if i > 0 {
                let d = if i == 1 { x / 16 } else { x % 16 };
                assert(d < 16);
            }
        }
        assert forall|i: int| 0 <= i < percent_encoded(b).len() implies is_encoded_char(
            #[trigger] percent_encoded(b)[i],
        ) by {
            if i < head.len() {
                assert(percent_encoded(b)[i] == head[i]);
            } else {
                assert(percent_encoded(b)[i] == tail[i - head.len()]);
            }
        }
    }
}

/// The authorization URL depends on its inputs alone: two builds from the
/// same inputs are the same text.
pub proof fn lemma_authorize_url_deterministic(
    issuer: Seq<char>,
    client_id: Seq<char>,
    redirect_uri: Seq<char>,
    challenge: Seq<char>,
    state: Seq<char>,
    first: Seq<char>,
    second: Seq<char>,
)
    requires
        first == authorize_url(issuer, client_id, redirect_uri, challenge, state),
        second == authorize_url(issuer, client_id, redirect_uri, challenge, state),
    ensures
        first == second,
{
}

} // verus!
