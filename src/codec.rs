//! Encodings and digests used by the login flow, and the outside calls that
//! produce them.
use vstd::prelude::*;
use base64::Engine;
use rand::RngCore;
use sha2::Digest;

verus! {

/// Bytes that a percent-encoder leaves as they are: ASCII letters and digits
/// and `-`, `.`, `_`, `~`.
pub open spec fn is_unreserved(b: u8) -> bool {
    (48 <= b && b <= 57) || (65 <= b && b <= 90) || (97 <= b && b <= 122) || b == 45 || b == 46
        || b == 95 || b == 126
}

/// The upper-case hexadecimal digit for a value below 16.
pub open spec fn hex_digit(d: u8) -> char {
    if d < 10 {
        ((48 + d) as u8) as char
    } else {
        ((55 + d) as u8) as char
    }
}

/// Percent-encoding of a byte string: unreserved bytes stand for themselves,
/// every other byte becomes `%` and two upper-case hex digits.
pub open spec fn percent_encoded(b: Seq<u8>) -> Seq<char>
    decreases b.len(),
{
    if b.len() == 0 {
        Seq::empty()
    } else {
        let x = b[0];
        let head = if is_unreserved(x) {
            seq![x as char]
        } else {
            seq!['%', hex_digit(x / 16), hex_digit(x % 16)]
        };
        head + percent_encoded(b.drop_first())
    }
}

/// Percent-encoding of the UTF-8 bytes of a text.
pub open spec fn url_encoded(s: Seq<char>) -> Seq<char> {
    percent_encoded(vstd::utf8::encode_utf8(s))
}

/// Characters of the URL-safe base64 alphabet.
pub open spec fn is_url_safe_char(c: char) -> bool {
    ('0' <= c && c <= '9') || ('A' <= c && c <= 'Z') || ('a' <= c && c <= 'z') || c == '-' || c
        == '_'
}

pub open spec fn all_url_safe(s: Seq<char>) -> bool {
    forall|i: int| 0 <= i < s.len() ==> is_url_safe_char(#[trigger] s[i])
}

/// URL-safe base64 without padding of a byte string.
pub uninterp spec fn base64url_of(b: Seq<u8>) -> Seq<char>;

/// What URL-safe, unpadded base64 decoding makes of a text; `None` where it
/// is not such an encoding.
pub uninterp spec fn base64url_decoded(s: Seq<char>) -> Option<Seq<u8>>;

/// SHA-256 digest of a byte string.
pub uninterp spec fn sha256_of(b: Seq<u8>) -> Seq<u8>;

/// The string found at a JSON pointer in a JSON document; `None` where the
/// document does not parse, the pointer leads nowhere, or leads to a value
/// that is not a string.
pub uninterp spec fn json_str_at(doc: Seq<u8>, pointer: Seq<char>) -> Option<Seq<char>>;

/// The path and the decoded query pairs of an HTTP request target, as it
/// reads when resolved against `http://localhost`; `None` where that is no URL.
pub uninterp spec fn target_parts(target: Seq<char>) -> Option<
    (Seq<char>, Seq<(Seq<char>, Seq<char>)>),
>;

/// A decoded query parameter of a request target.
pub struct QueryPair {
    pub name: String,
    pub value: String,
}

/// The parts of an HTTP request target that the callback handler reads.
pub struct RequestTarget {
    pub path: String,
    pub query: Vec<QueryPair>,
}

impl RequestTarget {
    pub open spec fn query_view(&self) -> Seq<(Seq<char>, Seq<char>)> {
        self.query@.map_values(|p: QueryPair| (p.name@, p.value@))
    }
}

/// Relies on `url::Url::parse` of `http://localhost` followed by the target,
/// then `Url::path` and `Url::query_pairs`.
#[verifier::external_body]
pub(crate) fn parse_target(target: &str) -> (r: Option<RequestTarget>)
    ensures
        r matches Some(t) ==> target_parts(target@) == Some((t.path@, t.query_view())),
        r is None ==> target_parts(target@) is None,
{
    let u = url::Url::parse(&format!("http://localhost{target}")).ok()?;
    let query = u.query_pairs().map(|(k, v)| QueryPair { name: k.into_owned(), value: v.into_owned() }).collect();
    Some(RequestTarget { path: u.path().to_string(), query })
}

/// Relies on `urlencoding::encode`, which percent-encodes every byte of the
/// UTF-8 text except ASCII letters, digits and `-`, `_`, `.`, `~`, with
/// upper-case hex digits.
#[verifier::external_body]
pub(crate) fn url_encode(s: &str) -> (r: String)
    ensures
        r@ == url_encoded(s@),
{
    urlencoding::encode(s).into_owned()
}

/// Relies on `base64::engine::general_purpose::URL_SAFE_NO_PAD.encode`: the
/// URL-safe alphabet, no `=` padding, and decoding gives the bytes back.
#[verifier::external_body]
pub(crate) fn base64url_encode(b: &[u8]) -> (r: String)
    ensures
        r@ == base64url_of(b@),
        all_url_safe(r@),
        base64url_decoded(r@) == Some(b@),
{
    base64::engine::general_purpose::URL_SAFE_NO_PAD.encode(b)
}

/// Relies on `base64::engine::general_purpose::URL_SAFE_NO_PAD.decode`.
#[verifier::external_body]
pub(crate) fn base64url_decode(s: &str) -> (r: Option<Vec<u8>>)
    ensures
        r matches Some(v) ==> base64url_decoded(s@) == Some(v@),
        r is None ==> base64url_decoded(s@) is None,
{
    base64::engine::general_purpose::URL_SAFE_NO_PAD.decode(s).ok()
}

/// Relies on `sha2::Sha256::digest`, whose output is 32 bytes.
#[verifier::external_body]
pub(crate) fn sha256(b: &[u8]) -> (r: Vec<u8>)
    ensures
        r@ == sha256_of(b@),
        r@.len() == 32,
{
    sha2::Sha256::digest(b).to_vec()
}

/// Relies on `rand::rng().fill_bytes`: `n` bytes from the thread-local
/// cryptographically secure generator.
#[verifier::external_body]
pub(crate) fn random_bytes(n: usize) -> (r: Vec<u8>)
    ensures
        r@.len() == n,
{
    let mut v = vec![0u8; n];
    rand::rng().fill_bytes(&mut v);
    v
}

/// Relies on `serde_json::from_slice` into a `serde_json::Value`, then
/// `Value::pointer` and `Value::as_str`.
#[verifier::external_body]
pub(crate) fn json_str_lookup(doc: &[u8], pointer: &str) -> (r: Option<String>)
    ensures
        r matches Some(s) ==> json_str_at(doc@, pointer@) == Some(s@),
        r is None ==> json_str_at(doc@, pointer@) is None,
{
    let v: serde_json::Value = serde_json::from_slice(doc).ok()?;
    v.pointer(pointer)?.as_str().map(String::from)
}

/// Relies on `uuid::Uuid::new_v4` and its hyphenated text form, which has
/// 36 characters.
#[verifier::external_body]
pub(crate) fn fresh_uuid() -> (r: String)
    ensures
        r@.len() == 36,
{
    uuid::Uuid::new_v4().to_string()
}

/// Relies on `chrono::Utc::now`: the current time in milliseconds since the
/// Unix epoch.
#[verifier::external_body]
pub(crate) fn now_millis() -> (r: i64) {
    chrono::Utc::now().timestamp_millis()
}

} // verus!
