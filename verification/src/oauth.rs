//! Sign-in with the authorization-code flow and PKCE: the verifier and challenge,
//! the authorization URL, and the checks on the token that comes back.

use vstd::prelude::*;

use base64::Engine;
use rand::RngCore;
use sha2::Digest;

use crate::form::query_text;
use crate::error::ApiError;
use crate::strs::{push_str, str_eq, trim, trim_spec};

verus! {

pub const AUTH_URL: &'static str = "https://accounts.spotify.com/authorize";

pub const TOKEN_URL: &'static str = "https://accounts.spotify.com/api/token";

pub const REDIRECT_URI: &'static str = "http://127.0.0.1:8888/callback";

pub const SCOPES: &'static str = "user-read-playback-state user-modify-playback-state user-read-currently-playing playlist-read-private user-library-read";

/// Seconds before its expiry at which a token no longer counts as valid.
pub const EXPIRY_MARGIN_SECS: u64 = 10;

/// An access token and what the token endpoint said about it.
#[derive(Debug, Default)]
pub struct Token {
    pub access_token: String,
    pub token_type: String,
    pub expires_in: u64,
    pub refresh_token: String,
    pub scope: String,
    pub expires_at: u64,
}

/// The abstract form of a token, with texts as characters.
pub struct TokenView {
    pub access_token: Seq<char>,
    pub token_type: Seq<char>,
    pub expires_in: u64,
    pub refresh_token: Seq<char>,
    pub scope: Seq<char>,
    pub expires_at: u64,
}

impl View for Token {
    type V = TokenView;

    open spec fn view(&self) -> TokenView {
        TokenView {
            access_token: self.access_token@,
            token_type: self.token_type@,
            expires_in: self.expires_in,
            refresh_token: self.refresh_token@,
            scope: self.scope@,
            expires_at: self.expires_at,
        }
    }
}

/// The clock: seconds since the Unix epoch, or zero when the clock is set before it.
#[verifier::external_body]
pub(crate) fn now_ts() -> u64 {
    std::time::SystemTime::now().duration_since(std::time::UNIX_EPOCH).unwrap_or_default().as_secs()
}

/// The expiry time of a token that lives `expires_in` seconds from `now`, saturating at the
/// largest `u64`.
pub open spec fn expiry_at_spec(now: u64, expires_in: u64) -> u64 {
    if now + expires_in <= u64::MAX {
        (now + expires_in) as u64
    } else {
        u64::MAX
    }
}

/// The expiry time of a token that lives `expires_in` seconds from `now`.
pub fn expiry_at(now: u64, expires_in: u64) -> (r: u64)
    ensures
        r == expiry_at_spec(now, expires_in),
        r >= now,
        r >= expires_in,
{
    now.saturating_add(expires_in)
}

impl Token {
    /// The expiry time of a token that lives `expires_in` seconds from now: the clock's
    /// reading plus `expires_in`, saturating. The reading itself is not stated, so the
    /// contract holds of every reading; `expiry_at` gives the exact value for a given time.
    pub fn calc_expiry(expires_in: u64) -> (r: u64)
        ensures
            r >= expires_in,
    {
        expiry_at(now_ts(), expires_in)
    }
}

/// Whether a token that expires at `expires_at` is still valid at `now`, keeping a margin.
pub open spec fn token_valid_at(expires_at: u64, now: u64) -> bool {
    now < (if expires_at >= EXPIRY_MARGIN_SECS { expires_at - EXPIRY_MARGIN_SECS } else { 0int })
}

/// The Web API client: the application's client id and the user's token.
#[derive(Debug, Default)]
pub struct APIClient {
    pub client_id: String,
    pub token: Option<Token>,
}

impl APIClient {
    /// A client for the application `client_id`, not signed in.
    pub fn new(client_id: String) -> (r: Self)
        ensures
            r.client_id == client_id,
            r.token is None,
    {
        APIClient { client_id, token: None }
    }

    /// Whether the client holds a token that is valid at `now`.
    pub fn is_authenticated_at(&self, now: u64) -> (r: bool)
        ensures
            r == (self.token matches Some(t) && token_valid_at(t.expires_at, now)),
    {
        match &self.token {
            Some(t) => now < t.expires_at.saturating_sub(EXPIRY_MARGIN_SECS),
            None => false,
        }
    }

    /// Whether the client holds a token that is valid now. The clock's reading is not stated,
    /// so the contract holds of every reading; `is_authenticated_at` gives the exact answer
    /// for a given time.
    pub fn is_authenticated(&self) -> (r: bool)
        ensures
            r ==> self.token is Some,
            r ==> self.token->0.expires_at > EXPIRY_MARGIN_SECS,
    {
        self.is_authenticated_at(now_ts())
    }

    /// Keeps `token` as the user's token.
    pub fn set_token(&mut self, token: Token)
        ensures
            final(self).client_id == old(self).client_id,
            final(self).token == Some(token),
    {
        self.token = Some(token);
    }

    /// The `Authorization` header value for a request, or an error when there is no token.
    pub fn bearer(&self) -> (r: Result<String, ApiError>)
        ensures
            match self.token {
                Some(t) => r matches Ok(h) && h@ == "Bearer "@ + t.access_token@,
                None => r matches Err(e) && e matches ApiError::NotAuthenticated(m) && m@
                    == "missing token"@,
            },
    {
        match &self.token {
            Some(t) => {
                let mut out = String::new();
                push_str(&mut out, "Bearer ");
                push_str(&mut out, t.access_token.as_str());
                Ok(out)
            },
            None => Err(ApiError::NotAuthenticated(String::from_str("missing token"))),
        }
    }
}

// ---------------------------------------------------------------------------------------------
// Base64 without padding, over the URL-safe alphabet (RFC 4648, section 5).
/// The character of a six-bit value in the URL-safe Base64 alphabet.
pub open spec fn b64_char(v: int) -> char {
    if v < 26 {
        (65 + v) as char
    } else if v < 52 {
        (97 + v - 26) as char
    } else if v < 62 {
        (48 + v - 52) as char
    } else if v == 62 {
        '-'
    } else {
        '_'
    }
}

/// The URL-safe Base64 encoding of `b`, without padding.
pub open spec fn base64_url_nopad(b: Seq<u8>) -> Seq<char>
    decreases b.len(),
{
    if b.len() == 0 {
        Seq::empty()
    } else if b.len() == 1 {
        seq![b64_char((b[0] as int) / 4), b64_char(((b[0] as int) % 4) * 16)]
    } else if b.len() == 2 {
        seq![b64_char((b[0] as int) / 4), b64_char(((b[0] as int) % 4) * 16 + (b[1] as int) / 16), b64_char(((b[1] as int) % 16) * 4)]
    } else {
        seq![
            b64_char((b[0] as int) / 4),
            b64_char(((b[0] as int) % 4) * 16 + (b[1] as int) / 16),
            b64_char(((b[1] as int) % 16) * 4 + (b[2] as int) / 64),
            b64_char((b[2] as int) % 64),
        ] + base64_url_nopad(b.skip(3))
    }
}

/// Whether `c` may stand in a URL without escaping: a letter, a digit, `-` or `_`.
pub open spec fn url_safe_char(c: char) -> bool {
    ('A' <= c <= 'Z') || ('a' <= c <= 'z') || ('0' <= c <= '9') || c == '-' || c == '_'
}

/// Whether every character of `s` is URL-safe.
pub open spec fn url_safe(s: Seq<char>) -> bool {
    forall|i: int| 0 <= i < s.len() ==> url_safe_char(#[trigger] s[i])
}

proof fn lemma_b64_char_safe(v: int)
    requires
        0 <= v < 64,
    ensures
        url_safe_char(b64_char(v)),
{
}

/// Every character of a URL-safe Base64 encoding is URL-safe (so there is no `=`), and the
/// encoding of `n` bytes has `(4n + 2) / 3` characters.
pub proof fn lemma_base64_url_safe(b: Seq<u8>)
    ensures
        url_safe(base64_url_nopad(b)),
        base64_url_nopad(b).len() == (4 * b.len() + 2) / 3,
    decreases b.len(),
{
    if b.len() == 0 {
    } else if b.len() == 1 {
        lemma_b64_char_safe((b[0] as int) / 4);
        lemma_b64_char_safe(((b[0] as int) % 4) * 16);
    } else if b.len() == 2 {
        lemma_b64_char_safe((b[0] as int) / 4);
        lemma_b64_char_safe(((b[0] as int) % 4) * 16 + (b[1] as int) / 16);
        lemma_b64_char_safe(((b[1] as int) % 16) * 4);
    } else {
        lemma_b64_char_safe((b[0] as int) / 4);
        lemma_b64_char_safe(((b[0] as int) % 4) * 16 + (b[1] as int) / 16);
        lemma_b64_char_safe(((b[1] as int) % 16) * 4 + (b[2] as int) / 64);
        lemma_b64_char_safe((b[2] as int) % 64);
        lemma_base64_url_safe(b.skip(3));
        let head = seq![
            b64_char((b[0] as int) / 4),
            b64_char(((b[0] as int) % 4) * 16 + (b[1] as int) / 16),
            b64_char(((b[1] as int) % 16) * 4 + (b[2] as int) / 64),
            b64_char((b[2] as int) % 64),
        ];
        let rest = base64_url_nopad(b.skip(3));
        assert(base64_url_nopad(b) == head + rest);
        assert forall|i: int| 0 <= i < (head + rest).len() implies url_safe_char(
            #[trigger] (head + rest)[i],
        ) by {
            if i >= 4 {
                assert((head + rest)[i] == rest[i - 4]);
            }
        }
    }
}

/// The SHA-256 digest of `data`.
pub uninterp spec fn sha256_digest(data: Seq<u8>) -> Seq<u8>;

/// `sha2::Sha256::digest`: the SHA-256 digest of `data`, which is 32 bytes long. The digest
/// itself is named, not stated.
#[verifier::external_body]
fn sha256(data: &[u8]) -> (r: Vec<u8>)
    ensures
        r@ == sha256_digest(data@),
        r@.len() == 32,
{
    sha2::Sha256::digest(data).to_vec()
}

/// `base64::engine::general_purpose::URL_SAFE_NO_PAD.encode`: the URL-safe Base64 encoding of
/// `data` without padding, as RFC 4648 defines it.
#[verifier::external_body]
fn base64_url_encode(data: &[u8]) -> (r: String)
    ensures
        r@ == base64_url_nopad(data@),
{
    base64::engine::general_purpose::URL_SAFE_NO_PAD.encode(data)
}

/// `rand::RngCore::fill_bytes` on the thread-local generator: `n` random bytes. Which bytes
/// come back is chance, and nothing is said of them but their number.
#[verifier::external_body]
fn random_bytes(n: usize) -> (r: Vec<u8>)
    ensures
        r@.len() == n,
{
    let mut buf = vec![0u8; n];
    rand::thread_rng().fill_bytes(&mut buf);
    buf
}

/// The PKCE challenge of a verifier: the URL-safe Base64 encoding of the SHA-256 digest of its
/// UTF-8 bytes.
pub open spec fn pkce_challenge(verifier: Seq<char>) -> Seq<char> {
    base64_url_nopad(sha256_digest(vstd::utf8::encode_utf8(verifier)))
}

/// The PKCE verifier and challenge made from the random `bytes`.
pub fn pkce_from_bytes(bytes: &[u8]) -> (r: (String, String))
    ensures
        r.0@ == base64_url_nopad(bytes@),
        r.1@ == pkce_challenge(r.0@),
        r.1@.len() == 43,
        url_safe(r.1@),
{
    let verifier = base64_url_encode(bytes);
    let hash = sha256(verifier.as_str().as_bytes());
    let challenge = base64_url_encode(hash.as_slice());
    proof {
        lemma_base64_url_safe(hash@);
    }
    (verifier, challenge)
}

/// A fresh PKCE verifier (32 random bytes, encoded) and its challenge. Both are URL-safe.
pub fn generate_pkce() -> (r: (String, String))
    ensures
        exists|b: Seq<u8>| b.len() == 32 && r.0@ == base64_url_nopad(b),
        r.0@.len() == 43,
        url_safe(r.0@),
        r.1@.len() == 43,
        url_safe(r.1@),
        r.1@ == pkce_challenge(r.0@),
{
    let bytes = random_bytes(32);
    let r = pkce_from_bytes(bytes.as_slice());
    proof {
        lemma_base64_url_safe(bytes@);
    }
    r
}

/// A fresh `state` value for the authorization request: 16 random bytes, encoded.
pub fn random_state() -> (r: String)
    ensures
        exists|b: Seq<u8>| b.len() == 16 && r@ == base64_url_nopad(b),
        r@.len() == 22,
        url_safe(r@),
{
    let bytes = random_bytes(16);
    proof {
        lemma_base64_url_safe(bytes@);
    }
    base64_url_encode(bytes.as_slice())
}

// ---------------------------------------------------------------------------------------------
// The authorization URL.
/// The text of the URL `base` with the query `pairs` appended in order, each name and value
/// form-encoded; `None` when `base` is no absolute URL.
pub uninterp spec fn url_with_query(base: Seq<char>, pairs: Seq<(Seq<char>, Seq<char>)>) -> Option<
    Seq<char>,
>;

/// The characters of each name and value of `pairs`.
pub open spec fn pair_views(pairs: Seq<(String, String)>) -> Seq<(Seq<char>, Seq<char>)> {
    pairs.map_values(|p: (String, String)| (p.0@, p.1@))
}

/// `url::Url::parse`, then `query_pairs_mut().extend_pairs` with the pairs in order, then
/// `to_string`: the URL text, or `None` when `base` does not parse. In general the text is
/// named, not stated. For the authorization endpoint, whose text parses to itself with no
/// query and no fragment, `query_pairs_mut` appends `?` and the serializer appends each pair
/// as `query_pair_text` says, `&` between two pairs; that text is stated.
#[verifier::external_body]
fn serialize_url(base: &str, pairs: &Vec<(String, String)>) -> (r: Option<String>)
    ensures
        match r {
            Some(s) => url_with_query(base@, pair_views(pairs@)) == Some(s@),
            None => url_with_query(base@, pair_views(pairs@)) is None,
        },
        base@ == AUTH_URL@ ==> r is Some && r->0@ == AUTH_URL@ + "?"@ + query_text(
            pair_views(pairs@),
        ),
{
    let mut url = url::Url::parse(base).ok()?;
    url.query_pairs_mut().extend_pairs(pairs.iter());
    Some(url.to_string())
}

/// The query of the authorization request, in order.
pub open spec fn auth_query(client_id: Seq<char>, state: Seq<char>, challenge: Seq<char>) -> Seq<
    (Seq<char>, Seq<char>),
> {
    seq![
        ("client_id"@, client_id),
        ("response_type"@, "code"@),
        ("redirect_uri"@, REDIRECT_URI@),
        ("scope"@, SCOPES@),
        ("state"@, state),
        ("code_challenge_method"@, "S256"@),
        ("code_challenge"@, challenge),
    ]
}

/// The text of the authorization URL: the endpoint, `?`, and the form-encoded query.
#[verifier::opaque]
pub open spec fn auth_url_text(client_id: Seq<char>, state: Seq<char>, challenge: Seq<char>) -> Seq<
    char,
> {
    AUTH_URL@ + "?"@ + query_text(auth_query(client_id, state, challenge))
}

/// Why signing in failed.
#[derive(Debug)]
pub enum AuthError {
    /// The authorization URL could not be built.
    InvalidUrl,
    /// The token endpoint refused the code, or answered with no usable token.
    Exchange(String),
}

fn pair(name: &str, value: &str) -> (r: (String, String))
    ensures
        r.0@ == name@,
        r.1@ == value@,
{
    (String::from_str(name), String::from_str(value))
}

impl APIClient {
    /// The URL that asks the user to let this application in.
    pub fn get_auth_url(&self, state: &str, challenge: &str) -> (r: Result<String, AuthError>)
        ensures
            r matches Ok(s) && s@ == auth_url_text(self.client_id@, state@, challenge@),
    {
        let mut pairs: Vec<(String, String)> = Vec::new();
        pairs.push(pair("client_id", self.client_id.as_str()));
        pairs.push(pair("response_type", "code"));
        pairs.push(pair("redirect_uri", REDIRECT_URI));
        pairs.push(pair("scope", SCOPES));
        pairs.push(pair("state", state));
        pairs.push(pair("code_challenge_method", "S256"));
        pairs.push(pair("code_challenge", challenge));
        assert(pair_views(pairs@) =~= auth_query(self.client_id@, state@, challenge@));
        proof {
            reveal(auth_url_text);
        }
        match serialize_url(AUTH_URL, &pairs) {
            Some(s) => Ok(s),
            None => Err(AuthError::InvalidUrl),
        }
    }
}

// ---------------------------------------------------------------------------------------------
// The token exchange.
/// What the sign-in shows when the token endpoint's answer is refused.
pub open spec fn exchange_failure(
    success: bool,
    status: Seq<char>,
    body: Seq<char>,
    parsed: Option<Token>,
) -> Option<Seq<char>> {
    let b = trim_spec(body);
    if !success {
        Some("token exchange failed ("@ + status + "): "@ + b)
    } else if parsed is None {
        Some("invalid token response: "@ + b)
    } else if parsed->0.access_token@.len() == 0 {
        Some("token exchange returned empty access token: "@ + b)
    } else {
        None
    }
}

/// Checks the token endpoint's answer (`success` of the status, its text `status`, the body and
/// the body read as a token, if it reads as one) and gives the token, its expiry set from `now`.
pub fn token_from_response(
    success: bool,
    status: &str,
    body: &str,
    parsed: Option<Token>,
    now: u64,
) -> (r: Result<Token, AuthError>)
    ensures
        match exchange_failure(success, status@, body@, parsed) {
            Some(m) => r matches Err(AuthError::Exchange(e)) && e@ == m,
            None => r matches Ok(t) && t.access_token == parsed->0.access_token && t.token_type
                == parsed->0.token_type && t.expires_in == parsed->0.expires_in && t.refresh_token
                == parsed->0.refresh_token && t.scope == parsed->0.scope && t.expires_at
                == expiry_at_spec(now, parsed->0.expires_in),
        },
{
    let trimmed = trim(body);
    if !success {
        let mut m = String::new();
        push_str(&mut m, "token exchange failed (");
        push_str(&mut m, status);
        push_str(&mut m, "): ");
        push_str(&mut m, trimmed.as_str());
        return Err(AuthError::Exchange(m));
    }
    match parsed {
        None => {
            let mut m = String::new();
            push_str(&mut m, "invalid token response: ");
            push_str(&mut m, trimmed.as_str());
            Err(AuthError::Exchange(m))
        },
        Some(mut token) => {
            if token.access_token.as_str().unicode_len() == 0 {
                let mut m = String::new();
                push_str(&mut m, "token exchange returned empty access token: ");
                push_str(&mut m, trimmed.as_str());
                return Err(AuthError::Exchange(m));
            }
            token.expires_at = expiry_at(now, token.expires_in);
            Ok(token)
        },
    }
}

// ---------------------------------------------------------------------------------------------
// The sign-in callback.
/// The query of the URL `url`, as decoded name and value pairs in order, or the text of the
/// reason why `url` does not parse.
pub uninterp spec fn url_query(url: Seq<char>) -> Result<Seq<(Seq<char>, Seq<char>)>, Seq<char>>;

/// `url::Url::parse`, then `query_pairs`, each pair collected as owned strings; on a parse
/// error, its text (`to_string`). The pairs and the text are named, not stated.
#[verifier::external_body]
fn parse_url_query(url: &str) -> (r: Result<Vec<(String, String)>, String>)
    ensures
        match r {
            Ok(p) => url_query(url@) == Ok::<Seq<(Seq<char>, Seq<char>)>, Seq<char>>(pair_views(p@)),
            Err(e) => url_query(url@) == Err::<Seq<(Seq<char>, Seq<char>)>, Seq<char>>(e@),
        },
{
    match url::Url::parse(url) {
        Ok(u) => Ok(u.query_pairs().map(|(k, v)| (k.into_owned(), v.into_owned())).collect()),
        Err(e) => Err(e.to_string()),
    }
}

/// The value of the last pair named `name`, if there is one.
pub open spec fn last_value(pairs: Seq<(Seq<char>, Seq<char>)>, name: Seq<char>) -> Option<Seq<char>>
    decreases pairs.len(),
{
    if pairs.len() == 0 {
        None
    } else if pairs.last().0 == name {
        Some(pairs.last().1)
    } else {
        last_value(pairs.drop_last(), name)
    }
}

/// What the sign-in callback brought.
#[derive(Debug)]
pub enum CallbackOutcome {
    /// The request is refused, for this reason, and gets no answer page.
    Refused(String),
    /// The request carries this authorization code.
    Code(String),
    /// The request carries the right state but no code.
    MissingCode,
}

/// The abstract form of a callback outcome.
pub enum CallbackView {
    Refused(Seq<char>),
    Code(Seq<char>),
    MissingCode,
}

impl View for CallbackOutcome {
    type V = CallbackView;

    open spec fn view(&self) -> CallbackView {
        match self {
            CallbackOutcome::Refused(m) => CallbackView::Refused(m@),
            CallbackOutcome::Code(c) => CallbackView::Code(c@),
            CallbackOutcome::MissingCode => CallbackView::MissingCode,
        }
    }
}

/// The outcome of a callback request for the path `path`, when the sign-in sent `state`: a URL
/// that does not parse or a state other than the one sent is refused; otherwise the last code
/// of the query, if there is one.
pub open spec fn callback_spec(path: Seq<char>, state: Seq<char>) -> CallbackView {
    match url_query("http://localhost"@ + path) {
        Err(e) => CallbackView::Refused(e),
        Ok(pairs) => if last_value(pairs, "state"@) != Some(state) {
            CallbackView::Refused("state mismatch"@)
        } else {
            match last_value(pairs, "code"@) {
                Some(c) => CallbackView::Code(c),
                None => CallbackView::MissingCode,
            }
        },
    }
}

/// Reads the callback request for `path` (the request's path and query) of a sign-in that sent
/// `state`.
pub fn callback_code(path: &str, state: &str) -> (r: CallbackOutcome)
    ensures
        r@ == callback_spec(path@, state@),
{
    let mut url = String::from_str("http://localhost");
    push_str(&mut url, path);
    match parse_url_query(url.as_str()) {
        Err(e) => CallbackOutcome::Refused(e),
        Ok(pairs) => {
            let mut code: Option<String> = None;
            let mut got_state: Option<String> = None;
            let mut i: usize = 0;
            while i < pairs.len()
                invariant
                    i <= pairs@.len(),
                    code.deep_view() == last_value(pair_views(pairs@).take(i as int), "code"@),
                    got_state.deep_view() == last_value(pair_views(pairs@).take(i as int), "state"@),
                decreases pairs.len() - i,
            {
                let ghost pv = pair_views(pairs@);
                assert(pv.take(i + 1).drop_last() =~= pv.take(i as int));
                assert(pv.take(i + 1).last() == (pairs@[i as int].0@, pairs@[i as int].1@));
                if str_eq(pairs[i].0.as_str(), "code") {
                    code = Some(pairs[i].1.clone());
                }
                if str_eq(pairs[i].0.as_str(), "state") {
                    got_state = Some(pairs[i].1.clone());
                }
                i += 1;
            }
            assert(pair_views(pairs@).take(pairs@.len() as int) =~= pair_views(pairs@));
            let state_ok = match &got_state {
                Some(g) => str_eq(g.as_str(), state),
                None => false,
            };
            if !state_ok {
                return CallbackOutcome::Refused(String::from_str("state mismatch"));
            }
            match code {
                Some(c) => CallbackOutcome::Code(c),
                None => CallbackOutcome::MissingCode,
            }
        },
    }
}

} // verus!
