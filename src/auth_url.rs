//! The per-attempt PKCE values and the two authorization URLs.

use vstd::prelude::*;

use crate::error::AuthError;
use crate::text::pairs_view;

verus! {

/// Path of the authorization endpoint under the provider's origin.
pub const AUTH_PATH: &'static str = "/oauth2/auth";

/// Scopes asked for by the first hop.
pub const AUTH_SCOPES: &'static str = "openid offline gamesso.token.create user.profile.read";

/// Client identifier of the consent hop; distinct from the primary one.
pub const CONSENT_CLIENT_ID: &'static str = "1fddee4e-b100-4f4e-b2b0-097f9088f9d2";

/// Where the consent hop redirects to.
pub const CONSENT_REDIRECT_URI: &'static str = "http://localhost";

/// Length in bytes of the PKCE code verifier.
pub const VERIFIER_LENGTH: usize = 43;

/// Fixed settings of the identity provider.
#[derive(Debug, Clone)]
pub struct AuthConfig {
    /// Base URL of the provider, such as `https://account.example.com`.
    pub origin: String,
    /// Primary OAuth client identifier.
    pub client_id: String,
    /// Redirect target of the first hop.
    pub redirect_uri: String,
}

/// The PKCE values of one authorization attempt.
#[derive(Debug)]
pub struct AuthOptions {
    pub state: String,
    pub challenge: String,
    pub verifier: String,
}

pub ghost struct AuthOptionsView {
    pub state: Seq<char>,
    pub challenge: Seq<char>,
    pub verifier: Seq<char>,
}

impl View for AuthOptions {
    type V = AuthOptionsView;

    open spec fn view(&self) -> AuthOptionsView {
        AuthOptionsView {
            state: self.state@,
            challenge: self.challenge@,
            verifier: self.verifier@,
        }
    }
}

/// Bytes that a PKCE code verifier may hold.
pub open spec fn is_verifier_byte(b: u8) -> bool {
    ||| 65 <= b <= 90
    ||| 97 <= b <= 122
    ||| 48 <= b <= 57
    ||| b == 45 || b == 46 || b == 126 || b == 95
}

/// Whether every byte is below 128.
pub open spec fn all_ascii(b: Seq<u8>) -> bool {
    forall|i: int| 0 <= i < b.len() ==> #[trigger] b[i] < 128
}

/// The characters of ASCII bytes.
pub open spec fn ascii_chars(b: Seq<u8>) -> Seq<char> {
    b.map_values(|x: u8| x as char)
}

/// Relies on `pkce::code_verifier`: `length` random bytes, each from the
/// unreserved set; it panics unless `length` lies in 43..=128.
#[verifier::external_body]
fn random_code_verifier(length: usize) -> (r: Vec<u8>)
    requires
        43 <= length <= 128,
    ensures
        r@.len() == length,
        forall|i: int| 0 <= i < r@.len() ==> is_verifier_byte(#[trigger] r@[i]),
{
    pkce::code_verifier(length)
}

/// The PKCE S256 challenge of a verifier.
pub uninterp spec fn pkce_challenge_of(verifier: Seq<u8>) -> Seq<char>;

/// Relies on `pkce::code_challenge`: the unpadded base64url text of the
/// verifier's SHA-256 digest, a function of the verifier alone.
#[verifier::external_body]
fn code_challenge(verifier: &Vec<u8>) -> (r: String)
    ensures
        r@ == pkce_challenge_of(verifier@),
{
    pkce::code_challenge(verifier)
}

/// Relies on `String::from_utf8`: ASCII bytes are valid UTF-8 and give one
/// character each.
#[verifier::external_body]
fn ascii_string(b: Vec<u8>) -> (r: Option<String>)
    ensures
        match r {
            Some(s) => all_ascii(b@) ==> s@ == ascii_chars(b@),
            None => !all_ascii(b@),
        },
{
    String::from_utf8(b).ok()
}

/// A lowercase hexadecimal digit.
pub open spec fn is_lower_hex(c: char) -> bool {
    ('0' <= c && c <= '9') || ('a' <= c && c <= 'f')
}

/// The hyphenated lowercase text of a random UUID: version digit `4`, and
/// the RFC 4122 variant (`8`, `9`, `a` or `b`) at the start of the fourth
/// group.
pub open spec fn is_uuid_v4_text(s: Seq<char>) -> bool {
    &&& s.len() == 36
    &&& forall|i: int|
        0 <= i < 36 ==> if i == 8 || i == 13 || i == 18 || i == 23 {
            #[trigger] s[i] == '-'
        } else {
            is_lower_hex(s[i])
        }
    &&& s[14] == '4'
    &&& (s[19] == '8' || s[19] == '9' || s[19] == 'a' || s[19] == 'b')
}

/// Relies on `uuid::Uuid::new_v4`, which fixes the version and variant bits
/// of random bits, and on its `Display`, the hyphenated lowercase form.
#[verifier::external_body]
fn random_uuid() -> (r: String)
    ensures
        is_uuid_v4_text(r@),
{
    uuid::Uuid::new_v4().to_string()
}

/// The text of `path` joined to `origin`, with `pairs` appended to its query
/// in order; `None` where the URL cannot be built.
pub uninterp spec fn endpoint_url_of(
    origin: Seq<char>,
    path: Seq<char>,
    pairs: Seq<(Seq<char>, Seq<char>)>,
) -> Option<Seq<char>>;

/// Relies on `url::Url::parse` and `Url::join` for the endpoint, and on
/// `form_urlencoded::Serializer::extend_pairs` of `Url::query_pairs_mut` to
/// append the pairs.
#[verifier::external_body]
fn endpoint_url(origin: &str, path: &str, pairs: &Vec<(String, String)>) -> (r: Result<
    String,
    url::ParseError,
>)
    ensures
        match r {
            Ok(u) => endpoint_url_of(origin@, path@, pairs_view(pairs@)) == Some(u@),
            Err(_) => endpoint_url_of(origin@, path@, pairs_view(pairs@)) is None,
        },
{
    let mut url = url::Url::parse(origin)?.join(path)?;
    url.query_pairs_mut().extend_pairs(pairs.iter());
    Ok(url.as_str().to_owned())
}

/// Builds a URL on the authorization endpoint, reporting `InvalidUrl` where
/// it cannot be built.
fn authorization_endpoint(origin: &String, pairs: &Vec<(String, String)>) -> (r: Result<
    String,
    AuthError,
>)
    ensures
        match r {
            Ok(u) => endpoint_url_of(origin@, AUTH_PATH@, pairs_view(pairs@)) == Some(u@),
            Err(e) => e is InvalidUrl && endpoint_url_of(origin@, AUTH_PATH@, pairs_view(pairs@))
                is None,
        },
{
    match endpoint_url(origin.as_str(), AUTH_PATH, pairs) {
        Ok(u) => Ok(u),
        Err(e) => Err(AuthError::InvalidUrl(e)),
    }
}

fn pair(k: &str, v: &str) -> (r: (String, String))
    ensures
        r.0@ == k@,
        r.1@ == v@,
{
    (k.to_owned(), v.to_owned())
}

/// Query of the first hop.
pub open spec fn auth_pairs(
    client_id: Seq<char>,
    redirect_uri: Seq<char>,
    challenge: Seq<char>,
    state: Seq<char>,
) -> Seq<(Seq<char>, Seq<char>)> {
    seq![
        ("flow"@, "launcher"@),
        ("response_type"@, "code"@),
        ("client_id"@, client_id),
        ("redirect_uri"@, redirect_uri),
        ("code_challenge"@, challenge),
        ("code_challenge_method"@, "S256"@),
        ("prompt"@, "login"@),
        ("scope"@, AUTH_SCOPES@),
        ("state"@, state),
    ]
}

/// Query of the consent hop.
pub open spec fn consent_pairs(id_token: Seq<char>, nonce: Seq<char>, state: Seq<char>) -> Seq<
    (Seq<char>, Seq<char>),
> {
    seq![
        ("id_token_hint"@, id_token),
        ("nonce"@, nonce),
        ("prompt"@, "consent"@),
        ("response_type"@, "id_token code"@),
        ("client_id"@, CONSENT_CLIENT_ID@),
        ("redirect_uri"@, CONSENT_REDIRECT_URI@),
        ("scope"@, "openid offline"@),
        ("state"@, state),
    ]
}

/// `challenge` is the S256 challenge of the bytes of `verifier`, all of them
/// unreserved characters.
pub open spec fn is_pkce_pair(verifier: Seq<char>, challenge: Seq<char>) -> bool {
    exists|b: Seq<u8>|
        #[trigger] ascii_chars(b) == verifier && challenge == pkce_challenge_of(b) && forall|i: int|
            0 <= i < b.len() ==> is_verifier_byte(#[trigger] b[i])
}

/// Values fit for one attempt: a random UUID as state, and a 43-character
/// verifier with its challenge.
pub open spec fn is_fresh_options(o: AuthOptionsView) -> bool {
    &&& is_uuid_v4_text(o.state)
    &&& o.verifier.len() == VERIFIER_LENGTH
    &&& is_pkce_pair(o.verifier, o.challenge)
}

/// The first-hop URL of an attempt.
pub open spec fn auth_url_spec(config: &AuthConfig, options: AuthOptionsView) -> Option<Seq<char>> {
    endpoint_url_of(
        config.origin@,
        AUTH_PATH@,
        auth_pairs(config.client_id@, config.redirect_uri@, options.challenge, options.state),
    )
}

/// The consent-hop URL for an id token, nonce and state.
pub open spec fn consent_url_spec(
    config: &AuthConfig,
    id_token: Seq<char>,
    nonce: Seq<char>,
    state: Seq<char>,
) -> Option<Seq<char>> {
    endpoint_url_of(config.origin@, AUTH_PATH@, consent_pairs(id_token, nonce, state))
}

/// `url` is the consent-hop URL for `id_token` with state `state` and some
/// nonce, both random UUID texts.
pub open spec fn is_fresh_consent_url(
    config: &AuthConfig,
    id_token: Seq<char>,
    state: Seq<char>,
    url: Seq<char>,
) -> bool {
    &&& is_uuid_v4_text(state)
    &&& exists|nonce: Seq<char>|
        is_uuid_v4_text(nonce) && #[trigger] consent_url_spec(config, id_token, nonce, state)
            == Some(url)
}

/// For some random UUID texts as state and nonce, no consent-hop URL for
/// `id_token` can be built.
pub open spec fn consent_url_fails(config: &AuthConfig, id_token: Seq<char>) -> bool {
    exists|nonce: Seq<char>, state: Seq<char>|
        is_uuid_v4_text(nonce) && is_uuid_v4_text(state) && #[trigger] consent_url_spec(
            config,
            id_token,
            nonce,
            state,
        ) is None
}

impl AuthOptions {
    /// Fresh values for one attempt: a random state, a random 43-byte
    /// verifier, and the verifier's S256 challenge.
    pub fn new() -> (r: Result<AuthOptions, AuthError>)
        ensures
            r matches Ok(o) && is_fresh_options(o@),
    {
        let state = random_uuid();
        let code_verify = random_code_verifier(VERIFIER_LENGTH);
        let code_challenge = code_challenge(&code_verify);
        let ghost bytes = code_verify@;
        assert(all_ascii(bytes)) by {
            assert forall|i: int| 0 <= i < bytes.len() implies #[trigger] bytes[i] < 128 by {
                assert(is_verifier_byte(bytes[i]));
            }
        }
        match ascii_string(code_verify) {
            Some(verifier) => {
                assert(ascii_chars(bytes) == verifier@);
                assert(is_pkce_pair(verifier@, code_challenge@));
                Ok(AuthOptions { state, challenge: code_challenge, verifier })
            },
            None => Err(
                AuthError::InvalidResponse("Invalid UTF-8 in code verifier".to_owned()),
            ),
        }
    }

    /// A field-by-field copy.
    pub fn snapshot(&self) -> (r: AuthOptions)
        ensures
            r@ == self@,
    {
        AuthOptions {
            state: self.state.clone(),
            challenge: self.challenge.clone(),
            verifier: self.verifier.clone(),
        }
    }
}

/// The first-hop URL for given attempt values.
pub fn auth_url_for(config: &AuthConfig, options: &AuthOptions) -> (r: Result<String, AuthError>)
    ensures
        match r {
            Ok(u) => auth_url_spec(config, options@) == Some(u@),
            Err(e) => e is InvalidUrl && auth_url_spec(config, options@) is None,
        },
{
    let mut query: Vec<(String, String)> = Vec::new();
    query.push(pair("flow", "launcher"));
    query.push(pair("response_type", "code"));
    query.push(pair("client_id", config.client_id.as_str()));
    query.push(pair("redirect_uri", config.redirect_uri.as_str()));
    query.push(pair("code_challenge", options.challenge.as_str()));
    query.push(pair("code_challenge_method", "S256"));
    query.push(pair("prompt", "login"));
    query.push(pair("scope", AUTH_SCOPES));
    query.push(pair("state", options.state.as_str()));
    assert(pairs_view(query@) =~= auth_pairs(
        config.client_id@,
        config.redirect_uri@,
        options.challenge@,
        options.state@,
    ));
    authorization_endpoint(&config.origin, &query)
}

/// Starts an attempt: fresh attempt values and the first-hop URL built from
/// them.
pub fn create_auth_url(config: &AuthConfig) -> (r: Result<(String, AuthOptions), AuthError>)
    ensures
        (forall|o: AuthOptionsView|
            is_fresh_options(o) ==> #[trigger] auth_url_spec(config, o) is Some) ==> r is Ok,
        match r {
            Ok((u, o)) => auth_url_spec(config, o@) == Some(u@) && is_fresh_options(o@),
            Err(e) => e is InvalidUrl && exists|o: AuthOptionsView|
                is_fresh_options(o) && #[trigger] auth_url_spec(config, o) is None,
        },
{
    let auth_options = AuthOptions::new()?;
    match auth_url_for(config, &auth_options) {
        Ok(url) => Ok((url, auth_options)),
        Err(e) => {
            assert(is_fresh_options(auth_options@) && auth_url_spec(config, auth_options@) is None);
            Err(e)
        },
    }
}

/// The consent-hop URL for given id token, nonce and state.
pub fn consent_url_for(config: &AuthConfig, id_token: &str, nonce: &str, state: &str) -> (r:
    Result<String, AuthError>)
    ensures
        match r {
            Ok(u) => consent_url_spec(config, id_token@, nonce@, state@) == Some(u@),
            Err(e) => e is InvalidUrl && consent_url_spec(config, id_token@, nonce@, state@) is None,
        },
{
    let mut query: Vec<(String, String)> = Vec::new();
    query.push(pair("id_token_hint", id_token));
    query.push(pair("nonce", nonce));
    query.push(pair("prompt", "consent"));
    query.push(pair("response_type", "id_token code"));
    query.push(pair("client_id", CONSENT_CLIENT_ID));
    query.push(pair("redirect_uri", CONSENT_REDIRECT_URI));
    query.push(pair("scope", "openid offline"));
    query.push(pair("state", state));
    assert(pairs_view(query@) =~= consent_pairs(id_token@, nonce@, state@));
    authorization_endpoint(&config.origin, &query)
}

/// The consent-hop URL with a fresh random state and nonce; returns the URL
/// and the state that the consent redirect must carry back.
pub fn create_consent_url(config: &AuthConfig, id_token: &str) -> (r: Result<
    (String, String),
    AuthError,
>)
    ensures
        !consent_url_fails(config, id_token@) ==> r is Ok,
        match r {
            Ok((u, state)) => is_fresh_consent_url(config, id_token@, state@, u@),
            Err(e) => e is InvalidUrl && consent_url_fails(config, id_token@),
        },
{
    let state = random_uuid();
    let nonce = random_uuid();
    match consent_url_for(config, id_token, nonce.as_str(), state.as_str()) {
        Ok(url) => {
            assert(consent_url_spec(config, id_token@, nonce@, state@) == Some(url@));
            Ok((url, state))
        },
        Err(e) => {
            assert(consent_url_spec(config, id_token@, nonce@, state@) is None);
            Err(e)
        },
    }
}

} // verus!
