//! The values exchanged with the identity provider, and the framing of the
//! requests sent to it.

use vstd::prelude::*;
use vstd::string::StringExecFns;

use crate::auth_url::AuthConfig;
use crate::error::AuthError;
use crate::text::{join, join_spec, pairs_view, same_text, strings_view};

verus! {

/// The tokens returned by the authorization-code exchange.
#[derive(Debug, Clone, PartialEq, Eq)]
pub struct Tokens {
    pub access_token: String,
    pub expires_in: usize,
    pub id_token: String,
    pub refresh_token: String,
    pub scope: String,
    pub token_type: String,
}

/// One game character of a session.
#[derive(Debug, Clone, PartialEq, Eq)]
pub struct Account {
    pub account_id: String,
    pub display_name: String,
    pub user_hash: String,
}

/// The durable credential created by the consent exchange.
#[derive(Debug, Clone, PartialEq, Eq)]
pub struct Session {
    pub session_id: String,
}

/// Tokens with the moment they were captured, in seconds since the Unix epoch.
#[derive(Debug, Clone, PartialEq, Eq)]
pub struct AuthState {
    pub time: u64,
    pub tokens: Tokens,
}

/// Token endpoint of the authorization-code exchange.
pub const TOKEN_URL: &'static str = "https://account.jagex.com/oauth2/token";

/// Endpoint that turns an id token into a session.
pub const SESSIONS_URL: &'static str = "https://auth.jagex.com/game-session/v1/sessions";

/// Endpoint that lists a session's accounts.
pub const ACCOUNTS_URL: &'static str = "https://auth.jagex.com/game-session/v1/accounts";

/// The form of the authorization-code exchange.
pub open spec fn token_form_spec(
    config: &AuthConfig,
    code: Seq<char>,
    verifier: Seq<char>,
) -> Seq<(Seq<char>, Seq<char>)> {
    seq![
        ("grant_type"@, "authorization_code"@),
        ("client_id"@, config.client_id@),
        ("code"@, code),
        ("code_verifier"@, verifier),
        ("redirect_uri"@, config.redirect_uri@),
    ]
}

/// The form-encoded fields posted to the token endpoint.
pub fn token_form(config: &AuthConfig, code: &str, verifier: &str) -> (r: Vec<(String, String)>)
    ensures
        pairs_view(r@) == token_form_spec(config, code@, verifier@),
{
    let mut form: Vec<(String, String)> = Vec::new();
    form.push(("grant_type".to_owned(), "authorization_code".to_owned()));
    form.push(("client_id".to_owned(), config.client_id.clone()));
    form.push(("code".to_owned(), code.to_owned()));
    form.push(("code_verifier".to_owned(), verifier.to_owned()));
    form.push(("redirect_uri".to_owned(), config.redirect_uri.clone()));
    assert(pairs_view(form@) =~= token_form_spec(config, code@, verifier@));
    form
}

/// A hexadecimal digit in lowercase.
pub open spec fn hex_digit(n: int) -> char {
    seq!['0', '1', '2', '3', '4', '5', '6', '7', '8', '9', 'a', 'b', 'c', 'd', 'e', 'f'][n]
}

/// How a JSON string writes one character: `"` and `\` escaped, the short
/// forms for backspace, tab, line feed, form feed and carriage return, other
/// control characters as `\u00XX`, anything else as it is.
pub open spec fn json_escape(c: char) -> Seq<char> {
    if c == '"' {
        seq!['\\', '"']
    } else if c == '\\' {
        seq!['\\', '\\']
    } else if c == '\u{8}' {
        seq!['\\', 'b']
    } else if c == '\t' {
        seq!['\\', 't']
    } else if c == '\n' {
        seq!['\\', 'n']
    } else if c == '\u{c}' {
        seq!['\\', 'f']
    } else if c == '\r' {
        seq!['\\', 'r']
    } else if (c as int) < 32 {
        seq!['\\', 'u', '0', '0', hex_digit((c as int) / 16), hex_digit((c as int) % 16)]
    } else {
        seq![c]
    }
}

/// The escaped characters of a text.
pub open spec fn json_chars(s: Seq<char>) -> Seq<char>
    decreases s.len(),
{
    if s.len() == 0 {
        Seq::empty()
    } else {
        json_chars(s.drop_last()) + json_escape(s.last())
    }
}

/// The JSON text of a string value.
pub open spec fn json_text(s: Seq<char>) -> Seq<char> {
    seq!['"'] + json_chars(s) + seq!['"']
}

/// Relies on `serde_json::to_string` applied to a string: the string
/// quoted, with the escapes of `json_escape`; writing a string never fails.
#[verifier::external_body]
fn json_string(s: &str) -> (r: Option<String>)
    ensures
        r is Some,
        match r {
            Some(t) => t@ == json_text(s@),
            None => true,
        },
{
    serde_json::to_string(s).ok()
}

/// The body of the session exchange: a JSON object whose one member
/// `idToken` holds the id token.
pub open spec fn session_body_spec(id_token: Seq<char>) -> Seq<char> {
    "{\"idToken\":"@ + json_text(id_token) + "}"@
}

/// The JSON body posted to the session endpoint.
pub fn session_request_body(id_token: &str) -> (r: Result<String, AuthError>)
    ensures
        r is Ok,
        match r {
            Ok(b) => b@ == session_body_spec(id_token@),
            Err(_) => true,
        },
{
    match json_string(id_token) {
        Some(t) => {
            let mut body = "{\"idToken\":".to_owned();
            body.append(t.as_str());
            body.append("}");
            Ok(body)
        },
        None => Err(AuthError::JsonError("id token cannot be written as JSON".to_owned())),
    }
}

/// Reported for a reply whose HTTP status is not a success.
pub const UNEXPECTED_STATUS: &'static str = "Unexpected HTTP status";

/// Whether a reply's HTTP status lets its body be used: any status outside
/// 200..=299 is an invalid response, and no exchange is retried.
pub fn http_status_outcome(status: u16) -> (r: Result<(), AuthError>)
    ensures
        r is Ok <==> 200 <= status <= 299,
        match r {
            Ok(()) => true,
            Err(e) => e matches AuthError::InvalidResponse(m) && m@ == UNEXPECTED_STATUS@,
        },
{
    if 200 <= status && status <= 299 {
        Ok(())
    } else {
        Err(AuthError::InvalidResponse(UNEXPECTED_STATUS.to_owned()))
    }
}

/// The index of the first account at or after `i` whose id is `id`.
pub open spec fn account_index_from(accounts: Seq<Account>, id: Seq<char>, i: int) -> Option<int>
    decreases accounts.len() - i,
{
    if i < 0 || i >= accounts.len() {
        None
    } else if accounts[i].account_id@ == id {
        Some(i)
    } else {
        account_index_from(accounts, id, i + 1)
    }
}

/// The line that lists an account among the available characters.
pub open spec fn account_line(a: Account) -> Seq<char> {
    "  • "@ + a.display_name@ + " (ID: "@ + a.account_id@ + ")"@
}

/// The available characters, one line each.
pub open spec fn account_listing(accounts: Seq<Account>) -> Seq<char> {
    join_spec(accounts.map_values(|a: Account| account_line(a)), "\n"@)
}

fn listing_line(a: &Account) -> (r: String)
    ensures
        r@ == account_line(*a),
{
    let mut line = "  • ".to_owned();
    line.append(a.display_name.as_str());
    line.append(" (ID: ");
    line.append(a.account_id.as_str());
    line.append(")");
    line
}

/// Picks the account to launch: the first whose id is `character_id`, or
/// `CharacterNotFound` with the listing of the available characters.
pub fn select_account(accounts: &Vec<Account>, character_id: &str) -> (r: Result<usize, AuthError>)
    ensures
        match r {
            Ok(i) => account_index_from(accounts@, character_id@, 0) == Some(i as int),
            Err(e) => {
                &&& account_index_from(accounts@, character_id@, 0) is None
                &&& e matches AuthError::CharacterNotFound { character_id: c, available_chars: l }
                    && c@ == character_id@ && l@ == account_listing(accounts@)
            },
        },
{
    let mut i: usize = 0;
    while i < accounts.len()
        invariant
            i <= accounts.len(),
            account_index_from(accounts@, character_id@, 0) == account_index_from(
                accounts@,
                character_id@,
                i as int,
            ),
        decreases accounts.len() - i,
    {
        if same_text(&accounts[i].account_id, character_id) {
            return Ok(i);
        }
        i = i + 1;
    }
    let mut lines: Vec<String> = Vec::new();
    let mut j: usize = 0;
    while j < accounts.len()
        invariant
            j <= accounts.len(),
            strings_view(lines@) == accounts@.take(j as int).map_values(
                |a: Account| account_line(a),
            ),
        decreases accounts.len() - j,
    {
        let ghost prev = lines@;
        lines.push(listing_line(&accounts[j]));
        assert(strings_view(lines@) =~= strings_view(prev).push(account_line(accounts@[j as int])));
        assert(accounts@.take(j + 1).map_values(|a: Account| account_line(a)) =~= accounts@.take(
            j as int,
        ).map_values(|a: Account| account_line(a)).push(account_line(accounts@[j as int])));
        j = j + 1;
    }
    assert(accounts@.take(accounts.len() as int) =~= accounts@);
    Err(
        AuthError::CharacterNotFound {
            character_id: character_id.to_owned(),
            available_chars: join(&lines, "\n"),
        },
    )
}

/// The `Authorization` header value of a session.
pub fn bearer(session_id: &str) -> (r: String)
    ensures
        r@ == "Bearer "@ + session_id@,
{
    let mut header = "Bearer ".to_owned();
    header.append(session_id);
    header
}

/// How the accounts of a session are to be obtained.
#[derive(Debug)]
pub enum AccountsSource {
    /// From the accounts cache; a missing cache is an empty list.
    Cache,
    /// From the accounts endpoint with this `Authorization` header, writing
    /// the cache afterwards where `write_cache` is set.
    Remote { authorization: String, write_cache: bool },
}

/// Decides where the accounts come from: a session is needed in any case;
/// then the cache when offline, else the endpoint.
pub fn accounts_source(session: Result<Session, AuthError>, offline: bool, write_cache: bool) -> (r: Result<
    AccountsSource,
    AuthError,
>)
    ensures
        match session {
            Err(e) => r == Err::<AccountsSource, AuthError>(e),
            Ok(s) => if offline {
                r matches Ok(AccountsSource::Cache)
            } else {
                r matches Ok(AccountsSource::Remote { authorization, write_cache: w })
                    && authorization@ == "Bearer "@ + s.session_id@ && w == write_cache
            },
        },
{
    let session = session?;
    if offline {
        return Ok(AccountsSource::Cache);
    }
    Ok(AccountsSource::Remote { authorization: bearer(session.session_id.as_str()), write_cache })
}

} // verus!
