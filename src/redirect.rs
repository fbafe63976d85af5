//! Classification of a navigated URL into one of the two redirect shapes
//! that the sign-in flow waits for.

use vstd::prelude::*;

use crate::text::{pairs_view, same_text};

verus! {

/// Host of the identity provider's login pages.
pub const LOGIN_HOST: &'static str = "secure.runescape.com";

/// Path of the launcher redirect that carries the authorization code.
pub const LAUNCHER_REDIRECT_PATH: &'static str = "/m=weblogin/launcher-redirect";

/// Host that the consent redirect is sent to.
pub const CONSENT_HOST: &'static str = "localhost";

/// The parts of a parsed URL that the classification reads.
pub struct ParsedUrl {
    pub scheme: String,
    pub host: Option<String>,
    pub path: String,
    /// The decoded `key=value` pairs of the query, in order.
    pub query: Vec<(String, String)>,
}

/// Mathematical model of a parsed URL.
pub ghost struct UrlParts {
    pub scheme: Seq<char>,
    pub host: Option<Seq<char>>,
    pub path: Seq<char>,
    pub query: Seq<(Seq<char>, Seq<char>)>,
}

impl View for ParsedUrl {
    type V = UrlParts;

    open spec fn view(&self) -> UrlParts {
        UrlParts {
            scheme: self.scheme@,
            host: match self.host {
                Some(h) => Some(h@),
                None => None,
            },
            path: self.path@,
            query: pairs_view(self.query@),
        }
    }
}

/// What the URL parser makes of a text: `None` where it is no valid URL.
pub uninterp spec fn url_parts_of(s: Seq<char>) -> Option<UrlParts>;

/// Relies on `url::Url::parse` and on the accessors `scheme`, `host_str`,
/// `path` and `query_pairs` of the parsed value: the parts depend on the text
/// alone.
#[verifier::external_body]
fn parse_url(s: &str) -> (r: Option<ParsedUrl>)
    ensures
        match r {
            Some(u) => url_parts_of(s@) == Some(u@),
            None => url_parts_of(s@) is None,
        },
{
    match url::Url::parse(s) {
        Ok(u) => Some(ParsedUrl {
            scheme: u.scheme().to_owned(),
            host: u.host_str().map(|h| h.to_owned()),
            path: u.path().to_owned(),
            query: u.query_pairs().map(|(k, v)| (k.into_owned(), v.into_owned())).collect(),
        }),
        Err(_) => None,
    }
}

/// `s` with every `#` turned into `?`.
pub open spec fn hash_to_query(s: Seq<char>) -> Seq<char> {
    s.map_values(|c: char| if c == '#' { '?' } else { c })
}

/// Relies on `str::replace`, which replaces every match of the pattern.
#[verifier::external_body]
fn replace_hash(s: &str) -> (r: String)
    ensures
        r@ == hash_to_query(s@),
{
    s.replace('#', "?")
}

/// The value of the first query pair at or after `i` whose key is `key`.
pub open spec fn value_from(q: Seq<(Seq<char>, Seq<char>)>, key: Seq<char>, i: int) -> Option<
    Seq<char>,
>
    decreases q.len() - i,
{
    if i < 0 || i >= q.len() {
        None
    } else if q[i].0 == key {
        Some(q[i].1)
    } else {
        value_from(q, key, i + 1)
    }
}

/// The value of the first query pair whose key is `key`.
pub open spec fn query_value(q: Seq<(Seq<char>, Seq<char>)>, key: Seq<char>) -> Option<Seq<char>> {
    value_from(q, key, 0)
}

/// Looks up the first query pair with the given key.
fn find_query_value(q: &Vec<(String, String)>, key: &str) -> (r: Option<String>)
    ensures
        match r {
            Some(v) => query_value(pairs_view(q@), key@) == Some(v@),
            None => query_value(pairs_view(q@), key@) is None,
        },
{
    let ghost qv = pairs_view(q@);
    let mut i: usize = 0;
    while i < q.len()
        invariant
            i <= q.len(),
            qv == pairs_view(q@),
            value_from(qv, key@, 0) == value_from(qv, key@, i as int),
        decreases q.len() - i,
    {
        if same_text(&q[i].0, key) {
            return Some(q[i].1.clone());
        }
        i = i + 1;
    }
    None
}

/// A recognized redirect.
pub enum Redirects {
    Auth { code: String, state: String },
    Consent { id_token: String, state: String },
}

/// Mathematical model of a recognized redirect.
pub ghost enum RedirectView {
    Auth { code: Seq<char>, state: Seq<char> },
    Consent { id_token: Seq<char>, state: Seq<char> },
}

impl View for Redirects {
    type V = RedirectView;

    open spec fn view(&self) -> RedirectView {
        match self {
            Redirects::Auth { code, state } => RedirectView::Auth { code: code@, state: state@ },
            Redirects::Consent { id_token, state } => RedirectView::Consent {
                id_token: id_token@,
                state: state@,
            },
        }
    }
}

pub open spec fn redirect_view(r: Option<Redirects>) -> Option<RedirectView> {
    match r {
        Some(x) => Some(x@),
        None => None,
    }
}

/// Scheme, host and path of the launcher redirect, exactly.
pub open spec fn is_auth_shape(u: UrlParts) -> bool {
    &&& u.scheme == "https"@
    &&& u.host == Some(LOGIN_HOST@)
    &&& u.path == LAUNCHER_REDIRECT_PATH@
}

/// The launcher redirect read from a parsed URL: its shape first, then the
/// `code` and `state` parameters.
pub open spec fn auth_redirect_spec(u: UrlParts) -> Option<RedirectView> {
    if !is_auth_shape(u) {
        None
    } else {
        match (query_value(u.query, "code"@), query_value(u.query, "state"@)) {
            (Some(code), Some(state)) => Some(RedirectView::Auth { code, state }),
            _ => None,
        }
    }
}

/// The consent redirect read from a text whose fragment is taken as its query.
pub open spec fn consent_redirect_spec(s: Seq<char>) -> Option<RedirectView> {
    match url_parts_of(hash_to_query(s)) {
        Some(u) => if u.host == Some(CONSENT_HOST@) {
            match (query_value(u.query, "state"@), query_value(u.query, "id_token"@)) {
                (Some(state), Some(id_token)) => Some(RedirectView::Consent { id_token, state }),
                _ => None,
            }
        } else {
            None
        },
        None => None,
    }
}

/// Classification of a navigated URL: a valid URL is tried as the launcher
/// redirect first, then as the consent redirect.
pub open spec fn redirect_spec(s: Seq<char>) -> Option<RedirectView> {
    match url_parts_of(s) {
        None => None,
        Some(u) => if auth_redirect_spec(u) is Some {
            auth_redirect_spec(u)
        } else {
            consent_redirect_spec(s)
        },
    }
}

/// Classifies a navigated URL. Never fails: anything unrecognized is `None`.
pub fn parse_redirect(url: &str) -> (r: Option<Redirects>)
    ensures
        redirect_view(r) == redirect_spec(url@),
{
    let parsed_url = match parse_url(url) {
        Some(u) => u,
        None => return None,
    };
    if let Some(auth_redirect) = try_parse_auth_redirect(&parsed_url) {
        return Some(auth_redirect);
    }
    try_parse_consent_redirect(url)
}

/// Reads the launcher redirect; the query is not looked at unless scheme,
/// host and path match exactly.
pub fn try_parse_auth_redirect(url: &ParsedUrl) -> (r: Option<Redirects>)
    ensures
        redirect_view(r) == auth_redirect_spec(url@),
{
    if !same_text(&url.scheme, "https") {
        return None;
    }
    match &url.host {
        Some(h) => {
            if !same_text(h, LOGIN_HOST) {
                return None;
            }
        },
        None => return None,
    }
    if !same_text(&url.path, LAUNCHER_REDIRECT_PATH) {
        return None;
    }
    let code = match find_query_value(&url.query, "code") {
        Some(c) => c,
        None => return None,
    };
    let state = match find_query_value(&url.query, "state") {
        Some(s) => s,
        None => return None,
    };
    Some(Redirects::Auth { code, state })
}

/// Reads the consent redirect, whose parameters come in the fragment.
pub fn try_parse_consent_redirect(url: &str) -> (r: Option<Redirects>)
    ensures
        redirect_view(r) == consent_redirect_spec(url@),
{
    let url_with_query = replace_hash(url);
    let parsed_url = match parse_url(url_with_query.as_str()) {
        Some(u) => u,
        None => return None,
    };
    match &parsed_url.host {
        Some(h) => {
            if !same_text(h, CONSENT_HOST) {
                return None;
            }
        },
        None => return None,
    }
    let state = match find_query_value(&parsed_url.query, "state") {
        Some(s) => s,
        None => return None,
    };
    let id_token = match find_query_value(&parsed_url.query, "id_token") {
        Some(t) => t,
        None => return None,
    };
    Some(Redirects::Consent { id_token, state })
}

/// A URL whose scheme, host and path are not exactly those of the launcher
/// redirect is never classified as one, whatever `code` and `state`
/// parameters it carries.
pub proof fn lemma_auth_redirect_needs_exact_shape(s: Seq<char>)
    requires
        url_parts_of(s) is Some ==> !is_auth_shape(url_parts_of(s)->Some_0),
    ensures
        !(redirect_spec(s) matches Some(RedirectView::Auth { .. })),
        url_parts_of(s) is Some ==> auth_redirect_spec(url_parts_of(s)->Some_0) is None,
{
}

/// Consent parameters given in the fragment are read exactly as the same
/// parameters given in the query string.
pub proof fn lemma_fragment_reads_as_query(base: Seq<char>, params: Seq<char>)
    ensures
        consent_redirect_spec(base + seq!['#'] + params) == consent_redirect_spec(
            base + seq!['?'] + params,
        ),
{
    assert(hash_to_query(base + seq!['#'] + params) =~= hash_to_query(base + seq!['?'] + params));
}

} // verus!
