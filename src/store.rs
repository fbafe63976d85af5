//! Decisions of the credential layer: how a session name becomes a key of
//! the secret store and of the accounts cache, and how the store's outcomes
//! become results. The store and the cache files themselves are reached by
//! the caller, which hands their outcomes in.

use vstd::prelude::*;
use vstd::string::StringExecFns;

use crate::client::{Account, Session};
use crate::error::AuthError;

verus! {

/// Service under which sessions are kept in the secret store.
pub const SERVICE: &'static str = "auth-rs";

/// Directory of this application under the platform cache directory.
pub const CACHE_APP_DIR: &'static str = "auth-rs";

/// File of the accounts cache inside a session's cache directory.
pub const ACCOUNTS_FILE: &'static str = "accounts.json";

/// Prefix of the key of a named session.
pub const NAMED_SESSION_PREFIX: &'static str = "named-session-";

/// Key of the unnamed session.
pub const DEFAULT_SESSION_KEY: &'static str = "session";

pub open spec fn name_view(session_name: &Option<String>) -> Option<Seq<char>> {
    match session_name {
        Some(n) => Some(n@),
        None => None,
    }
}

/// The key that a session name is stored under.
pub open spec fn session_key_spec(session_name: Option<Seq<char>>) -> Seq<char> {
    match session_name {
        Some(n) => NAMED_SESSION_PREFIX@ + n,
        None => DEFAULT_SESSION_KEY@,
    }
}

/// The key that a session name is stored under: `named-session-<name>`, or
/// `session` without a name.
pub fn session_key(session_name: &Option<String>) -> (r: String)
    ensures
        r@ == session_key_spec(name_view(session_name)),
{
    match session_name {
        Some(n) => {
            let mut key = NAMED_SESSION_PREFIX.to_owned();
            key.append(n.as_str());
            key
        },
        None => DEFAULT_SESSION_KEY.to_owned(),
    }
}

/// Two different session names never share an entry of the secret store or
/// of the accounts cache.
pub proof fn lemma_session_keys_distinct(a: Option<Seq<char>>, b: Option<Seq<char>>)
    requires
        a != b,
    ensures
        session_key_spec(a) != session_key_spec(b),
{
    reveal_strlit("named-session-");
    reveal_strlit("session");
    match (a, b) {
        (Some(x), Some(y)) => {
            assert((NAMED_SESSION_PREFIX@ + x).subrange(14, 14 + x.len() as int) =~= x);
            assert((NAMED_SESSION_PREFIX@ + y).subrange(14, 14 + y.len() as int) =~= y);
        },
        (Some(x), None) => {
            assert((NAMED_SESSION_PREFIX@ + x).len() >= 14);
        },
        (None, Some(y)) => {
            assert((NAMED_SESSION_PREFIX@ + y).len() >= 14);
        },
        (None, None) => {},
    }
}

/// A failure reported by the secret store.
#[derive(Debug)]
pub enum StoreFailure {
    /// No entry under the key.
    NoEntry,
    /// The platform's store could not be used.
    PlatformFailure(String),
    /// Any other failure.
    Other(String),
}

pub open spec fn store_error_spec(f: StoreFailure) -> AuthError {
    match f {
        StoreFailure::NoEntry => AuthError::SessionNotFound,
        StoreFailure::PlatformFailure(m) => AuthError::CredentialStoreError(m),
        StoreFailure::Other(m) => AuthError::KeyringError(m),
    }
}

impl From<StoreFailure> for AuthError {
    fn from(error: StoreFailure) -> (r: AuthError)
        ensures
            r == store_error_spec(error),
    {
        match error {
            StoreFailure::NoEntry => AuthError::SessionNotFound,
            StoreFailure::PlatformFailure(m) => AuthError::CredentialStoreError(m),
            StoreFailure::Other(m) => AuthError::KeyringError(m),
        }
    }
}

impl vstd::std_specs::convert::FromSpecImpl<StoreFailure> for AuthError {
    open spec fn obeys_from_spec() -> bool {
        true
    }

    open spec fn from_spec(v: StoreFailure) -> AuthError {
        store_error_spec(v)
    }
}

/// The result of reading a session's secret: a missing entry is no error.
pub fn load_outcome(read: Result<String, StoreFailure>) -> (r: Result<Option<String>, AuthError>)
    ensures
        match read {
            Ok(secret) => r matches Ok(Some(s)) && s@ == secret@,
            Err(StoreFailure::NoEntry) => r matches Ok(None),
            Err(f) => r == Err::<Option<String>, AuthError>(store_error_spec(f)),
        },
{
    match read {
        Ok(secret) => Ok(Some(secret)),
        Err(StoreFailure::NoEntry) => Ok(None),
        Err(f) => Err(AuthError::from(f)),
    }
}

/// The result of deleting a session's secret: a missing entry is no error.
pub fn clear_outcome(deleted: Result<(), StoreFailure>) -> (r: Result<(), AuthError>)
    ensures
        match deleted {
            Ok(()) => r is Ok,
            Err(StoreFailure::NoEntry) => r is Ok,
            Err(f) => r == Err::<(), AuthError>(store_error_spec(f)),
        },
{
    match deleted {
        Ok(()) => Ok(()),
        Err(StoreFailure::NoEntry) => Ok(()),
        Err(f) => Err(AuthError::from(f)),
    }
}

/// The result of writing a session's secret.
pub fn store_outcome(written: Result<(), StoreFailure>) -> (r: Result<(), AuthError>)
    ensures
        match written {
            Ok(()) => r is Ok,
            Err(f) => r == Err::<(), AuthError>(store_error_spec(f)),
        },
{
    match written {
        Ok(()) => Ok(()),
        Err(f) => Err(AuthError::from(f)),
    }
}

/// The session of a key, where one is stored.
pub fn session_or_missing(loaded: Option<Session>) -> (r: Result<Session, AuthError>)
    ensures
        match loaded {
            Some(s) => r matches Ok(t) && t.session_id@ == s.session_id@,
            None => r matches Err(AuthError::SessionNotFound),
        },
{
    match loaded {
        Some(s) => Ok(s),
        None => Err(AuthError::SessionNotFound),
    }
}

/// The result of clearing a session's accounts cache: without a platform
/// cache directory there is nothing to clear.
pub fn cache_clear_outcome(cleared: Result<(), AuthError>) -> (r: Result<(), AuthError>)
    ensures
        match cleared {
            Ok(()) => r is Ok,
            Err(AuthError::NoCacheDir) => r is Ok,
            Err(e) => r == Err::<(), AuthError>(e),
        },
{
    match cleared {
        Ok(()) => Ok(()),
        Err(AuthError::NoCacheDir) => Ok(()),
        Err(e) => Err(e),
    }
}

/// One step on the secret store or the accounts cache, carried out by the
/// caller in the order given.
#[derive(Debug)]
pub enum CredentialOp {
    /// Write a secret under a key, replacing any earlier one.
    StoreSecret { key: String, secret: String },
    /// Delete the secret under a key; a missing entry is no error.
    DeleteSecret { key: String },
    /// Remove the accounts cache of a key; a missing cache is no error.
    ClearAccountsCache { key: String },
    /// Write the accounts cache of a key.
    WriteAccountsCache { key: String, accounts: Vec<Account> },
}

/// Mathematical model of an account.
pub type AccountView = (Seq<char>, Seq<char>, Seq<char>);

pub open spec fn account_view(a: Account) -> AccountView {
    (a.account_id@, a.display_name@, a.user_hash@)
}

pub ghost enum CredentialOpView {
    StoreSecret { key: Seq<char>, secret: Seq<char> },
    DeleteSecret { key: Seq<char> },
    ClearAccountsCache { key: Seq<char> },
    WriteAccountsCache { key: Seq<char>, accounts: Seq<AccountView> },
}

impl View for CredentialOp {
    type V = CredentialOpView;

    open spec fn view(&self) -> CredentialOpView {
        match self {
            CredentialOp::StoreSecret { key, secret } => CredentialOpView::StoreSecret {
                key: key@,
                secret: secret@,
            },
            CredentialOp::DeleteSecret { key } => CredentialOpView::DeleteSecret { key: key@ },
            CredentialOp::ClearAccountsCache { key } => CredentialOpView::ClearAccountsCache {
                key: key@,
            },
            CredentialOp::WriteAccountsCache { key, accounts } => {
                CredentialOpView::WriteAccountsCache {
                    key: key@,
                    accounts: accounts@.map_values(|a: Account| account_view(a)),
                }
            },
        }
    }
}

pub open spec fn ops_view(ops: Seq<CredentialOp>) -> Seq<CredentialOpView> {
    ops.map_values(|o: CredentialOp| o@)
}

/// Model of what is persisted: the secret under each key of the secret
/// store, and the accounts cache of each key that has one.
pub ghost struct CredentialsModel {
    pub secrets: Map<Seq<char>, Seq<char>>,
    pub caches: Map<Seq<char>, Seq<AccountView>>,
}

/// The persisted state after one step.
pub open spec fn apply_op(m: CredentialsModel, op: CredentialOpView) -> CredentialsModel {
    match op {
        CredentialOpView::StoreSecret { key, secret } => CredentialsModel {
            secrets: m.secrets.insert(key, secret),
            ..m
        },
        CredentialOpView::DeleteSecret { key } => CredentialsModel {
            secrets: m.secrets.remove(key),
            ..m
        },
        CredentialOpView::ClearAccountsCache { key } => CredentialsModel {
            caches: m.caches.remove(key),
            ..m
        },
        CredentialOpView::WriteAccountsCache { key, accounts } => CredentialsModel {
            caches: m.caches.insert(key, accounts),
            ..m
        },
    }
}

/// The persisted state after the steps, in order.
pub open spec fn apply_ops(m: CredentialsModel, ops: Seq<CredentialOpView>) -> CredentialsModel
    decreases ops.len(),
{
    if ops.len() == 0 {
        m
    } else {
        apply_ops(apply_op(m, ops[0]), ops.drop_first())
    }
}

/// What loading a session name finds: its secret, or nothing.
pub open spec fn loaded_secret(m: CredentialsModel, session_name: Option<Seq<char>>) -> Option<
    Seq<char>,
> {
    let key = session_key_spec(session_name);
    if m.secrets.contains_key(key) {
        Some(m.secrets[key])
    } else {
        None
    }
}

/// What an offline listing of a session name finds: its cached accounts, or
/// an empty list where there is no cache.
pub open spec fn offline_accounts(m: CredentialsModel, session_name: Option<Seq<char>>) -> Seq<
    AccountView,
> {
    let key = session_key_spec(session_name);
    if m.caches.contains_key(key) {
        m.caches[key]
    } else {
        Seq::empty()
    }
}

/// The steps after a session was created: its secret is stored, then the
/// accounts cache of its key is invalidated.
pub open spec fn session_created_spec(session_name: Option<Seq<char>>, secret: Seq<char>) -> Seq<
    CredentialOpView,
> {
    let key = session_key_spec(session_name);
    seq![
        CredentialOpView::StoreSecret { key, secret },
        CredentialOpView::ClearAccountsCache { key },
    ]
}

/// The steps of a logout: the secret is deleted, then the accounts cache.
pub open spec fn logout_spec(session_name: Option<Seq<char>>) -> Seq<CredentialOpView> {
    let key = session_key_spec(session_name);
    seq![CredentialOpView::DeleteSecret { key }, CredentialOpView::ClearAccountsCache { key }]
}

/// Steps to persist a newly created session, given its stored form.
pub fn session_created_ops(session_name: &Option<String>, secret: String) -> (r: Vec<CredentialOp>)
    ensures
        ops_view(r@) == session_created_spec(name_view(session_name), secret@),
{
    let mut ops: Vec<CredentialOp> = Vec::new();
    ops.push(CredentialOp::StoreSecret { key: session_key(session_name), secret });
    ops.push(CredentialOp::ClearAccountsCache { key: session_key(session_name) });
    assert(ops_view(ops@) =~= session_created_spec(name_view(session_name), secret@));
    ops
}

/// Steps to log a session name out.
pub fn logout_ops(session_name: &Option<String>) -> (r: Vec<CredentialOp>)
    ensures
        ops_view(r@) == logout_spec(name_view(session_name)),
{
    let mut ops: Vec<CredentialOp> = Vec::new();
    ops.push(CredentialOp::DeleteSecret { key: session_key(session_name) });
    ops.push(CredentialOp::ClearAccountsCache { key: session_key(session_name) });
    assert(ops_view(ops@) =~= logout_spec(name_view(session_name)));
    ops
}

/// Steps to keep a fetched list of accounts for offline use.
pub fn cache_accounts_ops(session_name: &Option<String>, accounts: Vec<Account>) -> (r: Vec<
    CredentialOp,
>)
    ensures
        r@.len() == 1,
        r@[0]@ == (CredentialOpView::WriteAccountsCache {
            key: session_key_spec(name_view(session_name)),
            accounts: accounts@.map_values(|a: Account| account_view(a)),
        }),
{
    let mut ops: Vec<CredentialOp> = Vec::new();
    ops.push(CredentialOp::WriteAccountsCache { key: session_key(session_name), accounts });
    ops
}

proof fn lemma_apply_two(m: CredentialsModel, a: CredentialOpView, b: CredentialOpView)
    ensures
        apply_ops(m, seq![a, b]) == apply_op(apply_op(m, a), b),
{
    let ab = seq![a, b];
    assert(ab.drop_first() =~= seq![b]);
    assert(seq![b].drop_first() =~= Seq::<CredentialOpView>::empty());
    assert(apply_ops(apply_op(apply_op(m, a), b), Seq::<CredentialOpView>::empty()) == apply_op(
        apply_op(m, a),
        b,
    ));
    assert(apply_ops(apply_op(m, a), seq![b]) == apply_op(apply_op(m, a), b));
}

/// A session stored under a name is loaded back under that name, and
/// storing it changes what no other name loads.
pub proof fn lemma_stored_session_loads(
    m: CredentialsModel,
    session_name: Option<Seq<char>>,
    secret: Seq<char>,
    other: Option<Seq<char>>,
)
    requires
        other != session_name,
    ensures
        loaded_secret(apply_ops(m, session_created_spec(session_name, secret)), session_name)
            == Some(secret),
        loaded_secret(apply_ops(m, session_created_spec(session_name, secret)), other)
            == loaded_secret(m, other),
{
    let ops = session_created_spec(session_name, secret);
    lemma_apply_two(m, ops[0], ops[1]);
    lemma_session_keys_distinct(session_name, other);
}

/// After a logout nothing is loaded under the name, and its offline listing
/// is empty.
pub proof fn lemma_logout_forgets(m: CredentialsModel, session_name: Option<Seq<char>>)
    ensures
        loaded_secret(apply_ops(m, logout_spec(session_name)), session_name) is None,
        offline_accounts(apply_ops(m, logout_spec(session_name)), session_name).len() == 0,
{
    let ops = logout_spec(session_name);
    lemma_apply_two(m, ops[0], ops[1]);
}

/// Creating a session invalidates the accounts cache of its name: an
/// offline listing then finds no accounts until the cache is written again.
pub proof fn lemma_session_created_clears_cache(
    m: CredentialsModel,
    session_name: Option<Seq<char>>,
    secret: Seq<char>,
)
    ensures
        offline_accounts(apply_ops(m, session_created_spec(session_name, secret)), session_name)
            .len() == 0,
{
    let ops = session_created_spec(session_name, secret);
    lemma_apply_two(m, ops[0], ops[1]);
}

} // verus!
