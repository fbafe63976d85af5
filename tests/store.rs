use auth_rs::client::{
    accounts_source, bearer, http_status_outcome, select_account, session_request_body,
    token_form, Account, AccountsSource, Session,
};
use auth_rs::auth_url::AuthConfig;
use auth_rs::error::AuthError;
use auth_rs::store::{
    cache_accounts_ops, cache_clear_outcome, clear_outcome, load_outcome, logout_ops,
    session_created_ops, session_key, session_or_missing, store_outcome, CredentialOp,
    StoreFailure,
};

#[test]
fn default_session_key() {
    assert_eq!(session_key(&None), "session");
}

#[test]
fn named_session_key() {
    assert_eq!(session_key(&Some("alt".to_string())), "named-session-alt");
    assert_ne!(session_key(&Some("a".to_string())), session_key(&Some("b".to_string())));
    assert_ne!(session_key(&Some(String::new())), session_key(&None));
}

#[test]
fn created_session_is_stored_then_cache_cleared() {
    let ops = session_created_ops(&Some("main".to_string()), "{\"sessionId\":\"sid\"}".to_string());
    assert_eq!(ops.len(), 2);
    assert!(matches!(&ops[0], CredentialOp::StoreSecret { key, secret }
        if key == "named-session-main" && secret == "{\"sessionId\":\"sid\"}"));
    assert!(matches!(&ops[1], CredentialOp::ClearAccountsCache { key } if key == "named-session-main"));
}

#[test]
fn logout_deletes_secret_then_cache() {
    let ops = logout_ops(&None);
    assert_eq!(ops.len(), 2);
    assert!(matches!(&ops[0], CredentialOp::DeleteSecret { key } if key == "session"));
    assert!(matches!(&ops[1], CredentialOp::ClearAccountsCache { key } if key == "session"));
}

#[test]
fn fetched_accounts_are_cached_under_key() {
    let accounts = vec![Account {
        account_id: "1".to_string(),
        display_name: "Zezima".to_string(),
        user_hash: "h".to_string(),
    }];
    let ops = cache_accounts_ops(&Some("alt".to_string()), accounts.clone());
    assert_eq!(ops.len(), 1);
    assert!(matches!(&ops[0], CredentialOp::WriteAccountsCache { key, accounts: a }
        if key == "named-session-alt" && *a == accounts));
}

#[test]
fn missing_entry_loads_as_none() {
    assert!(matches!(load_outcome(Err(StoreFailure::NoEntry)), Ok(None)));
    assert!(matches!(load_outcome(Ok("x".to_string())), Ok(Some(ref s)) if s == "x"));
}

#[test]
fn store_failures_map_to_errors() {
    assert!(matches!(
        load_outcome(Err(StoreFailure::PlatformFailure("p".to_string()))),
        Err(AuthError::CredentialStoreError(ref m)) if m == "p"
    ));
    assert!(matches!(
        store_outcome(Err(StoreFailure::Other("o".to_string()))),
        Err(AuthError::KeyringError(ref m)) if m == "o"
    ));
    assert!(matches!(store_outcome(Err(StoreFailure::NoEntry)), Err(AuthError::SessionNotFound)));
    assert!(matches!(AuthError::from(StoreFailure::NoEntry), AuthError::SessionNotFound));
}

#[test]
fn missing_entry_clears_fine() {
    assert!(clear_outcome(Err(StoreFailure::NoEntry)).is_ok());
    assert!(clear_outcome(Ok(())).is_ok());
    assert!(clear_outcome(Err(StoreFailure::Other("o".to_string()))).is_err());
}

#[test]
fn missing_cache_dir_clears_fine() {
    assert!(cache_clear_outcome(Err(AuthError::NoCacheDir)).is_ok());
    assert!(matches!(
        cache_clear_outcome(Err(AuthError::FileSystemError("e".to_string()))),
        Err(AuthError::FileSystemError(_))
    ));
}

#[test]
fn session_lookup() {
    let s = session_or_missing(Some(Session { session_id: "sid".to_string() })).unwrap();
    assert_eq!(s.session_id, "sid");
    assert!(matches!(session_or_missing(None), Err(AuthError::SessionNotFound)));
}

#[test]
fn token_form_fields() {
    let config = AuthConfig {
        origin: "https://account.jagex.com".to_string(),
        client_id: "cid".to_string(),
        redirect_uri: "https://r/".to_string(),
    };
    let f = token_form(&config, "ABC", "V");
    let expected: Vec<(String, String)> = vec![
        ("grant_type".to_string(), "authorization_code".to_string()),
        ("client_id".to_string(), "cid".to_string()),
        ("code".to_string(), "ABC".to_string()),
        ("code_verifier".to_string(), "V".to_string()),
        ("redirect_uri".to_string(), "https://r/".to_string()),
    ];
    assert_eq!(f, expected);
}

#[test]
fn session_body_is_json() {
    assert_eq!(session_request_body("XYZ").unwrap(), "{\"idToken\":\"XYZ\"}");
    assert_eq!(session_request_body("a\"b").unwrap(), "{\"idToken\":\"a\\\"b\"}");
}

#[test]
fn bearer_header() {
    assert_eq!(bearer("sid"), "Bearer sid");
}

#[test]
fn accounts_offline_read_cache() {
    let s = Session { session_id: "sid".to_string() };
    assert!(matches!(accounts_source(Ok(s), true, true), Ok(AccountsSource::Cache)));
}

#[test]
fn accounts_online_use_bearer() {
    let s = Session { session_id: "sid".to_string() };
    match accounts_source(Ok(s), false, true) {
        Ok(AccountsSource::Remote { authorization, write_cache }) => {
            assert_eq!(authorization, "Bearer sid");
            assert!(write_cache);
        }
        _ => panic!("expected the endpoint"),
    }
}

#[test]
fn accounts_need_session() {
    assert!(matches!(
        accounts_source(Err(AuthError::SessionNotFound), true, false),
        Err(AuthError::SessionNotFound)
    ));
}

#[test]
fn session_body_escapes_control_characters() {
    assert_eq!(
        session_request_body("a\u{1}b\n\\").unwrap(),
        "{\"idToken\":\"a\\u0001b\\n\\\\\"}"
    );
}

#[test]
fn http_status_decides_use_of_body() {
    assert!(http_status_outcome(200).is_ok());
    assert!(http_status_outcome(299).is_ok());
    assert!(matches!(
        http_status_outcome(401),
        Err(AuthError::InvalidResponse(ref m)) if m == "Unexpected HTTP status"
    ));
    assert!(http_status_outcome(199).is_err());
    assert!(http_status_outcome(300).is_err());
}

fn account(id: &str, name: &str) -> Account {
    Account { account_id: id.to_string(), display_name: name.to_string(), user_hash: "h".to_string() }
}

#[test]
fn select_account_takes_first_match() {
    let accounts = vec![account("1", "A"), account("2", "B"), account("2", "C")];
    assert_eq!(select_account(&accounts, "2").unwrap(), 1);
}

#[test]
fn select_account_lists_available_characters() {
    let accounts = vec![account("1", "A"), account("2", "B")];
    match select_account(&accounts, "9") {
        Err(AuthError::CharacterNotFound { character_id, available_chars }) => {
            assert_eq!(character_id, "9");
            assert_eq!(available_chars, "  • A (ID: 1)\n  • B (ID: 2)");
        }
        _ => panic!("expected CharacterNotFound"),
    }
}
