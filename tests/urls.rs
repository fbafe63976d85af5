use auth_rs::auth_url::{
    auth_url_for, consent_url_for, create_auth_url, create_consent_url, AuthConfig, AuthOptions,
};
use auth_rs::error::AuthError;

fn config() -> AuthConfig {
    AuthConfig {
        origin: "https://account.jagex.com".to_string(),
        client_id: "com_jagex_auth_desktop_launcher".to_string(),
        redirect_uri: "https://secure.runescape.com/m=weblogin/launcher-redirect".to_string(),
    }
}

#[test]
fn auth_url_has_exact_query() {
    let opts = AuthOptions {
        state: "S1".to_string(),
        challenge: "CH".to_string(),
        verifier: "V".to_string(),
    };
    let u = auth_url_for(&config(), &opts).unwrap();
    assert_eq!(
        u,
        "https://account.jagex.com/oauth2/auth?flow=launcher&response_type=code\
         &client_id=com_jagex_auth_desktop_launcher\
         &redirect_uri=https%3A%2F%2Fsecure.runescape.com%2Fm%3Dweblogin%2Flauncher-redirect\
         &code_challenge=CH&code_challenge_method=S256&prompt=login\
         &scope=openid+offline+gamesso.token.create+user.profile.read&state=S1"
    );
}

#[test]
fn consent_url_has_exact_query() {
    let u = consent_url_for(&config(), "ID", "N", "S2").unwrap();
    assert_eq!(
        u,
        "https://account.jagex.com/oauth2/auth?id_token_hint=ID&nonce=N&prompt=consent\
         &response_type=id_token+code&client_id=1fddee4e-b100-4f4e-b2b0-097f9088f9d2\
         &redirect_uri=http%3A%2F%2Flocalhost&scope=openid+offline&state=S2"
    );
}

#[test]
fn invalid_origin_is_invalid_url() {
    let mut c = config();
    c.origin = "not a url".to_string();
    let r = consent_url_for(&c, "ID", "N", "S2");
    assert!(matches!(r, Err(AuthError::InvalidUrl(_))));
    assert!(matches!(create_auth_url(&c), Err(AuthError::InvalidUrl(_))));
}

#[test]
fn fresh_options_hold_pkce_values() {
    let o = AuthOptions::new().unwrap();
    assert_eq!(o.verifier.len(), 43);
    assert_eq!(o.state.len(), 36);
    assert_eq!(o.challenge, pkce::code_challenge(o.verifier.as_bytes()));
    assert_ne!(o.challenge, o.verifier);
    let other = AuthOptions::new().unwrap();
    assert_ne!(o.state, other.state);
}

#[test]
fn create_auth_url_carries_attempt_state() {
    let (u, o) = create_auth_url(&config()).unwrap();
    let parsed = url::Url::parse(&u).unwrap();
    let state = parsed.query_pairs().find(|q| q.0 == "state").map(|q| q.1.into_owned());
    let challenge = parsed
        .query_pairs()
        .find(|q| q.0 == "code_challenge")
        .map(|q| q.1.into_owned());
    assert_eq!(state, Some(o.state.clone()));
    assert_eq!(challenge, Some(o.challenge.clone()));
}

#[test]
fn consent_states_are_fresh() {
    let (u1, s1) = create_consent_url(&config(), "ID").unwrap();
    let (u2, s2) = create_consent_url(&config(), "ID").unwrap();
    assert_ne!(s1, s2);
    assert_ne!(u1, u2);
    assert!(u1.contains(&format!("state={}", s1)));
}

fn is_uuid_v4_text(s: &str) -> bool {
    let c: Vec<char> = s.chars().collect();
    c.len() == 36
        && c.iter().enumerate().all(|(i, ch)| {
            if [8, 13, 18, 23].contains(&i) {
                *ch == '-'
            } else {
                ch.is_ascii_digit() || ('a'..='f').contains(ch)
            }
        })
        && c[14] == '4'
        && ['8', '9', 'a', 'b'].contains(&c[19])
}

#[test]
fn fresh_values_are_uuid_texts() {
    let o = AuthOptions::new().unwrap();
    assert!(is_uuid_v4_text(&o.state));
    assert!(o
        .verifier
        .bytes()
        .all(|b| b.is_ascii_alphanumeric() || b"-._~".contains(&b)));
    let (u, s) = create_consent_url(&config(), "ID").unwrap();
    assert!(is_uuid_v4_text(&s));
    let parsed = url::Url::parse(&u).unwrap();
    let nonce = parsed.query_pairs().find(|q| q.0 == "nonce").map(|q| q.1.into_owned()).unwrap();
    assert!(is_uuid_v4_text(&nonce));
}
