use auth_rs::redirect::{parse_redirect, Redirects};

#[test]
fn launcher_redirect_is_recognized() {
    let r = parse_redirect("https://secure.runescape.com/m=weblogin/launcher-redirect?code=ABC&state=S1");
    match r {
        Some(Redirects::Auth { code, state }) => {
            assert_eq!(code, "ABC");
            assert_eq!(state, "S1");
        }
        other => panic!("unexpected {:?}", other.is_some()),
    }
}

#[test]
fn launcher_redirect_decodes_parameters() {
    let r = parse_redirect("https://secure.runescape.com/m=weblogin/launcher-redirect?state=a%20b&code=x+y");
    match r {
        Some(Redirects::Auth { code, state }) => {
            assert_eq!(code, "x y");
            assert_eq!(state, "a b");
        }
        _ => panic!("expected a launcher redirect"),
    }
}

#[test]
fn launcher_redirect_takes_first_of_repeated_keys() {
    let r = parse_redirect("https://secure.runescape.com/m=weblogin/launcher-redirect?code=1&code=2&state=s");
    assert!(matches!(r, Some(Redirects::Auth { ref code, .. }) if code == "1"));
}

#[test]
fn wrong_scheme_is_not_a_launcher_redirect() {
    let r = parse_redirect("http://secure.runescape.com/m=weblogin/launcher-redirect?code=ABC&state=S1");
    assert!(r.is_none());
}

#[test]
fn wrong_host_is_not_a_launcher_redirect() {
    let r = parse_redirect("https://evil.example.com/m=weblogin/launcher-redirect?code=ABC&state=S1");
    assert!(r.is_none());
}

#[test]
fn wrong_path_is_not_a_launcher_redirect() {
    let r = parse_redirect("https://secure.runescape.com/m=weblogin/other?code=ABC&state=S1");
    assert!(r.is_none());
}

#[test]
fn launcher_redirect_without_state_is_none() {
    let r = parse_redirect("https://secure.runescape.com/m=weblogin/launcher-redirect?code=ABC");
    assert!(r.is_none());
}

#[test]
fn launcher_redirect_without_code_is_none() {
    let r = parse_redirect("https://secure.runescape.com/m=weblogin/launcher-redirect?state=S1");
    assert!(r.is_none());
}

#[test]
fn consent_redirect_in_fragment_is_recognized() {
    let r = parse_redirect("http://localhost/#id_token=XYZ&state=S2&code=c");
    match r {
        Some(Redirects::Consent { id_token, state }) => {
            assert_eq!(id_token, "XYZ");
            assert_eq!(state, "S2");
        }
        _ => panic!("expected a consent redirect"),
    }
}

#[test]
fn consent_fragment_reads_as_query() {
    let a = parse_redirect("http://localhost#id_token=XYZ&state=S2");
    let b = parse_redirect("http://localhost?id_token=XYZ&state=S2");
    match (a, b) {
        (
            Some(Redirects::Consent { id_token: t1, state: s1 }),
            Some(Redirects::Consent { id_token: t2, state: s2 }),
        ) => {
            assert_eq!(t1, t2);
            assert_eq!(s1, s2);
            assert_eq!(t1, "XYZ");
            assert_eq!(s1, "S2");
        }
        _ => panic!("expected two consent redirects"),
    }
}

#[test]
fn consent_redirect_on_other_host_is_none() {
    assert!(parse_redirect("http://example.com/#id_token=XYZ&state=S2").is_none());
}

#[test]
fn consent_redirect_without_id_token_is_none() {
    assert!(parse_redirect("http://localhost/#state=S2").is_none());
}

#[test]
fn unparsable_url_is_none() {
    assert!(parse_redirect("not a url").is_none());
    assert!(parse_redirect("").is_none());
}

#[test]
fn ordinary_page_is_none() {
    assert!(parse_redirect("https://account.jagex.com/login?code=ABC&state=S1").is_none());
}
