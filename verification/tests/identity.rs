use session_identity::middleware::{
    classify_decoded, resolve_identity, resolve_identity_at, UserContext, AUTH_COOKIE_NAME,
};
use session_identity::token::{encode_claims, verify_token_at, Claims, TokenError};

const SECRET: &str = "a secret for tests";
const NOW: usize = 1_700_000_000;

fn user(id: i32, exp: usize) -> Claims {
    Claims { anonymous_id: None, user_id: Some(id), exp, iat: 0 }
}

#[test]
fn cookie_has_its_fixed_name() {
    assert_eq!(AUTH_COOKIE_NAME, "auth_token");
}

#[test]
fn no_cookie_is_anonymous() {
    assert!(matches!(resolve_identity_at(None, SECRET, NOW), UserContext::Anonymous));
    assert!(matches!(resolve_identity(None, SECRET), UserContext::Anonymous));
}

#[test]
fn valid_cookie_is_authenticated() {
    let token = encode_claims(&user(42, NOW + 100), SECRET).unwrap();
    match resolve_identity_at(Some(&token), SECRET, NOW) {
        UserContext::Authenticated(claims) => {
            assert_eq!(claims.user_id, Some(42));
            assert_eq!(claims.exp, NOW + 100);
        }
        other => panic!("expected an authenticated identity, got {:?}", other),
    }
}

#[test]
fn lapsed_cookie_is_anonymous_not_invalid() {
    let token = encode_claims(&user(42, NOW - 1), SECRET).unwrap();
    assert!(matches!(resolve_identity_at(Some(&token), SECRET, NOW), UserContext::Anonymous));
}

#[test]
fn garbage_cookie_is_invalid() {
    assert!(matches!(resolve_identity_at(Some("garbage"), SECRET, NOW), UserContext::InvalidToken));
    assert!(matches!(resolve_identity_at(Some(""), SECRET, NOW), UserContext::InvalidToken));
    assert!(matches!(resolve_identity(Some("a.b.c"), SECRET), UserContext::InvalidToken));
}

#[test]
fn cookie_signed_with_another_secret_is_invalid() {
    let token = encode_claims(&user(42, NOW + 100), "another secret").unwrap();
    let context = resolve_identity_at(Some(&token), SECRET, NOW);
    assert!(matches!(context, UserContext::InvalidToken));
    assert!(context.needs_new_token());
    assert!(!context.is_authenticated());
    assert!(context.get_claims().is_none());
}

#[test]
fn fresh_cookie_resolves_against_the_clock() {
    let token = encode_claims(&user(5, usize::MAX), SECRET).unwrap();
    let context = resolve_identity(Some(&token), SECRET);
    assert!(context.is_authenticated());
    let token = encode_claims(&user(5, 1), SECRET).unwrap();
    assert!(matches!(resolve_identity(Some(&token), SECRET), UserContext::Anonymous));
}

#[test]
fn decoding_outcomes_classify_three_ways() {
    assert!(matches!(classify_decoded(Ok(user(1, 2))), UserContext::Authenticated(_)));
    assert!(matches!(classify_decoded(Err(TokenError::ExpiredToken)), UserContext::Anonymous));
    assert!(matches!(classify_decoded(Err(TokenError::InvalidToken)), UserContext::InvalidToken));
    assert!(matches!(
        classify_decoded(Err(TokenError::GenerationFailed)),
        UserContext::InvalidToken
    ));
    assert!(matches!(
        classify_decoded(verify_token_at("x", SECRET, NOW)),
        UserContext::InvalidToken
    ));
}

#[test]
fn accessors_follow_the_variant() {
    let authenticated = UserContext::Authenticated(user(7, 100));
    assert!(authenticated.is_authenticated());
    assert!(!authenticated.needs_new_token());
    assert_eq!(authenticated.get_claims().unwrap().user_id, Some(7));

    assert!(!UserContext::Anonymous.is_authenticated());
    assert!(UserContext::Anonymous.needs_new_token());
    assert!(UserContext::Anonymous.get_claims().is_none());

    assert!(!UserContext::InvalidToken.is_authenticated());
    assert!(UserContext::InvalidToken.needs_new_token());
    assert!(UserContext::InvalidToken.get_claims().is_none());
}

#[test]
fn clone_keeps_the_identity() {
    let copy = UserContext::Authenticated(user(7, 100)).clone();
    assert_eq!(copy.get_claims().unwrap().user_id, Some(7));
    assert_eq!(copy.get_claims().unwrap().exp, 100);
    assert!(matches!(UserContext::Anonymous.clone(), UserContext::Anonymous));
    assert!(matches!(UserContext::InvalidToken.clone(), UserContext::InvalidToken));
}
