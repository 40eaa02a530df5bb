use session_identity::middleware::{resolve_identity_at, UserContext};
use session_identity::routes::themes::{
    auth_cookie, ensure_user_token, ensure_user_token_at, is_valid_theme, plan_store,
    plan_theme_write, plan_theme_write_at, theme_failure_response, theme_lookup_key,
    theme_or_default, theme_read_response, theme_write_response, wants_spare_id, EnsuredIdentity,
    ThemeForm, ThemeLookup, ThemeWrite, AUTH_COOKIE_MAX_AGE_SECS, DEFAULT_THEME,
};
use session_identity::token::{encode_claims, verify_token_at, Claims};

const SECRET: &str = "a secret for tests";
const NOW: usize = 1_700_000_000;
const DAY: usize = 24 * 60 * 60;

fn form(theme: &str) -> ThemeForm {
    ThemeForm { theme: theme.to_string() }
}

fn user(id: i32, exp: usize) -> UserContext {
    UserContext::Authenticated(Claims { anonymous_id: None, user_id: Some(id), exp, iat: 0 })
}

fn visitor(id: &str, exp: usize) -> UserContext {
    UserContext::Authenticated(Claims {
        anonymous_id: Some(id.to_string()),
        user_id: None,
        exp,
        iat: 0,
    })
}

#[test]
fn themes_are_light_and_dark() {
    assert!(is_valid_theme("light"));
    assert!(is_valid_theme("dark"));
    for other in ["purple", "", "Light", "DARK", "dark ", " light", "ligh", "darkk", "light\n"] {
        assert!(!is_valid_theme(other));
    }
    assert_eq!(DEFAULT_THEME, "dark");
}

#[test]
fn read_without_cookie_gives_default_and_no_key() {
    let context = resolve_identity_at(None, SECRET, NOW);
    assert!(theme_lookup_key(&context).is_none());
    let response = theme_read_response(ThemeLookup::Absent);
    assert_eq!(response.theme, "dark");
    assert!(response.success);
}

#[test]
fn read_degrades_to_the_default_when_storage_fails() {
    let response = theme_read_response(ThemeLookup::Unavailable);
    assert_eq!(response.theme, "dark");
    assert!(response.success);
    assert_eq!(theme_or_default(ThemeLookup::Unavailable), "dark");
}

#[test]
fn read_gives_stored_theme() {
    let response = theme_read_response(ThemeLookup::Found("light".to_string()));
    assert_eq!(response.theme, "light");
    assert!(response.success);
    assert_eq!(theme_or_default(ThemeLookup::Found("sepia".to_string())), "sepia");
    assert_eq!(theme_or_default(ThemeLookup::Absent), "dark");
}

#[test]
fn lookup_key_is_that_of_the_claims() {
    assert_eq!(theme_lookup_key(&user(42, NOW)), Some("user_42".to_string()));
    assert_eq!(theme_lookup_key(&visitor("v1", NOW)), Some("anon_v1".to_string()));
    assert_eq!(theme_lookup_key(&UserContext::Anonymous), None);
    assert_eq!(theme_lookup_key(&UserContext::InvalidToken), None);
}

#[test]
fn purple_is_rejected_before_anything_else() {
    let planned = plan_theme_write_at(&form("purple"), &user(42, NOW + 30 * DAY), SECRET, NOW, "s");
    assert!(matches!(planned, ThemeWrite::Rejected));
    let planned = plan_theme_write(&form("purple"), &UserContext::Anonymous, SECRET);
    assert!(matches!(planned, ThemeWrite::Rejected));
    let response = theme_failure_response();
    assert_eq!(response.theme, "dark");
    assert!(!response.success);
}

#[test]
fn write_responses_follow_storage() {
    let stored = theme_write_response("light".to_string(), true);
    assert_eq!(stored.theme, "light");
    assert!(stored.success);
    let failed = theme_write_response("light".to_string(), false);
    assert_eq!(failed.theme, "dark");
    assert!(!failed.success);
}

#[test]
fn cookie_carries_the_fixed_attributes() {
    let cookie = auth_cookie("the.token.text");
    assert_eq!(cookie.name, "auth_token");
    assert_eq!(cookie.value, "the.token.text");
    assert!(cookie.http_only);
    assert!(cookie.secure);
    assert!(cookie.same_site_strict);
    assert_eq!(cookie.max_age_secs, 365 * 24 * 60 * 60);
    assert_eq!(cookie.max_age_secs, AUTH_COOKIE_MAX_AGE_SECS);
    assert_eq!(cookie.path, "/");
}

#[test]
fn fresh_identity_is_kept_without_a_token() {
    let ensured = ensure_user_token_at(&user(42, NOW + 7 * DAY), SECRET, NOW, "spare").unwrap();
    assert!(ensured.new_token.is_none());
    assert_eq!(ensured.claims.user_id, Some(42));
    assert_eq!(ensured.claims.exp, NOW + 7 * DAY);
    assert_eq!(ensured.claims.iat, 0);
}

#[test]
fn anonymous_token_near_expiry_is_rotated_for_the_same_visitor() {
    let old_exp = NOW + 7 * DAY - 1;
    let ensured = ensure_user_token_at(&visitor("v-123", old_exp), SECRET, NOW, "spare").unwrap();
    let token = ensured.new_token.unwrap();
    let decoded = verify_token_at(&token, SECRET, NOW).unwrap();
    assert_eq!(decoded.anonymous_id, Some("v-123".to_string()));
    assert_eq!(decoded.user_id, None);
    assert!(decoded.exp > old_exp);
    assert_eq!(decoded.exp, NOW + 365 * DAY);
    assert_eq!(decoded.iat, NOW);
    assert_eq!(ensured.claims.anonymous_id, Some("v-123".to_string()));
    assert_eq!(ensured.claims.exp, NOW + 365 * DAY);
}

#[test]
fn user_token_near_expiry_is_rotated_for_the_same_user() {
    let ensured = ensure_user_token_at(&user(42, NOW + DAY), SECRET, NOW, "spare").unwrap();
    let token = ensured.new_token.unwrap();
    let decoded = verify_token_at(&token, SECRET, NOW).unwrap();
    assert_eq!(decoded.user_id, Some(42));
    assert_eq!(decoded.anonymous_id, None);
    assert_eq!(decoded.exp, NOW + 30 * DAY);
    assert_eq!(ensured.claims.user_id, Some(42));
    assert_eq!(ensured.claims.iat, NOW);
}

#[test]
fn anonymous_and_invalid_identities_start_anew() {
    for context in [UserContext::Anonymous, UserContext::InvalidToken] {
        let ensured = ensure_user_token_at(&context, SECRET, NOW, "brand-new").unwrap();
        assert_eq!(ensured.claims.anonymous_id, Some("brand-new".to_string()));
        assert_eq!(ensured.claims.user_id, None);
        assert_eq!(ensured.claims.exp, NOW + 365 * DAY);
        let decoded = verify_token_at(&ensured.new_token.unwrap(), SECRET, NOW).unwrap();
        assert_eq!(decoded.anonymous_id, Some("brand-new".to_string()));
    }
}

#[test]
fn forged_cookie_leads_to_a_fresh_anonymous_identity() {
    let claims = Claims { anonymous_id: None, user_id: Some(1), exp: NOW + DAY, iat: 0 };
    let forged = encode_claims(&claims, "another secret").unwrap();
    let context = resolve_identity_at(Some(&forged), SECRET, NOW);
    assert!(matches!(context, UserContext::InvalidToken));
    let ensured = ensure_user_token(&context, SECRET).unwrap();
    assert!(ensured.claims.user_id.is_none());
    assert_eq!(ensured.claims.anonymous_id.as_ref().unwrap().len(), 36);
    assert!(ensured.new_token.is_some());
    let again = ensure_user_token(&context, SECRET).unwrap();
    assert_ne!(again.claims.anonymous_id, ensured.claims.anonymous_id);
}

#[test]
fn subjectless_identity_due_for_rotation_starts_anew() {
    let context =
        UserContext::Authenticated(Claims { anonymous_id: None, user_id: None, exp: NOW, iat: 0 });
    assert!(wants_spare_id(&context, NOW));
    let ensured = ensure_user_token_at(&context, SECRET, NOW, "spare").unwrap();
    assert_eq!(ensured.claims.anonymous_id, Some("spare".to_string()));
}

#[test]
fn spare_identifier_is_wanted_only_without_a_subject_to_keep() {
    assert!(wants_spare_id(&UserContext::Anonymous, NOW));
    assert!(wants_spare_id(&UserContext::InvalidToken, NOW));
    assert!(!wants_spare_id(&user(1, NOW), NOW));
    assert!(!wants_spare_id(&visitor("v", NOW), NOW));
    assert!(!wants_spare_id(&user(1, NOW + 30 * DAY), NOW));
    let subjectless = |exp| {
        UserContext::Authenticated(Claims { anonymous_id: None, user_id: None, exp, iat: 0 })
    };
    assert!(wants_spare_id(&subjectless(NOW + DAY), NOW));
    assert!(!wants_spare_id(&subjectless(NOW + 30 * DAY), NOW));
}

#[test]
fn minting_failure_rejects_the_write() {
    let planned = plan_theme_write_at(&form("light"), &UserContext::Anonymous, SECRET, usize::MAX, "s");
    assert!(matches!(planned, ThemeWrite::Rejected));
    assert!(ensure_user_token_at(&UserContext::Anonymous, SECRET, usize::MAX, "s").is_err());
}

#[test]
fn write_for_user_42_goes_under_one_key() {
    let context = user(42, NOW + 30 * DAY);
    let first = plan_theme_write_at(&form("light"), &context, SECRET, NOW, "spare");
    let second = plan_theme_write_at(&form("dark"), &context, SECRET, NOW + 5, "other");
    match (first, second) {
        (
            ThemeWrite::Store { preference_key: first_key, theme: first_theme, cookie: first_cookie },
            ThemeWrite::Store { preference_key: second_key, theme: second_theme, cookie: second_cookie },
        ) => {
            assert_eq!(first_key, "user_42");
            assert_eq!(first_theme, "light");
            assert!(first_cookie.is_none());
            assert_eq!(second_key, "user_42");
            assert_eq!(second_theme, "dark");
            assert!(second_cookie.is_none());
        }
        other => panic!("expected two stores, got {:?}", other),
    }
}

#[test]
fn write_for_a_new_visitor_sets_the_cookie() {
    match plan_theme_write_at(&form("light"), &UserContext::Anonymous, SECRET, NOW, "new-id") {
        ThemeWrite::Store { preference_key, theme, cookie } => {
            assert_eq!(preference_key, "anon_new-id");
            assert_eq!(theme, "light");
            let cookie = cookie.unwrap();
            assert_eq!(cookie.name, "auth_token");
            assert!(cookie.http_only && cookie.secure && cookie.same_site_strict);
            let decoded = verify_token_at(&cookie.value, SECRET, NOW).unwrap();
            assert_eq!(decoded.anonymous_id, Some("new-id".to_string()));
        }
        other => panic!("expected a store, got {:?}", other),
    }
}

#[test]
fn write_against_the_clock_stores_for_a_fresh_visitor() {
    match plan_theme_write(&form("dark"), &UserContext::Anonymous, SECRET) {
        ThemeWrite::Store { preference_key, theme, cookie } => {
            assert!(preference_key.starts_with("anon_"));
            assert_eq!(preference_key.len(), 5 + 36);
            assert_eq!(theme, "dark");
            assert!(cookie.is_some());
        }
        other => panic!("expected a store, got {:?}", other),
    }
}

#[test]
fn minted_token_decodes_to_the_claims_handed_back() {
    let contexts = vec![
        UserContext::Anonymous,
        UserContext::InvalidToken,
        user(42, NOW + DAY),
        visitor("v-9", NOW),
    ];
    for context in contexts {
        let ensured = ensure_user_token_at(&context, SECRET, NOW, "spare").unwrap();
        let token = ensured.new_token.unwrap();
        let decoded = verify_token_at(&token, SECRET, ensured.claims.exp).unwrap();
        assert_eq!(decoded.anonymous_id, ensured.claims.anonymous_id);
        assert_eq!(decoded.user_id, ensured.claims.user_id);
        assert_eq!(decoded.exp, ensured.claims.exp);
        assert_eq!(decoded.iat, ensured.claims.iat);
        assert!(verify_token_at(&token, SECRET, ensured.claims.exp + 1).is_err());
    }
}

#[test]
fn planned_cookie_carries_the_identity_stored_under() {
    for context in [UserContext::Anonymous, user(42, NOW + DAY), visitor("v-9", NOW)] {
        match plan_theme_write_at(&form("light"), &context, SECRET, NOW, "spare") {
            ThemeWrite::Store { preference_key, cookie, .. } => {
                let decoded = verify_token_at(&cookie.unwrap().value, SECRET, NOW).unwrap();
                assert_eq!(session_identity::token::get_preference_key(&decoded), preference_key);
            }
            other => panic!("expected a store, got {:?}", other),
        }
    }
}

#[test]
fn store_is_planned_from_the_ensured_identity() {
    let ensured = EnsuredIdentity {
        claims: Claims { anonymous_id: None, user_id: None, exp: 5, iat: 1 },
        new_token: Some("tok".to_string()),
    };
    match plan_store("light", ensured, "spare") {
        ThemeWrite::Store { preference_key, theme, cookie } => {
            assert_eq!(preference_key, "anon_spare");
            assert_eq!(theme, "light");
            assert_eq!(cookie.unwrap().value, "tok");
        }
        other => panic!("expected a store, got {:?}", other),
    }
}
