//! Theme preference: issuing the session that a write needs, validating the
//! value, and shaping the responses.

use crate::middleware::{UserContext, UserContextView, AUTH_COOKIE_NAME};
use crate::outside::{fresh_anonymous_id, unix_now};
use crate::text::same_text;
use crate::token::{
    anonymous_claims_at, decodes_to, expired_at, generate_anonymous_token_at,
    generate_user_token_at, get_preference_key, has_subject, mint_outcome, needs_refresh,
    preference_key_of, preference_key_with, refresh_due, user_claims_at, verify_token_at,
    well_issued, Claims, ClaimsView, TokenError,
};
use vstd::prelude::*;

verus! {

/// The theme of a visitor who has stored none.
pub const DEFAULT_THEME: &'static str = "dark";

/// Lifetime of the session cookie: 365 days, in seconds.
pub const AUTH_COOKIE_MAX_AGE_SECS: u64 = 31536000;

/// The body of a theme write.
#[derive(Debug)]
pub struct ThemeForm {
    pub theme: String,
}

/// The body of every theme response.
#[derive(Debug)]
pub struct ThemeResponse {
    pub theme: String,
    pub success: bool,
}

/// Whether a value is one of the themes that can be stored.
pub open spec fn valid_theme(theme: Seq<char>) -> bool {
    theme == "light"@ || theme == "dark"@
}

/// Whether a value is one of the themes that can be stored.
pub fn is_valid_theme(theme: &str) -> (valid: bool)
    ensures
        valid == valid_theme(theme@),
{
    same_text(theme, "light") || same_text(theme, "dark")
}

/// The session cookie as it is written back to the client.
#[derive(Debug)]
pub struct AuthCookie {
    pub name: String,
    pub value: String,
    pub http_only: bool,
    pub secure: bool,
    pub same_site_strict: bool,
    pub max_age_secs: u64,
    pub path: String,
}

/// Whether a cookie is the session cookie for a token: named `auth_token`,
/// http-only, secure, `SameSite=Strict`, for every path, kept for 365 days.
pub open spec fn is_auth_cookie(cookie: AuthCookie, token: Seq<char>) -> bool {
    &&& cookie.name@ == AUTH_COOKIE_NAME@
    &&& cookie.value@ == token
    &&& cookie.http_only
    &&& cookie.secure
    &&& cookie.same_site_strict
    &&& cookie.max_age_secs == 365 * 24 * 60 * 60
    &&& cookie.path@ == "/"@
}

/// Builds the session cookie for a token.
pub fn auth_cookie(token: &str) -> (cookie: AuthCookie)
    ensures
        is_auth_cookie(cookie, token@),
{
    AuthCookie {
        name: String::from_str(AUTH_COOKIE_NAME),
        value: String::from_str(token),
        http_only: true,
        secure: true,
        same_site_strict: true,
        max_age_secs: AUTH_COOKIE_MAX_AGE_SECS,
        path: String::from_str("/"),
    }
}

/// The identity that a write goes by, and the token to set as a cookie where
/// one was minted.
#[derive(Debug)]
pub struct EnsuredIdentity {
    pub claims: Claims,
    pub new_token: Option<String>,
}

/// Mathematical model of [`EnsuredIdentity`].
pub ghost struct EnsuredIdentityView {
    pub claims: ClaimsView,
    pub new_token: Option<Seq<char>>,
}

impl View for EnsuredIdentity {
    type V = EnsuredIdentityView;

    open spec fn view(&self) -> EnsuredIdentityView {
        EnsuredIdentityView {
            claims: self.claims@,
            new_token: match self.new_token {
                Some(token) => Some(token@),
                None => None,
            },
        }
    }
}

/// Whether an identity needs a new token at `now`: always, unless it is
/// authenticated by a token that is not yet due for rotation.
pub open spec fn mint_due(context: UserContextView, now: nat) -> bool {
    match context {
        UserContextView::Authenticated(claims) => refresh_due(claims.exp, now),
        _ => true,
    }
}

/// The claims of the token that is minted for an identity at `now`. A
/// rotation keeps the subject: the user id where there is one, else the
/// anonymous identifier. Without a subject to keep, a new anonymous identity
/// starts under `spare_id`.
pub open spec fn minted_claims(
    context: UserContextView,
    now: nat,
    spare_id: Seq<char>,
) -> ClaimsView {
    match context {
        UserContextView::Authenticated(claims) => match claims.user_id {
            Some(user_id) => user_claims_at(user_id, now),
            None => match claims.anonymous_id {
                Some(anonymous_id) => anonymous_claims_at(anonymous_id, now),
                None => anonymous_claims_at(spare_id, now),
            },
        },
        _ => anonymous_claims_at(spare_id, now),
    }
}

/// What ensuring an identity yields at `now`.
pub open spec fn ensure_outcome(
    context: UserContextView,
    secret: Seq<char>,
    now: nat,
    spare_id: Seq<char>,
) -> Result<EnsuredIdentityView, TokenError> {
    if mint_due(context, now) {
        match mint_outcome(minted_claims(context, now, spare_id), secret) {
            Ok(token) => Ok(
                EnsuredIdentityView {
                    claims: minted_claims(context, now, spare_id),
                    new_token: Some(token),
                },
            ),
            Err(error) => Err(error),
        }
    } else {
        Ok(EnsuredIdentityView { claims: context->Authenticated_0, new_token: None })
    }
}

/// Whether the token that was minted, if one was, stands for the claims
/// handed back: verified against the secret it decodes to exactly those
/// claims up to their expiry, and is found expired after it.
pub open spec fn token_in_force(ensured: EnsuredIdentityView, secret: Seq<char>) -> bool {
    ensured.new_token matches Some(token) ==> decodes_to(token, secret, ensured.claims)
}

/// Whether a result of ensuring an identity is the given outcome, by view.
pub open spec fn is_ensure_outcome(
    result: Result<EnsuredIdentity, TokenError>,
    outcome: Result<EnsuredIdentityView, TokenError>,
) -> bool {
    match result {
        Ok(ensured) => outcome == Ok::<EnsuredIdentityView, TokenError>(ensured@),
        Err(error) => outcome == Err::<EnsuredIdentityView, TokenError>(error),
    }
}

/// A rotation keeps the preference key: the token minted for an identity
/// that names a subject leads to the key that its old token led to.
pub proof fn lemma_rotation_keeps_preference_key(
    claims: ClaimsView,
    now: nat,
    spare_id: Seq<char>,
    fallback: Seq<char>,
)
    requires
        has_subject(claims),
    ensures
        preference_key_of(
            minted_claims(UserContextView::Authenticated(claims), now, spare_id),
            fallback,
        ) == preference_key_of(claims, fallback),
{
}

/// The identity that a write goes by is in force and not due for rotation,
/// and where a token was minted it names exactly one subject.
pub proof fn lemma_ensured_identity_is_fresh(
    context: UserContextView,
    secret: Seq<char>,
    now: nat,
    spare_id: Seq<char>,
)
    ensures
        ensure_outcome(context, secret, now, spare_id) matches Ok(ensured) ==> {
            &&& !refresh_due(ensured.claims.exp, now)
            &&& !expired_at(ensured.claims.exp, now)
            &&& ensured.new_token is Some ==> well_issued(ensured.claims)
            &&& ensured.new_token is Some <==> mint_due(context, now)
        },
{
}

/// Whether a fresh identifier is called for at `now`: a token is to be
/// minted and there is no subject to keep.
pub open spec fn spare_id_used(context: UserContextView, now: nat) -> bool {
    mint_due(context, now) && match context {
        UserContextView::Authenticated(claims) => claims.user_id is None
            && claims.anonymous_id is None,
        _ => true,
    }
}

/// Whether a fresh identifier is called for at `now`.
pub fn wants_spare_id(context: &UserContext, now: usize) -> (wanted: bool)
    ensures
        wanted == spare_id_used(context@, now as nat),
{
    match context {
        UserContext::Authenticated(claims) => needs_refresh(claims, now) && claims.user_id.is_none()
            && claims.anonymous_id.is_none(),
        _ => true,
    }
}

/// Mints the token that is due for an identity at `now` and reads it back.
fn mint_for(context: &UserContext, secret: &str, now: usize, spare_id: &str) -> (minted: Result<
    EnsuredIdentity,
    TokenError,
>)
    requires
        mint_due(context@, now as nat),
    ensures
        is_ensure_outcome(minted, ensure_outcome(context@, secret@, now as nat, spare_id@)),
        minted matches Ok(made) ==> token_in_force(made@, secret@),
{
    let made = match context {
        UserContext::Authenticated(claims) => match claims.user_id {
            Some(user_id) => generate_user_token_at(user_id, secret, now),
            None => match &claims.anonymous_id {
                Some(anonymous_id) => generate_anonymous_token_at(
                    anonymous_id.as_str(),
                    secret,
                    now,
                ),
                None => generate_anonymous_token_at(spare_id, secret, now),
            },
        },
        _ => generate_anonymous_token_at(spare_id, secret, now),
    };
    match made {
        Err(error) => Err(error),
        Ok(token) => {
            match verify_token_at(token.as_str(), secret, now) {
                Ok(claims) => Ok(EnsuredIdentity { claims, new_token: Some(token) }),
                Err(error) => Err(error),
            }
        },
    }
}

/// Makes sure that a write has an identity to go by, as of `now`.
///
/// An authenticated identity whose token is not due for rotation is kept as
/// it is and no token is minted. One that is due gets a new token for the
/// same subject. An anonymous or invalid identity gets a new anonymous token
/// under `spare_id`. The claims handed back are those of the token in force:
/// a token that was minted decodes to them.
pub fn ensure_user_token_at(
    context: &UserContext,
    secret: &str,
    now: usize,
    spare_id: &str,
) -> (ensured: Result<EnsuredIdentity, TokenError>)
    ensures
        is_ensure_outcome(ensured, ensure_outcome(context@, secret@, now as nat, spare_id@)),
        ensured matches Ok(made) ==> token_in_force(made@, secret@),
{
    match context {
        UserContext::Authenticated(claims) => {
            if needs_refresh(claims, now) {
                mint_for(context, secret, now, spare_id)
            } else {
                Ok(EnsuredIdentity { claims: claims.clone(), new_token: None })
            }
        },
        _ => mint_for(context, secret, now, spare_id),
    }
}

/// Makes sure that a write has an identity to go by, as of now. A fresh
/// random identifier is drawn only where a new anonymous identity starts.
///
/// Whatever the clock and the generator gave, the result is what
/// [`ensure_user_token_at`] yields at some time with some spare identifier,
/// and a token that was minted decodes to the claims handed back.
pub fn ensure_user_token(context: &UserContext, secret: &str) -> (ensured: Result<
    EnsuredIdentity,
    TokenError,
>)
    ensures
        exists|now: nat, spare_id: Seq<char>|
            is_ensure_outcome(
                ensured,
                #[trigger] ensure_outcome(context@, secret@, now, spare_id),
            ),
        ensured matches Ok(made) ==> token_in_force(made@, secret@),
{
    let now = unix_now();
    if wants_spare_id(context, now) {
        let spare_id = fresh_anonymous_id();
        ensure_user_token_at(context, secret, now, spare_id.as_str())
    } else {
        ensure_user_token_at(context, secret, now, "")
    }
}

/// The key under which the theme of an identity is looked up: that of its
/// claims where it is authenticated, none otherwise.
pub fn theme_lookup_key(context: &UserContext) -> (key: Option<String>)
    ensures
        match context@ {
            UserContextView::Authenticated(claims) => key matches Some(found) && exists|
                fallback: Seq<char>,
            | found@ == #[trigger] preference_key_of(claims, fallback),
            _ => key is None,
        },
{
    match context.get_claims() {
        Some(claims) => Some(get_preference_key(claims)),
        None => None,
    }
}

/// What came of looking a visitor's theme up in storage.
#[derive(Debug)]
pub enum ThemeLookup {
    /// There is a record, and this is its theme.
    Found(String),
    /// There is no record, or the visitor has no key to look under.
    Absent,
    /// Storage could not be asked, or did not answer.
    Unavailable,
}

/// The theme to show for a lookup: the stored one where a record was found,
/// else the default. A failure of storage is no failure of the read.
pub open spec fn shown_theme(lookup: ThemeLookup) -> Seq<char> {
    match lookup {
        ThemeLookup::Found(theme) => theme@,
        ThemeLookup::Absent => DEFAULT_THEME@,
        ThemeLookup::Unavailable => DEFAULT_THEME@,
    }
}

/// The theme to show for a lookup.
pub fn theme_or_default(lookup: ThemeLookup) -> (theme: String)
    ensures
        theme@ == shown_theme(lookup),
{
    match lookup {
        ThemeLookup::Found(theme) => theme,
        ThemeLookup::Absent => String::from_str(DEFAULT_THEME),
        ThemeLookup::Unavailable => String::from_str(DEFAULT_THEME),
    }
}

/// The response to a theme read: always a success, with the theme to show.
pub fn theme_read_response(lookup: ThemeLookup) -> (response: ThemeResponse)
    ensures
        response.success,
        response.theme@ == shown_theme(lookup),
{
    ThemeResponse { theme: theme_or_default(lookup), success: true }
}

/// The response to a write that did not go through: the default theme and no
/// success.
pub fn theme_failure_response() -> (response: ThemeResponse)
    ensures
        !response.success,
        response.theme@ == DEFAULT_THEME@,
{
    ThemeResponse { theme: String::from_str(DEFAULT_THEME), success: false }
}

/// The response to a write, given whether storage took it: the written theme
/// and success where it did, else the failure response.
pub fn theme_write_response(theme: String, stored: bool) -> (response: ThemeResponse)
    ensures
        response.success == stored,
        stored ==> response.theme@ == theme@,
        !stored ==> response.theme@ == DEFAULT_THEME@,
{
    if stored {
        ThemeResponse { theme, success: true }
    } else {
        theme_failure_response()
    }
}

/// What a theme write comes to before storage is touched.
#[derive(Debug)]
pub enum ThemeWrite {
    /// Nothing is stored and no cookie is set; the failure response goes out.
    Rejected,
    /// The cookie, if any, is set; then the theme is stored under the key.
    Store { preference_key: String, theme: String, cookie: Option<AuthCookie> },
}

/// Whether a planned write is the one that follows from an ensured identity.
pub open spec fn stores_for(
    planned: ThemeWrite,
    theme: Seq<char>,
    ensured: EnsuredIdentityView,
    spare_id: Seq<char>,
) -> bool {
    &&& planned matches ThemeWrite::Store { preference_key, theme: written, cookie }
    &&& preference_key@ == preference_key_of(ensured.claims, spare_id)
    &&& written@ == theme
    &&& match ensured.new_token {
        Some(token) => cookie matches Some(carried) && is_auth_cookie(carried, token),
        None => cookie is None,
    }
}

/// Whether a planned write is what a form comes to for an identity at `now`.
///
/// A theme outside the enumerated set is rejected before anything else. So
/// is a write for which no token could be minted. Every other write stores
/// the theme under the preference key of the ensured identity, and sets the
/// cookie where a token was minted.
pub open spec fn is_planned_write(
    planned: ThemeWrite,
    theme: Seq<char>,
    context: UserContextView,
    secret: Seq<char>,
    now: nat,
    spare_id: Seq<char>,
) -> bool {
    if !valid_theme(theme) {
        planned is Rejected
    } else {
        match ensure_outcome(context, secret, now, spare_id) {
            Err(_) => planned is Rejected,
            Ok(ensured) => stores_for(planned, theme, ensured, spare_id),
        }
    }
}

/// Whether the cookie of a planned write, if it sets one, carries the
/// identity that the write is stored under: its token decodes to claims
/// that name a subject, and the preference key is the key of those claims.
pub open spec fn cookie_leads_to_key(planned: ThemeWrite, secret: Seq<char>) -> bool {
    planned matches ThemeWrite::Store { preference_key, cookie: Some(carried), .. } ==> exists|
        claims: ClaimsView,
    |
        {
            &&& #[trigger] decodes_to(carried.value@, secret, claims)
            &&& has_subject(claims)
            &&& preference_key@ == preference_key_of(claims, Seq::empty())
        }
}

/// Plans a write from an identity that has been ensured.
pub fn plan_store(theme: &str, ensured: EnsuredIdentity, spare_id: &str) -> (planned: ThemeWrite)
    ensures
        stores_for(planned, theme@, ensured@, spare_id@),
{
    let preference_key = preference_key_with(&ensured.claims, spare_id);
    let cookie = match &ensured.new_token {
        Some(token) => Some(auth_cookie(token.as_str())),
        None => None,
    };
    ThemeWrite::Store { preference_key, theme: String::from_str(theme), cookie }
}

/// Plans a theme write as of `now`.
pub fn plan_theme_write_at(
    form: &ThemeForm,
    context: &UserContext,
    secret: &str,
    now: usize,
    spare_id: &str,
) -> (planned: ThemeWrite)
    ensures
        is_planned_write(planned, form.theme@, context@, secret@, now as nat, spare_id@),
        cookie_leads_to_key(planned, secret@),
{
    if !is_valid_theme(form.theme.as_str()) {
        return ThemeWrite::Rejected;
    }
    match ensure_user_token_at(context, secret, now, spare_id) {
        Err(_) => ThemeWrite::Rejected,
        Ok(ensured) => plan_store(form.theme.as_str(), ensured, spare_id),
    }
}

/// Plans a theme write as of now, with a fresh random identifier at hand for
/// an identity that has none.
///
/// A theme outside the enumerated set is rejected whatever the clock and the
/// generator give; for the rest the plan is that of [`plan_theme_write_at`]
/// at some time with some identifier. A cookie that the plan sets carries
/// the identity that the theme is stored under.
pub fn plan_theme_write(form: &ThemeForm, context: &UserContext, secret: &str) -> (planned:
    ThemeWrite)
    ensures
        !valid_theme(form.theme@) ==> planned is Rejected,
        exists|now: nat, spare_id: Seq<char>| #[trigger]
            is_planned_write(planned, form.theme@, context@, secret@, now, spare_id),
        cookie_leads_to_key(planned, secret@),
{
    if !is_valid_theme(form.theme.as_str()) {
        assert(is_planned_write(
            ThemeWrite::Rejected,
            form.theme@,
            context@,
            secret@,
            0,
            Seq::empty(),
        ));
        return ThemeWrite::Rejected;
    }
    let now = unix_now();
    let spare_id = fresh_anonymous_id();
    plan_theme_write_at(form, context, secret, now, spare_id.as_str())
}

} // verus!
