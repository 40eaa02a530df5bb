//! Token codec and claims policy.
//!
//! A token is an HS256-signed JSON Web Token whose payload carries the four
//! members of [`Claims`]. Signing and signature checking are done by the
//! `jsonwebtoken` crate; reading the payload's members into claims, expiry,
//! rotation and key derivation are decided here.

use crate::outside::{
    fresh_anonymous_id, hs256_payload, hs256_token, insert_i32, insert_text, insert_usize,
    new_payload, no_members, passes_validation, payload_member, plain_members, sign_hs256,
    unix_now, verify_hs256, JsonField, JsonFieldView,
};
use crate::text::{append_decimal, decimal, lemma_decimal_injective};
use vstd::prelude::*;

verus! {

/// Lifetime of a token minted for an anonymous visitor: 365 days, in seconds.
pub const ANONYMOUS_LIFETIME_SECS: usize = 31536000;

/// Lifetime of a token minted for a signed-in user: 30 days, in seconds.
pub const USER_LIFETIME_SECS: usize = 2592000;

/// A token is rotated once less than this remains of its lifetime: 7 days, in seconds.
pub const REFRESH_WINDOW_SECS: usize = 604800;

/// The signing secret that stands in where none is configured. It is public
/// knowledge: tokens signed with it can be forged by anyone.
pub const FALLBACK_SECRET: &'static str = "dev_only_insecure_key_change_in_production";

/// The secret that tokens are signed with, and whether it is the fallback.
#[derive(Debug)]
pub struct SigningSecret {
    pub value: String,
    pub is_fallback: bool,
}

/// Settles the signing secret once, at start-up: the configured one where
/// there is one, else the fallback, flagged so that a warning can be shown.
pub fn signing_secret(configured: Option<String>) -> (secret: SigningSecret)
    ensures
        match configured {
            Some(value) => secret.value@ == value@ && !secret.is_fallback,
            None => secret.value@ == FALLBACK_SECRET@ && secret.is_fallback,
        },
{
    match configured {
        Some(value) => SigningSecret { value, is_fallback: false },
        None => SigningSecret { value: String::from_str(FALLBACK_SECRET), is_fallback: true },
    }
}

/// The payload of a session token.
#[derive(Debug)]
pub struct Claims {
    pub anonymous_id: Option<String>,
    pub user_id: Option<i32>,
    pub exp: usize,
    pub iat: usize,
}

/// Mathematical model of [`Claims`].
pub ghost struct ClaimsView {
    pub anonymous_id: Option<Seq<char>>,
    pub user_id: Option<int>,
    pub exp: nat,
    pub iat: nat,
}

impl View for Claims {
    type V = ClaimsView;

    open spec fn view(&self) -> ClaimsView {
        ClaimsView {
            anonymous_id: match self.anonymous_id {
                Some(id) => Some(id@),
                None => None,
            },
            user_id: match self.user_id {
                Some(id) => Some(id as int),
                None => None,
            },
            exp: self.exp as nat,
            iat: self.iat as nat,
        }
    }
}

impl Clone for Claims {
    fn clone(&self) -> (copy: Self)
        ensures
            copy@ == self@,
    {
        let anonymous_id = match &self.anonymous_id {
            Some(id) => Some(id.clone()),
            None => None,
        };
        Claims { anonymous_id, user_id: self.user_id, exp: self.exp, iat: self.iat }
    }
}

/// Why a token could not be produced or accepted.
#[derive(Debug, Clone, Copy, PartialEq, Eq, Structural)]
pub enum TokenError {
    InvalidToken,
    ExpiredToken,
    GenerationFailed,
}

impl TokenError {
    /// The error in words.
    pub fn message(&self) -> (text: &'static str)
        ensures
            text@ == match *self {
                TokenError::InvalidToken => "Invalid token"@,
                TokenError::ExpiredToken => "Token expired"@,
                TokenError::GenerationFailed => "Token generation failed"@,
            },
    {
        match self {
            TokenError::InvalidToken => "Invalid token",
            TokenError::ExpiredToken => "Token expired",
            TokenError::GenerationFailed => "Token generation failed",
        }
    }
}

/// The payload members that stand for a claims value.
pub open spec fn claims_members(claims: ClaimsView) -> Map<Seq<char>, JsonFieldView> {
    no_members()
        .insert("anonymous_id"@, match claims.anonymous_id {
            Some(id) => JsonFieldView::Text(id),
            None => JsonFieldView::Null,
        })
        .insert("user_id"@, match claims.user_id {
            Some(id) => JsonFieldView::Number(Some(id)),
            None => JsonFieldView::Null,
        })
        .insert("exp"@, JsonFieldView::Number(Some(claims.exp as int)))
        .insert("iat"@, JsonFieldView::Number(Some(claims.iat as int)))
}

/// An optional text member: absent or `null` is no text, a string is that
/// text, anything else is an error.
pub open spec fn optional_text(member: Option<JsonFieldView>) -> Option<Option<Seq<char>>> {
    match member {
        None => Some(None),
        Some(JsonFieldView::Null) => Some(None),
        Some(JsonFieldView::Text(text)) => Some(Some(text)),
        Some(_) => None,
    }
}

/// An optional user id: absent or `null` is no id, an integer that fits `i32`
/// is that id, anything else is an error.
pub open spec fn optional_user_id(member: Option<JsonFieldView>) -> Option<Option<int>> {
    match member {
        None => Some(None),
        Some(JsonFieldView::Null) => Some(None),
        Some(JsonFieldView::Number(Some(value))) => if i32::MIN <= value <= i32::MAX {
            Some(Some(value))
        } else {
            None
        },
        Some(_) => None,
    }
}

/// A required timestamp: an integer that fits `usize`; anything else,
/// absence included, is an error.
pub open spec fn required_timestamp(member: Option<JsonFieldView>) -> Option<nat> {
    match member {
        Some(JsonFieldView::Number(Some(value))) => if 0 <= value <= usize::MAX {
            Some(value as nat)
        } else {
            None
        },
        _ => None,
    }
}

/// The claims that four payload members stand for, or `None` where one of
/// them has the wrong shape.
pub open spec fn claims_of_fields(
    anonymous_id: Option<JsonFieldView>,
    user_id: Option<JsonFieldView>,
    exp: Option<JsonFieldView>,
    iat: Option<JsonFieldView>,
) -> Option<ClaimsView> {
    match (
        optional_text(anonymous_id),
        optional_user_id(user_id),
        required_timestamp(exp),
        required_timestamp(iat),
    ) {
        (Some(anonymous_id), Some(user_id), Some(exp), Some(iat)) => Some(
            ClaimsView { anonymous_id, user_id, exp, iat },
        ),
        _ => None,
    }
}

/// The member of a payload under a name, if it has one.
pub open spec fn member_of(members: Map<Seq<char>, JsonFieldView>, name: Seq<char>) -> Option<
    JsonFieldView,
> {
    if members.contains_key(name) {
        Some(members[name])
    } else {
        None
    }
}

/// The claims that a payload stands for, or `None` where a member has the
/// wrong shape. Members under other names are ignored.
pub open spec fn claims_of_members(members: Map<Seq<char>, JsonFieldView>) -> Option<ClaimsView> {
    claims_of_fields(
        member_of(members, "anonymous_id"@),
        member_of(members, "user_id"@),
        member_of(members, "exp"@),
        member_of(members, "iat"@),
    )
}

/// Whether a token that expires at `exp` has lapsed at `now`: it holds until
/// the second of its expiry, that second included.
pub open spec fn expired_at(exp: nat, now: nat) -> bool {
    exp < now
}

/// What decoding yields at `now`, given what the signature check handed out.
pub open spec fn decode_outcome(
    payload: Option<Map<Seq<char>, JsonFieldView>>,
    now: nat,
) -> Result<ClaimsView, TokenError> {
    match payload {
        None => Err(TokenError::InvalidToken),
        Some(members) => match claims_of_members(members) {
            None => Err(TokenError::InvalidToken),
            Some(claims) => if expired_at(claims.exp, now) {
                Err(TokenError::ExpiredToken)
            } else {
                Ok(claims)
            },
        },
    }
}

/// Whether a result of decoding is the given outcome, claims taken by view.
pub open spec fn is_outcome(
    result: Result<Claims, TokenError>,
    outcome: Result<ClaimsView, TokenError>,
) -> bool {
    match result {
        Ok(claims) => outcome == Ok::<ClaimsView, TokenError>(claims@),
        Err(error) => outcome == Err::<ClaimsView, TokenError>(error),
    }
}

/// The view of a member that may be absent.
pub open spec fn field_view(member: Option<JsonField>) -> Option<JsonFieldView> {
    match member {
        Some(field) => Some(field@),
        None => None,
    }
}

fn read_optional_text(member: Option<JsonField>) -> (text: Option<Option<String>>)
    ensures
        match text {
            Some(Some(value)) => optional_text(field_view(member)) == Some(Some(value@)),
            Some(None) => optional_text(field_view(member)) == Some(None::<Seq<char>>),
            None => optional_text(field_view(member)) is None,
        },
{
    match member {
        None => Some(None),
        Some(JsonField::Null) => Some(None),
        Some(JsonField::Text(text)) => Some(Some(text)),
        Some(_) => None,
    }
}

fn read_optional_user_id(member: &Option<JsonField>) -> (id: Option<Option<i32>>)
    ensures
        match id {
            Some(Some(value)) => optional_user_id(field_view(*member)) == Some(Some(value as int)),
            Some(None) => optional_user_id(field_view(*member)) == Some(None::<int>),
            None => optional_user_id(field_view(*member)) is None,
        },
{
    match member {
        None => Some(None),
        Some(JsonField::Null) => Some(None),
        Some(JsonField::Number(Some(value))) => {
            if -2147483648 <= *value && *value <= 2147483647 {
                Some(Some(*value as i32))
            } else {
                None
            }
        },
        Some(_) => None,
    }
}

fn read_timestamp(member: &Option<JsonField>) -> (stamp: Option<usize>)
    ensures
        match stamp {
            Some(value) => required_timestamp(field_view(*member)) == Some(value as nat),
            None => required_timestamp(field_view(*member)) is None,
        },
{
    match member {
        Some(JsonField::Number(Some(value))) => {
            if 0 <= *value && *value <= usize::MAX as i128 {
                Some(*value as usize)
            } else {
                None
            }
        },
        _ => None,
    }
}

/// Reads four payload members into claims.
///
/// `anonymous_id` and `user_id` may be absent or `null`; `exp` and `iat` must
/// be integers that fit `usize`, `user_id` one that fits `i32`, and
/// `anonymous_id` a string. Any other shape is an `InvalidToken`.
pub fn claims_from_fields(
    anonymous_id: Option<JsonField>,
    user_id: Option<JsonField>,
    exp: Option<JsonField>,
    iat: Option<JsonField>,
) -> (read: Result<Claims, TokenError>)
    ensures
        match read {
            Ok(claims) => claims_of_fields(
                field_view(anonymous_id),
                field_view(user_id),
                field_view(exp),
                field_view(iat),
            ) == Some(claims@),
            Err(error) => error == TokenError::InvalidToken && claims_of_fields(
                field_view(anonymous_id),
                field_view(user_id),
                field_view(exp),
                field_view(iat),
            ) is None,
        },
{
    let user_id = read_optional_user_id(&user_id);
    let exp = read_timestamp(&exp);
    let iat = read_timestamp(&iat);
    match (read_optional_text(anonymous_id), user_id, exp, iat) {
        (Some(anonymous_id), Some(user_id), Some(exp), Some(iat)) => Ok(
            Claims { anonymous_id, user_id, exp, iat },
        ),
        _ => Err(TokenError::InvalidToken),
    }
}

/// Judges claims that were read from a verified payload at `now`.
pub fn check_expiry(claims: Claims, now: usize) -> (checked: Result<Claims, TokenError>)
    ensures
        match checked {
            Ok(kept) => kept@ == claims@ && !expired_at(claims@.exp, now as nat),
            Err(error) => error == TokenError::ExpiredToken && expired_at(claims@.exp, now as nat),
        },
{
    if claims.exp < now {
        Err(TokenError::ExpiredToken)
    } else {
        Ok(claims)
    }
}

/// Verifies a token against the secret and decodes its claims as of `now`.
///
/// `InvalidToken` where the signature, the structure or a member is wrong;
/// `ExpiredToken` where all of that is right and `now` is past `exp`.
pub fn verify_token_at(token: &str, secret: &str, now: usize) -> (decoded: Result<
    Claims,
    TokenError,
>)
    ensures
        is_outcome(decoded, decode_outcome(hs256_payload(token@, secret@), now as nat)),
{
    match verify_hs256(token, secret) {
        Err(_) => Err(TokenError::InvalidToken),
        Ok(payload) => {
            let anonymous_id = payload_member(&payload, "anonymous_id");
            let user_id = payload_member(&payload, "user_id");
            let exp = payload_member(&payload, "exp");
            let iat = payload_member(&payload, "iat");
            match claims_from_fields(anonymous_id, user_id, exp, iat) {
                Err(error) => Err(error),
                Ok(claims) => check_expiry(claims, now),
            }
        },
    }
}

/// Whether a claims model can be held by a [`Claims`] value.
pub open spec fn representable(claims: ClaimsView) -> bool {
    &&& claims.exp <= usize::MAX
    &&& claims.iat <= usize::MAX
    &&& claims.user_id matches Some(id) ==> i32::MIN <= id <= i32::MAX
}

/// The names of the four claim members differ from one another, and none
/// of them is `aud`.
pub proof fn lemma_member_names_differ()
    ensures
        "anonymous_id"@ != "user_id"@,
        "anonymous_id"@ != "exp"@,
        "anonymous_id"@ != "iat"@,
        "user_id"@ != "exp"@,
        "user_id"@ != "iat"@,
        "exp"@ != "iat"@,
        "aud"@ != "anonymous_id"@,
        "aud"@ != "user_id"@,
        "aud"@ != "exp"@,
        "aud"@ != "iat"@,
{
    reveal_strlit("anonymous_id");
    reveal_strlit("user_id");
    reveal_strlit("exp");
    reveal_strlit("iat");
    reveal_strlit("aud");
    assert("anonymous_id"@.len() == 12 && "user_id"@.len() == 7);
    assert("exp"@.len() == 3 && "iat"@.len() == 3 && "aud"@.len() == 3);
    assert("exp"@[0] == 'e' && "iat"@[0] == 'i' && "aud"@[0] == 'a');
}

/// Reading back the members that stand for claims gives those claims.
pub proof fn lemma_members_round_trip(claims: ClaimsView)
    requires
        representable(claims),
    ensures
        claims_of_members(claims_members(claims)) == Some(claims),
{
    lemma_member_names_differ();
}

/// The members that stand for claims are plain, and pass the validation
/// that a token's payload is put through.
pub proof fn lemma_claims_members_sign(claims: ClaimsView)
    requires
        representable(claims),
    ensures
        plain_members(claims_members(claims)),
        passes_validation(claims_members(claims)),
{
    lemma_member_names_differ();
}

/// A payload made of claims and decoded no later than their expiry yields
/// those claims.
pub proof fn lemma_decode_round_trip(claims: ClaimsView, now: nat)
    requires
        representable(claims),
        now <= claims.exp,
    ensures
        decode_outcome(Some(claims_members(claims)), now) == Ok::<ClaimsView, TokenError>(claims),
{
    lemma_members_round_trip(claims);
}

/// A verified payload that holds claims and is decoded after their expiry is
/// found expired, never invalid.
pub proof fn lemma_decode_after_expiry(members: Map<Seq<char>, JsonFieldView>, now: nat)
    requires
        claims_of_members(members) matches Some(claims) && claims.exp < now,
    ensures
        decode_outcome(Some(members), now) == Err::<ClaimsView, TokenError>(
            TokenError::ExpiredToken,
        ),
{
}

/// A token that the signature check rejects, or whose payload does not hold
/// claims, is found invalid at every time, never expired.
pub proof fn lemma_decode_of_malformed(payload: Option<Map<Seq<char>, JsonFieldView>>, now: nat)
    requires
        payload matches Some(members) ==> claims_of_members(members) is None,
    ensures
        decode_outcome(payload, now) == Err::<ClaimsView, TokenError>(TokenError::InvalidToken),
{
}

/// What encoding yields, given what signing handed out.
pub open spec fn encode_outcome(signed: Option<Seq<char>>) -> Result<Seq<char>, TokenError> {
    match signed {
        Some(token) => Ok(token),
        None => Err(TokenError::GenerationFailed),
    }
}

/// Turns the outcome of signing into the codec's own result: the token as it
/// is, any failure as `GenerationFailed`.
pub fn token_or_failure(signed: Result<String, jsonwebtoken::errors::Error>) -> (token: Result<
    String,
    TokenError,
>)
    ensures
        match (signed, token) {
            (Ok(made), Ok(kept)) => kept@ == made@,
            (Err(_), Err(error)) => error == TokenError::GenerationFailed,
            _ => false,
        },
{
    match signed {
        Ok(token) => Ok(token),
        Err(_) => Err(TokenError::GenerationFailed),
    }
}

/// What signing names for a claims model and a secret.
pub open spec fn signed_token(claims: ClaimsView, secret: Seq<char>) -> Option<Seq<char>> {
    hs256_token(claims_members(claims), secret)
}

/// Whether a result of encoding is the given outcome, the token taken by view.
pub open spec fn is_token_outcome(
    result: Result<String, TokenError>,
    outcome: Result<Seq<char>, TokenError>,
) -> bool {
    match result {
        Ok(token) => outcome == Ok::<Seq<char>, TokenError>(token@),
        Err(error) => outcome == Err::<Seq<char>, TokenError>(error),
    }
}

/// Whether a token, verified against the secret at any time up to the
/// claims' expiry, decodes to exactly those claims, and at any later time is
/// found expired.
pub open spec fn decodes_to(token: Seq<char>, secret: Seq<char>, claims: ClaimsView) -> bool {
    forall|now: nat| #[trigger]
        decode_outcome(hs256_payload(token, secret), now) == if now <= claims.exp {
            Ok::<ClaimsView, TokenError>(claims)
        } else {
            Err::<ClaimsView, TokenError>(TokenError::ExpiredToken)
        }
}

/// Signs claims into a token.
///
/// The token is the one that signing names for these claims and this secret,
/// `GenerationFailed` where signing fails. Verified against the same secret
/// at any time up to `exp`, the token decodes to the same claims.
pub fn encode_claims(claims: &Claims, secret: &str) -> (token: Result<String, TokenError>)
    ensures
        is_token_outcome(token, encode_outcome(signed_token(claims@, secret@))),
        token matches Ok(made) ==> decodes_to(made@, secret@, claims@),
{
    let mut payload = new_payload();
    insert_text(&mut payload, "anonymous_id", &claims.anonymous_id);
    insert_i32(&mut payload, "user_id", claims.user_id);
    insert_usize(&mut payload, "exp", claims.exp);
    insert_usize(&mut payload, "iat", claims.iat);
    proof {
        lemma_members_round_trip(claims@);
        lemma_claims_members_sign(claims@);
    }
    token_or_failure(sign_hs256(&payload, secret))
}

/// The claims issued to an anonymous visitor at `now`.
pub open spec fn anonymous_claims_at(anonymous_id: Seq<char>, now: nat) -> ClaimsView {
    ClaimsView {
        anonymous_id: Some(anonymous_id),
        user_id: None,
        exp: now + ANONYMOUS_LIFETIME_SECS as nat,
        iat: now,
    }
}

/// The claims issued to a signed-in user at `now`.
pub open spec fn user_claims_at(user_id: int, now: nat) -> ClaimsView {
    ClaimsView {
        anonymous_id: None,
        user_id: Some(user_id),
        exp: now + USER_LIFETIME_SECS as nat,
        iat: now,
    }
}

/// Claims as the issuer makes them: exactly one subject, and an expiry after
/// the time of issue.
pub open spec fn well_issued(claims: ClaimsView) -> bool {
    &&& claims.iat < claims.exp
    &&& (claims.anonymous_id is Some) != (claims.user_id is Some)
}

/// Every claims value that is issued names exactly one subject and expires
/// after it was issued; an anonymous one outlives a user's issued at the
/// same time.
pub proof fn lemma_issued_claims_well_formed(anonymous_id: Seq<char>, user_id: int, now: nat)
    ensures
        well_issued(anonymous_claims_at(anonymous_id, now)),
        well_issued(user_claims_at(user_id, now)),
        anonymous_claims_at(anonymous_id, now).exp == now + 365 * 24 * 60 * 60,
        user_claims_at(user_id, now).exp == now + 30 * 24 * 60 * 60,
        user_claims_at(user_id, now).exp < anonymous_claims_at(anonymous_id, now).exp,
{
}

/// What minting yields for a claims model: `GenerationFailed` where the
/// expiry does not fit the machine's word, else what encoding yields.
pub open spec fn mint_outcome(claims: ClaimsView, secret: Seq<char>) -> Result<
    Seq<char>,
    TokenError,
> {
    if claims.exp > usize::MAX {
        Err(TokenError::GenerationFailed)
    } else {
        encode_outcome(signed_token(claims, secret))
    }
}

/// Mints a token for an anonymous visitor with the given identifier, issued
/// at `now` and valid for 365 days.
pub fn generate_anonymous_token_at(anonymous_id: &str, secret: &str, now: usize) -> (token: Result<
    String,
    TokenError,
>)
    ensures
        is_token_outcome(
            token,
            mint_outcome(anonymous_claims_at(anonymous_id@, now as nat), secret@),
        ),
        token matches Ok(made) ==> decodes_to(
            made@,
            secret@,
            anonymous_claims_at(anonymous_id@, now as nat),
        ),
{
    match now.checked_add(ANONYMOUS_LIFETIME_SECS) {
        None => Err(TokenError::GenerationFailed),
        Some(exp) => {
            let claims = Claims {
                anonymous_id: Some(String::from_str(anonymous_id)),
                user_id: None,
                exp,
                iat: now,
            };
            encode_claims(&claims, secret)
        },
    }
}

/// Mints a token for a signed-in user, issued at `now` and valid for 30 days.
pub fn generate_user_token_at(user_id: i32, secret: &str, now: usize) -> (token: Result<
    String,
    TokenError,
>)
    ensures
        is_token_outcome(token, mint_outcome(user_claims_at(user_id as int, now as nat), secret@)),
        token matches Ok(made) ==> decodes_to(
            made@,
            secret@,
            user_claims_at(user_id as int, now as nat),
        ),
{
    match now.checked_add(USER_LIFETIME_SECS) {
        None => Err(TokenError::GenerationFailed),
        Some(exp) => {
            let claims = Claims { anonymous_id: None, user_id: Some(user_id), exp, iat: now };
            encode_claims(&claims, secret)
        },
    }
}

/// Mints a token for a new anonymous visitor, with a fresh random identifier,
/// issued now.
///
/// Whatever the clock and the generator gave: a token that comes back decodes,
/// up to its expiry, to claims issued to some anonymous identifier at some
/// time; a failure is `GenerationFailed`.
pub fn generate_anonymous_token(secret: &str) -> (token: Result<String, TokenError>)
    ensures
        match token {
            Ok(made) => exists|anonymous_id: Seq<char>, now: nat|
                decodes_to(made@, secret@, #[trigger] anonymous_claims_at(anonymous_id, now)),
            Err(error) => error == TokenError::GenerationFailed,
        },
{
    let now = unix_now();
    let anonymous_id = fresh_anonymous_id();
    generate_anonymous_token_at(anonymous_id.as_str(), secret, now)
}

/// Mints a token for a signed-in user, issued now.
///
/// Whatever the clock gave: a token that comes back decodes, up to its
/// expiry, to claims issued to this user at some time; a failure is
/// `GenerationFailed`.
pub fn generate_user_token(user_id: i32, secret: &str) -> (token: Result<String, TokenError>)
    ensures
        match token {
            Ok(made) => exists|now: nat|
                decodes_to(made@, secret@, #[trigger] user_claims_at(user_id as int, now)),
            Err(error) => error == TokenError::GenerationFailed,
        },
{
    let now = unix_now();
    generate_user_token_at(user_id, secret, now)
}

/// Verifies a token against the secret and decodes its claims as of now.
///
/// Whatever the clock gave, the result is what [`verify_token_at`] yields at
/// some time.
pub fn verify_token(token: &str, secret: &str) -> (decoded: Result<Claims, TokenError>)
    ensures
        exists|now: nat|
            is_outcome(decoded, #[trigger] decode_outcome(hs256_payload(token@, secret@), now)),
{
    let now = unix_now();
    verify_token_at(token, secret, now)
}

/// Whether the claims have lapsed at `now`.
pub fn is_expired(claims: &Claims, now: usize) -> (lapsed: bool)
    ensures
        lapsed == expired_at(claims@.exp, now as nat),
{
    claims.exp < now
}

/// Whether a token that expires at `exp` is due for rotation at `now`: less
/// than the refresh window remains of it. A lapsed token is due.
pub open spec fn refresh_due(exp: nat, now: nat) -> bool {
    exp - now < REFRESH_WINDOW_SECS as int
}

/// Whether the claims are due for rotation at `now`.
pub fn needs_refresh(claims: &Claims, now: usize) -> (due: bool)
    ensures
        due == refresh_due(claims@.exp, now as nat),
{
    claims.exp.saturating_sub(now) < REFRESH_WINDOW_SECS
}

/// Whether the claims are due for rotation now.
///
/// Whatever the clock gave, the answer is the one of [`needs_refresh`] at
/// some time.
pub fn should_refresh_token(claims: &Claims) -> (due: bool)
    ensures
        exists|now: nat| due == #[trigger] refresh_due(claims@.exp, now),
{
    let now = unix_now();
    needs_refresh(claims, now)
}

/// The key under which preferences are stored for a subject: `user_` and the
/// user id in decimal where there is one, else `anon_` and the anonymous
/// identifier, else `anon_` and the fallback identifier.
pub open spec fn preference_key_of(claims: ClaimsView, fallback: Seq<char>) -> Seq<char> {
    match claims.user_id {
        Some(user_id) => "user_"@ + decimal(user_id),
        None => match claims.anonymous_id {
            Some(anonymous_id) => "anon_"@ + anonymous_id,
            None => "anon_"@ + fallback,
        },
    }
}

/// Whether the claims name a subject.
pub open spec fn has_subject(claims: ClaimsView) -> bool {
    claims.user_id is Some || claims.anonymous_id is Some
}

/// Derives the preference key of the claims, with `fallback` standing in for
/// the identifier where the claims name no subject.
pub fn preference_key_with(claims: &Claims, fallback: &str) -> (key: String)
    ensures
        key@ == preference_key_of(claims@, fallback@),
{
    match claims.user_id {
        Some(user_id) => {
            let mut key = String::from_str("user_");
            append_decimal(&mut key, user_id);
            key
        },
        None => {
            let mut key = String::from_str("anon_");
            match &claims.anonymous_id {
                Some(anonymous_id) => key.append(anonymous_id.as_str()),
                None => key.append(fallback),
            }
            key
        },
    }
}

/// Derives the preference key of the claims. Claims that name no subject get
/// the key of a fresh random anonymous identifier, so the derivation never
/// fails.
pub fn get_preference_key(claims: &Claims) -> (key: String)
    ensures
        exists|fallback: Seq<char>| key@ == #[trigger] preference_key_of(claims@, fallback),
        has_subject(claims@) ==> key@ == preference_key_of(claims@, Seq::empty()),
{
    if claims.user_id.is_none() && claims.anonymous_id.is_none() {
        let fallback = fresh_anonymous_id();
        preference_key_with(claims, fallback.as_str())
    } else {
        preference_key_with(claims, "")
    }
}

/// The preference key depends on the subject alone: claims that name the
/// same subject have the same key, whatever their timestamps and whatever
/// identifier is at hand as a fallback.
pub proof fn lemma_preference_key_stable(
    first: ClaimsView,
    second: ClaimsView,
    first_fallback: Seq<char>,
    second_fallback: Seq<char>,
)
    requires
        has_subject(first),
        first.user_id == second.user_id,
        first.anonymous_id == second.anonymous_id,
    ensures
        preference_key_of(first, first_fallback) == preference_key_of(second, second_fallback),
{
}

/// The subject that a preference key goes by: the user where there is one,
/// else the anonymous visitor.
pub open spec fn key_subject(claims: ClaimsView) -> ClaimsView {
    ClaimsView {
        anonymous_id: if claims.user_id is Some {
            None
        } else {
            claims.anonymous_id
        },
        user_id: claims.user_id,
        exp: 0,
        iat: 0,
    }
}

/// Preference keys keep subjects apart: claims that lead to the same key go
/// by the same subject. No user shares a key with another user or with an
/// anonymous visitor, and no two anonymous visitors share one.
pub proof fn lemma_preference_key_tells_subjects_apart(
    first: ClaimsView,
    second: ClaimsView,
    first_fallback: Seq<char>,
    second_fallback: Seq<char>,
)
    requires
        has_subject(first),
        has_subject(second),
        preference_key_of(first, first_fallback) == preference_key_of(second, second_fallback),
    ensures
        key_subject(first) == key_subject(second),
{
    reveal_strlit("user_");
    reveal_strlit("anon_");
    let first_key = preference_key_of(first, first_fallback);
    let second_key = preference_key_of(second, second_fallback);
    let first_rest = first_key.subrange(5, first_key.len() as int);
    let second_rest = second_key.subrange(5, second_key.len() as int);
    assert(first_key[0] == second_key[0] && first_rest == second_rest);
    match (first.user_id, second.user_id) {
        (Some(first_id), Some(second_id)) => {
            assert(first_rest =~= decimal(first_id));
            assert(second_rest =~= decimal(second_id));
            lemma_decimal_injective(first_id, second_id);
        },
        (None, None) => {
            assert(first_rest =~= first.anonymous_id->0);
            assert(second_rest =~= second.anonymous_id->0);
        },
        (Some(_), None) => {
            assert(first_key[0] == 'u' && second_key[0] == 'a');
        },
        (None, Some(_)) => {
            assert(first_key[0] == 'a' && second_key[0] == 'u');
        },
    }
}

/// A due rotation is a matter of the remaining lifetime alone: at exactly the
/// refresh window before expiry nothing is due, one second later it is.
pub proof fn lemma_refresh_boundary(exp: nat, now: nat)
    ensures
        refresh_due(exp, now) <==> exp - now < 604800,
        exp == now + 604800 ==> !refresh_due(exp, now),
        exp + 1 == now + 604800 ==> refresh_due(exp, now),
{
}

} // verus!
