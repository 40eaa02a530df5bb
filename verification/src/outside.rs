//! What the library takes from other crates on trust.
//!
//! Signing and checking tokens is the work of `jsonwebtoken`, a token's
//! payload is a `serde_json` object, the clock is read through `chrono`, and
//! fresh identifiers are drawn by `uuid`. Every contract in this file is
//! believed, not proved; everything built on them elsewhere is proved.

use vstd::prelude::*;

verus! {

/// One member of a token payload, as far as the claims need to tell JSON
/// values apart.
#[derive(Debug)]
pub enum JsonField {
    /// JSON `null`.
    Null,
    /// A JSON string.
    Text(String),
    /// A JSON number: its value where it is an integer, `None` where it is not.
    Number(Option<i128>),
    /// A boolean, an array or an object.
    Other,
}

/// Mathematical model of [`JsonField`].
pub ghost enum JsonFieldView {
    Null,
    Text(Seq<char>),
    Number(Option<int>),
    Other,
}

impl View for JsonField {
    type V = JsonFieldView;

    open spec fn view(&self) -> JsonFieldView {
        match self {
            JsonField::Null => JsonFieldView::Null,
            JsonField::Text(text) => JsonFieldView::Text(text@),
            JsonField::Number(Some(value)) => JsonFieldView::Number(Some(*value as int)),
            JsonField::Number(None) => JsonFieldView::Number(None),
            JsonField::Other => JsonFieldView::Other,
        }
    }
}

#[verifier::external_type_specification]
#[verifier::external_body]
pub struct ExJsonValue(serde_json::Value);

#[verifier::external_type_specification]
#[verifier::external_body]
#[verifier::reject_recursive_types(K)]
#[verifier::reject_recursive_types(V)]
pub struct ExJsonMap<K, V>(serde_json::Map<K, V>);

#[verifier::external_type_specification]
#[verifier::external_body]
pub struct ExJwtError(jsonwebtoken::errors::Error);

/// The members of a JSON object, by name.
pub uninterp spec fn json_members(object: serde_json::Map<String, serde_json::Value>) -> Map<
    Seq<char>,
    JsonFieldView,
>;

/// The token that `jsonwebtoken::encode` makes of a payload with the given
/// members, under an HS256 header and with the secret's bytes as key, or
/// `None` where it fails.
pub uninterp spec fn hs256_token(
    members: Map<Seq<char>, JsonFieldView>,
    secret: Seq<char>,
) -> Option<Seq<char>>;

/// The members of the payload that `jsonwebtoken::decode` hands out for a
/// token checked against HS256 and the secret's bytes, expiry left unjudged,
/// or `None` where it rejects the token.
pub uninterp spec fn hs256_payload(token: Seq<char>, secret: Seq<char>) -> Option<
    Map<Seq<char>, JsonFieldView>,
>;

/// The members of an object that has none.
pub open spec fn no_members() -> Map<Seq<char>, JsonFieldView> {
    Map::empty()
}

/// Whether the members are all `null`, strings or integers, so that they say
/// all there is to say of the object that holds them.
pub open spec fn plain_members(members: Map<Seq<char>, JsonFieldView>) -> bool {
    forall|name: Seq<char>| #[trigger]
        members.contains_key(name) ==> match members[name] {
            JsonFieldView::Null => true,
            JsonFieldView::Text(_) => true,
            JsonFieldView::Number(value) => value is Some,
            JsonFieldView::Other => false,
        }
}

/// What the validation step of `jsonwebtoken::decode` asks of a payload's
/// members: an `exp` member that is an unsigned number, and no `aud` member
/// when no audience was given to expect.
///
/// This speaks of that one step only. Before it, `decode` reads the payload
/// a second time for the members that validation looks at, and that reading
/// fails on some payloads that meet this predicate: an array or an object
/// under `sub` or `nbf` is one. On a payload whose members are all plain
/// that reading does not fail.
pub open spec fn passes_validation(members: Map<Seq<char>, JsonFieldView>) -> bool {
    &&& members.contains_key("exp"@)
    &&& members["exp"@] matches JsonFieldView::Number(Some(value))
    &&& 0 <= value <= u64::MAX
    &&& !members.contains_key("aud"@)
}

/// Calls `serde_json::Map::new`.
///
/// Trusted: the new object has no members.
#[verifier::external_body]
pub(crate) fn new_payload() -> (payload: serde_json::Map<String, serde_json::Value>)
    ensures
        json_members(payload) == no_members(),
{
    serde_json::Map::new()
}

/// Calls `serde_json::Map::insert` with a string, or `null` where there is
/// none.
///
/// Trusted: the member under the name is now that value, and the other
/// members are as they were.
#[verifier::external_body]
pub(crate) fn insert_text(
    payload: &mut serde_json::Map<String, serde_json::Value>,
    name: &str,
    text: &Option<String>,
)
    ensures
        json_members(*final(payload)) == json_members(*old(payload)).insert(
            name@,
            match *text {
                Some(value) => JsonFieldView::Text(value@),
                None => JsonFieldView::Null,
            },
        ),
{
    payload.insert(name.to_string(), serde_json::Value::from(text.clone()));
}

/// Calls `serde_json::Map::insert` with a 32-bit integer, or `null` where
/// there is none.
///
/// Trusted: the member under the name is now that value, and the other
/// members are as they were.
#[verifier::external_body]
pub(crate) fn insert_i32(
    payload: &mut serde_json::Map<String, serde_json::Value>,
    name: &str,
    number: Option<i32>,
)
    ensures
        json_members(*final(payload)) == json_members(*old(payload)).insert(
            name@,
            match number {
                Some(value) => JsonFieldView::Number(Some(value as int)),
                None => JsonFieldView::Null,
            },
        ),
{
    payload.insert(name.to_string(), serde_json::Value::from(number));
}

/// Calls `serde_json::Map::insert` with a word-sized unsigned integer.
///
/// Trusted: the member under the name is now that value, and the other
/// members are as they were.
#[verifier::external_body]
pub(crate) fn insert_usize(
    payload: &mut serde_json::Map<String, serde_json::Value>,
    name: &str,
    number: usize,
)
    ensures
        json_members(*final(payload)) == json_members(*old(payload)).insert(
            name@,
            JsonFieldView::Number(Some(number as int)),
        ),
{
    payload.insert(name.to_string(), serde_json::Value::from(number));
}

/// Calls `serde_json::Map::get` with a member's name and tells the variants
/// of what it finds apart.
///
/// Trusted: the result is the member under the name, or `None` where there
/// is none.
#[verifier::external_body]
pub(crate) fn payload_member(
    payload: &serde_json::Map<String, serde_json::Value>,
    name: &str,
) -> (member: Option<JsonField>)
    ensures
        match member {
            Some(field) => json_members(*payload).contains_key(name@) && json_members(
                *payload,
            )[name@] == field@,
            None => !json_members(*payload).contains_key(name@),
        },
{
    match payload.get(name) {
        None => None,
        Some(serde_json::Value::Null) => Some(JsonField::Null),
        Some(serde_json::Value::String(text)) => Some(JsonField::Text(text.clone())),
        Some(serde_json::Value::Number(number)) => Some(JsonField::Number(number.as_i128())),
        Some(_) => Some(JsonField::Other),
    }
}

/// Calls `jsonwebtoken::encode` on a payload, with an HS256 header and the
/// secret's bytes as HMAC key.
///
/// Trusted, of a payload with plain members: the outcome is the one that
/// [`hs256_token`] names for them (an object is written out with its members
/// sorted by name, so the members decide the token). Trusted, of a payload
/// with plain members that also passes validation: `jsonwebtoken::decode`
/// accepts the token that comes back under the same secret, and hands out
/// the members that went in. Nothing is claimed of a payload that holds an
/// array, an object, a boolean or a number that is no integer.
#[verifier::external_body]
pub(crate) fn sign_hs256(
    payload: &serde_json::Map<String, serde_json::Value>,
    secret: &str,
) -> (signed: Result<String, jsonwebtoken::errors::Error>)
    ensures
        plain_members(json_members(*payload)) ==> match signed {
            Ok(token) => hs256_token(json_members(*payload), secret@) == Some(token@),
            Err(_) => hs256_token(json_members(*payload), secret@) is None,
        },
        plain_members(json_members(*payload)) && passes_validation(json_members(*payload))
            ==> match signed {
            Ok(token) => hs256_payload(token@, secret@) == Some(json_members(*payload)),
            Err(_) => true,
        },
{
    let header = jsonwebtoken::Header::new(jsonwebtoken::Algorithm::HS256);
    let key = jsonwebtoken::EncodingKey::from_secret(secret.as_bytes());
    jsonwebtoken::encode(&header, payload, &key)
}

/// Calls `jsonwebtoken::decode` with a validation for HS256 whose expiry
/// check is switched off, and hands out the payload as a JSON object.
///
/// Trusted: the call succeeds exactly where [`hs256_payload`] names a
/// payload, and the object that comes back has that payload's members.
#[verifier::external_body]
pub(crate) fn verify_hs256(token: &str, secret: &str) -> (checked: Result<
    serde_json::Map<String, serde_json::Value>,
    jsonwebtoken::errors::Error,
>)
    ensures
        match checked {
            Ok(payload) => hs256_payload(token@, secret@) == Some(json_members(payload)),
            Err(_) => hs256_payload(token@, secret@) is None,
        },
{
    let mut validation = jsonwebtoken::Validation::new(jsonwebtoken::Algorithm::HS256);
    validation.validate_exp = false;
    let key = jsonwebtoken::DecodingKey::from_secret(secret.as_bytes());
    jsonwebtoken::decode(token, &key, &validation).map(|data| data.claims)
}

/// Calls `chrono::Utc::now` and takes the seconds since the Unix epoch.
///
/// Trusted: nothing is claimed of the result; it is whatever the clock says.
#[verifier::external_body]
pub(crate) fn unix_now() -> usize {
    chrono::Utc::now().timestamp() as usize
}

/// Calls `uuid::Uuid::new_v4` and writes the identifier out as text.
///
/// Trusted: nothing is claimed of the result; it is random.
#[verifier::external_body]
pub(crate) fn fresh_anonymous_id() -> String {
    uuid::Uuid::new_v4().to_string()
}

} // verus!
