//! Identity resolution: classifying a request by its session cookie.

use crate::outside::{hs256_payload, unix_now};
use crate::token::{decode_outcome, verify_token_at, Claims, ClaimsView, TokenError};
use vstd::prelude::*;

verus! {

/// Name of the cookie that carries the session token.
pub const AUTH_COOKIE_NAME: &'static str = "auth_token";

/// The identity that a request resolved to.
#[derive(Debug)]
pub enum UserContext {
    /// The cookie held a token with a valid signature that has not lapsed.
    Authenticated(Claims),
    /// There was no cookie, or its token has lapsed.
    Anonymous,
    /// The cookie held something that is no valid token.
    InvalidToken,
}

/// Mathematical model of [`UserContext`].
pub ghost enum UserContextView {
    Authenticated(ClaimsView),
    Anonymous,
    InvalidToken,
}

impl View for UserContext {
    type V = UserContextView;

    open spec fn view(&self) -> UserContextView {
        match self {
            UserContext::Authenticated(claims) => UserContextView::Authenticated(claims@),
            UserContext::Anonymous => UserContextView::Anonymous,
            UserContext::InvalidToken => UserContextView::InvalidToken,
        }
    }
}

impl Clone for UserContext {
    fn clone(&self) -> (copy: Self)
        ensures
            copy@ == self@,
    {
        match self {
            UserContext::Authenticated(claims) => UserContext::Authenticated(claims.clone()),
            UserContext::Anonymous => UserContext::Anonymous,
            UserContext::InvalidToken => UserContext::InvalidToken,
        }
    }
}

impl UserContext {
    /// The claims of an authenticated identity, `None` for the other two.
    pub fn get_claims(&self) -> (claims: Option<&Claims>)
        ensures
            match *self {
                UserContext::Authenticated(held) => claims == Some(&held),
                _ => claims is None,
            },
    {
        match self {
            UserContext::Authenticated(claims) => Some(claims),
            _ => None,
        }
    }

    /// Whether the identity is authenticated.
    pub fn is_authenticated(&self) -> (authenticated: bool)
        ensures
            authenticated == (*self is Authenticated),
    {
        match self {
            UserContext::Authenticated(_) => true,
            _ => false,
        }
    }

    /// Whether the identity has no usable token, so that a new one must be
    /// minted before anything is stored for it.
    pub fn needs_new_token(&self) -> (needed: bool)
        ensures
            needed == (*self is Anonymous || *self is InvalidToken),
            needed == !(*self is Authenticated),
    {
        match self {
            UserContext::Anonymous => true,
            UserContext::InvalidToken => true,
            UserContext::Authenticated(_) => false,
        }
    }
}

/// The identity that an outcome of decoding stands for: claims authenticate,
/// a lapsed token is anonymous, any other failure is an invalid token.
pub open spec fn identity_of_outcome(outcome: Result<ClaimsView, TokenError>) -> UserContextView {
    match outcome {
        Ok(claims) => UserContextView::Authenticated(claims),
        Err(TokenError::ExpiredToken) => UserContextView::Anonymous,
        Err(_) => UserContextView::InvalidToken,
    }
}

/// The identity of a request at `now`, given the value of its session cookie
/// if it has one.
pub open spec fn identity_at(
    cookie: Option<Seq<char>>,
    secret: Seq<char>,
    now: nat,
) -> UserContextView {
    match cookie {
        None => UserContextView::Anonymous,
        Some(token) => identity_of_outcome(decode_outcome(hs256_payload(token, secret), now)),
    }
}

/// The value of a cookie that may be absent, by view.
pub open spec fn cookie_view(cookie: Option<&str>) -> Option<Seq<char>> {
    match cookie {
        Some(token) => Some(token@),
        None => None,
    }
}

/// Classifies what decoding a cookie's token gave.
pub fn classify_decoded(decoded: Result<Claims, TokenError>) -> (context: UserContext)
    ensures
        context@ == identity_of_outcome(
            match decoded {
                Ok(claims) => Ok(claims@),
                Err(error) => Err(error),
            },
        ),
{
    match decoded {
        Ok(claims) => UserContext::Authenticated(claims),
        Err(TokenError::ExpiredToken) => UserContext::Anonymous,
        Err(_) => UserContext::InvalidToken,
    }
}

/// Resolves the identity of a request at `now` from the value of its session
/// cookie, if it has one.
pub fn resolve_identity_at(cookie: Option<&str>, secret: &str, now: usize) -> (context: UserContext)
    ensures
        context@ == identity_at(cookie_view(cookie), secret@, now as nat),
{
    match cookie {
        None => UserContext::Anonymous,
        Some(token) => classify_decoded(verify_token_at(token, secret, now)),
    }
}

/// Resolves the identity of a request now.
///
/// Whatever the clock gave, the identity is the one of
/// [`resolve_identity_at`] at some time. Without a cookie it is anonymous.
pub fn resolve_identity(cookie: Option<&str>, secret: &str) -> (context: UserContext)
    ensures
        exists|now: nat|
            context@ == #[trigger] identity_at(cookie_view(cookie), secret@, now),
        cookie is None ==> context@ == UserContextView::Anonymous,
{
    match cookie {
        None => {
            assert(identity_at(None, secret@, 0) == UserContextView::Anonymous);
            UserContext::Anonymous
        },
        Some(token) => {
            let now = unix_now();
            resolve_identity_at(Some(token), secret, now)
        },
    }
}

} // verus!
