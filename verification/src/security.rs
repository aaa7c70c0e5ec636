//! Who a caller is: the users of the service, and the claims that a token
//! makes about one of them. Signing and checking tokens is left to the
//! caller.
use crate::text::{starts_with, strip_prefix, trim, trimmed};
use vstd::prelude::*;

verus! {

/// The credentials that a user logs in with.
#[derive(Debug)]
pub struct User {
    pub name: String,
    pub password: String,
}

/// What a token says about its bearer.
#[derive(Debug)]
pub struct Claims {
    /// The identifier of the user: the owner of the jobs that the user
    /// creates.
    pub sub: String,
    pub user_name: String,
    /// When the token was issued, in seconds since the epoch.
    pub iat: usize,
    /// When the token expires, in seconds since the epoch.
    pub exp: usize,
}

/// A token is good for one day.
pub const TOKEN_LIFETIME: usize = 86400;

/// The secret that signs tokens where none is configured.
pub open spec fn default_secret() -> Seq<char> {
    "secret"@
}

/// The identifier of the user with this name, if there is such a user.
pub open spec fn user_id_of(name: Seq<char>) -> Option<Seq<char>> {
    if name == "jorge"@ {
        Some("f14f83b7-c626-4255-9da4-cec1ac22b4a1"@)
    } else if name == "joel"@ {
        Some("c0e38e26-8364-4bac-aed0-f0463945557b"@)
    } else {
        None
    }
}

/// The identifier of the user with this name, if there is such a user.
/// The users are fixed and no password is checked: this is for
/// demonstration, not for production.
pub fn user_id(name: &str) -> (id: Option<String>)
    ensures
        match id {
            Some(text) => user_id_of(name@) == Some(text@),
            None => user_id_of(name@) is None,
        },
{
    if name.eq("jorge") {
        Some(String::from_str("f14f83b7-c626-4255-9da4-cec1ac22b4a1"))
    } else if name.eq("joel") {
        Some(String::from_str("c0e38e26-8364-4bac-aed0-f0463945557b"))
    } else {
        None
    }
}

/// Logs a user in at the time `now`, in seconds since the epoch: the claims
/// of the token to issue, valid from `now` for one day, or nothing where the
/// user is not known.
pub fn login(user: User, now: usize) -> (claims: Option<Claims>)
    requires
        now + TOKEN_LIFETIME <= usize::MAX,
    ensures
        match claims {
            Some(c) => {
                &&& user_id_of(user.name@) == Some(c.sub@)
                &&& c.user_name@ == user.name@
                &&& c.iat == now
                &&& c.exp == now + TOKEN_LIFETIME
            },
            None => user_id_of(user.name@) is None,
        },
{
    match user_id(user.name.as_str()) {
        Some(sub) => Some(Claims { sub, user_name: user.name, iat: now, exp: now + TOKEN_LIFETIME }),
        None => None,
    }
}

/// The secret that signs tokens: the configured one, or the default where
/// none is configured. The flag says that the secret in use is the default,
/// which is fit for testing only.
pub fn signing_secret(configured: Option<String>) -> (r: (String, bool))
    ensures
        r.0@ == (match configured {
            Some(secret) => secret@,
            None => default_secret(),
        }),
        r.1 == (r.0@ == default_secret()),
{
    let secret = match configured {
        Some(secret) => secret,
        None => String::from_str("secret"),
    };
    let insecure = secret.as_str().eq("secret");
    (secret, insecure)
}

/// The token in the value of an `Authorization` header: what follows the
/// word `Bearer`, without the whitespace around it. A value that does not
/// begin with that word carries no token.
pub fn bearer_token(header: &str) -> (token: Option<&str>)
    ensures
        match token {
            Some(t) => starts_with(header@, "Bearer"@) && t@ == trimmed(
                header@.skip("Bearer"@.len() as int),
            ),
            None => !starts_with(header@, "Bearer"@),
        },
{
    match strip_prefix(header, "Bearer") {
        Some(rest) => Some(trim(rest)),
        None => None,
    }
}

} // verus!
