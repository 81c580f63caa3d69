//! The calls into the cryptographic, validation and time libraries. Nothing
//! in this file is proved: each contract states what the called function is
//! trusted to do.

use crate::claims::{ClaimsView, Decoded, DecodedView, RawClaims, RawClaimsView};
use jsonwebtoken::errors::ErrorKind;
use jsonwebtoken::{Algorithm, DecodingKey, EncodingKey, Header, Validation};
use serde_json::Value;
use uuid::Uuid;
use vstd::prelude::*;

verus! {

/// The token that `jsonwebtoken::encode` produces for the default HS256
/// header, the four claims in the order `sub`, `username`, `exp`, `iat`
/// (`sub` as a hyphenated UUID), and the secret as an HMAC key.
pub uninterp spec fn hs256_token(
    sub: u128,
    username: Seq<char>,
    exp: i64,
    iat: i64,
    secret: Seq<char>,
) -> Seq<char>;

/// What `jsonwebtoken::decode` makes of a token under an HMAC secret when
/// only HS256 is allowed and no claim is required or judged for its time:
/// the payload's four claims, a signature that does not fit, or the reason
/// why the token could not be read. A token that names an audience is among
/// those that cannot be read, as is the library's default.
///
/// The name stands for more than `decode` alone. The payload comes back from
/// it as a `serde_json::Value`, and the four claims are what the readers of
/// that type make of its members: `as_str` for `sub` and `username`,
/// `as_i64` for `exp` and `iat`, and `uuid::Uuid::parse_str` on the text of
/// `sub`. A member that is absent, or that such a reader refuses, is `None`.
pub uninterp spec fn hs256_decoded(token: Seq<char>, secret: Seq<char>) -> DecodedView;

/// What `bcrypt::verify` makes of a password and a stored hash: whether the
/// password fits the hash, or `None` where the hash is refused, because it
/// has not the form of a bcrypt hash or names a cost that bcrypt does not
/// allow.
pub uninterp spec fn bcrypt_verdict(password: Seq<char>, hash: Seq<char>) -> Option<bool>;

/// What `validator::ValidateEmail::validate_email` makes of a text: whether
/// it has the shape of an e-mail address, as HTML5 defines it for forms.
pub uninterp spec fn email_shaped(text: Seq<char>) -> bool;

/// Signs the four claims with `jsonwebtoken::encode`.
///
/// Trusted: the call succeeds, the token is the one named by `hs256_token`,
/// and decoding it under the same secret yields exactly these four claims.
/// `encode` fails only where the key is of another family than the header's
/// algorithm, or where the header or the payload cannot be written as JSON;
/// here the key is an HMAC secret for the default HS256 header, and the
/// payload is a map from texts to texts and integers.
#[verifier::external_body]
pub(crate) fn sign_claims(
    sub: u128,
    username: &str,
    exp: i64,
    iat: i64,
    secret: &str,
) -> (signed: Result<String, String>)
    ensures
        signed is Ok,
        signed matches Ok(token) ==> token@ == hs256_token(sub, username@, exp, iat, secret@),
        signed matches Ok(token) ==> hs256_decoded(token@, secret@) == DecodedView::Payload(
            RawClaimsView::of((ClaimsView { sub, username: username@, exp, iat })),
        ),
{
    let mut claims = serde_json::Map::new();
    claims.insert("sub".to_string(), Uuid::from_u128(sub).to_string().into());
    claims.insert("username".to_string(), username.into());
    claims.insert("exp".to_string(), exp.into());
    claims.insert("iat".to_string(), iat.into());
    let key = EncodingKey::from_secret(secret.as_bytes());
    jsonwebtoken::encode(&Header::default(), &claims, &key).map_err(|e| e.to_string())
}

/// Checks a token's signature and reads its payload with
/// `jsonwebtoken::decode`, HS256 only, with the expiry check and the list of
/// required claims switched off.
///
/// Trusted: the result is the one named by `hs256_decoded`. A signature
/// mismatch is told apart from every other failure by the library's error
/// kind; `sub` is read with `uuid::Uuid::parse_str`.
#[verifier::external_body]
pub(crate) fn open_token(token: &str, secret: &str) -> (decoded: Decoded)
    ensures
        decoded@ == hs256_decoded(token@, secret@),
{
    let mut rules = Validation::new(Algorithm::HS256);
    rules.validate_exp = false;
    rules.required_spec_claims.clear();
    match jsonwebtoken::decode::<Value>(token, &DecodingKey::from_secret(secret.as_bytes()), &rules) {
        Ok(data) => Decoded::Payload(RawClaims {
            sub: data.claims["sub"].as_str().and_then(|s| Uuid::parse_str(s).ok()).map(|u| u.as_u128()),
            username: data.claims["username"].as_str().map(String::from),
            exp: data.claims["exp"].as_i64(),
            iat: data.claims["iat"].as_i64(),
        }),
        Err(e) if matches!(e.kind(), ErrorKind::InvalidSignature) => Decoded::BadSignature,
        Err(e) => Decoded::Unreadable(e.to_string()),
    }
}

/// Tells with `validator::ValidateEmail::validate_email` whether a text has
/// the shape of an e-mail address.
///
/// Trusted: the result is the one named by `email_shaped`.
#[verifier::external_body]
pub(crate) fn is_email(text: &str) -> (shaped: bool)
    ensures
        shaped == email_shaped(text@),
{
    validator::ValidateEmail::validate_email(&text)
}

/// The last second that a clock reading can be: the last one of the last
/// day after 1970 whose number is an `i32`, 2^31 * 86400 - 1.
pub const LAST_CLOCK_READING: i64 = 185_542_587_187_199;

/// The value is one that the clock can read.
pub open spec fn clock_reading(now: i64) -> bool {
    0 <= now <= LAST_CLOCK_READING
}

/// The current time from `chrono::Utc::now`, in whole seconds since the Unix
/// epoch.
///
/// Trusted: the value is a clock reading. `Utc::now` takes the time that has
/// passed since 1970, which is not negative, and makes a `DateTime` of its
/// seconds with `DateTime::from_timestamp`, which refuses a second whose
/// day, counted from the year 1 in days of 86400 seconds, is no `i32`;
/// `timestamp` gives those seconds back. (`chrono` stops the program where
/// the system clock stands outside that range.)
#[verifier::external_body]
pub(crate) fn unix_now() -> (now: i64)
    ensures
        clock_reading(now),
{
    chrono::Utc::now().timestamp()
}

/// Hashes a password with `bcrypt::hash` at the library's default cost and a
/// fresh random salt.
///
/// Trusted: a hash that comes back is one that `bcrypt::verify` accepts for
/// the same password. Nothing is claimed about when the call succeeds.
#[verifier::external_body]
pub(crate) fn bcrypt_hash(password: &str) -> (hashed: Result<String, String>)
    ensures
        hashed matches Ok(hash) ==> bcrypt_verdict(password@, hash@) == Some(true),
{
    bcrypt::hash(password, bcrypt::DEFAULT_COST).map_err(|e| e.to_string())
}

/// Compares a password with a stored hash through `bcrypt::verify`.
///
/// Trusted: the result is the one named by `bcrypt_verdict`; an error comes
/// back exactly where the library refuses the hash, with the library's
/// text.
#[verifier::external_body]
pub(crate) fn bcrypt_verify(password: &str, hash: &str) -> (checked: Result<bool, String>)
    ensures
        match checked {
            Ok(fits) => bcrypt_verdict(password@, hash@) == Some(fits),
            Err(_) => bcrypt_verdict(password@, hash@) is None,
        },
{
    bcrypt::verify(password, hash).map_err(|e| e.to_string())
}

} // verus!
