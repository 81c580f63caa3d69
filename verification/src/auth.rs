//! Credential and token service: password hashing and signed, expiring
//! identity tokens.
//!
//! The service keeps no state. Hashing and signing are done by the
//! cryptographic libraries behind `backend`; what is decided here is which
//! claims a token carries, when a token read back is accepted, how each
//! failure is classified, and which login and registration requests are
//! well formed.

use crate::backend::{
    bcrypt_hash, bcrypt_verdict, bcrypt_verify, clock_reading, email_shaped, hs256_decoded,
    hs256_token, is_email, open_token, sign_claims, unix_now, LAST_CLOCK_READING,
};
use crate::claims::{Claims, ClaimsView, Decoded, DecodedView, RawClaims, RawClaimsView};
use crate::decimal::{parse_i64, parsed_i64};
use vstd::prelude::*;
use vstd::string::*;

verus! {

/// The ways in which a credential or token operation can fail.
#[derive(Clone, Copy, Debug, PartialEq, Eq, Structural)]
pub enum AuthErrorKind {
    /// The hash or the signature could not be computed.
    HashingFailure,
    /// The token's signature does not belong to its content and the key.
    InvalidSignature,
    /// The token was genuine but its expiry time has been reached.
    TokenExpired,
    /// The token, its claims or a stored hash could not be read.
    Malformed,
}

/// A failed credential or token operation: its kind, and a text for logs.
#[derive(Debug)]
pub struct AuthError {
    pub kind: AuthErrorKind,
    pub message: String,
}

impl AuthError {
    /// The message of a failure in the token library.
    pub open spec fn jwt_message(detail: Seq<char>) -> Seq<char> {
        "JWT error: "@ + detail
    }

    /// The message of a failure in the password library.
    pub open spec fn bcrypt_message(detail: Seq<char>) -> Seq<char> {
        "Bcrypt error: "@ + detail
    }

    /// The text shown for this error: the message behind a fixed prefix.
    pub open spec fn rendered(self) -> Seq<char> {
        "AuthError: "@ + self.message@
    }

    /// A failure in the token library, with the library's own description.
    pub fn jwt(kind: AuthErrorKind, detail: &str) -> (error: AuthError)
        ensures
            error.kind == kind,
            error.message@ == Self::jwt_message(detail@),
    {
        AuthError { kind, message: String::from_str("JWT error: ").concat(detail) }
    }

    /// A failure in the password library, with the library's own description.
    pub fn bcrypt(kind: AuthErrorKind, detail: &str) -> (error: AuthError)
        ensures
            error.kind == kind,
            error.message@ == Self::bcrypt_message(detail@),
    {
        AuthError { kind, message: String::from_str("Bcrypt error: ").concat(detail) }
    }

    /// The text shown for this error.
    pub fn to_string(&self) -> (text: String)
        ensures
            text@ == self.rendered(),
    {
        String::from_str("AuthError: ").concat(self.message.as_str())
    }
}

/// The signing secret and the lifetime of the tokens issued with it.
#[derive(Debug)]
pub struct JwtConfig {
    pub secret: String,
    pub expiration_hours: i64,
}

/// The lifetime of a token, in hours, where none is set.
pub const DEFAULT_EXPIRATION_HOURS: i64 = 24;

impl JwtConfig {
    /// The lifetime that a setting gives: the integer that it writes, or the
    /// default where the setting is absent or writes none.
    pub open spec fn hours_from(setting: Option<&str>) -> i64 {
        match setting {
            Some(text) => match parsed_i64(text@) {
                Some(hours) => hours,
                None => DEFAULT_EXPIRATION_HOURS,
            },
            None => DEFAULT_EXPIRATION_HOURS,
        }
    }

    /// The configuration for a secret and the text of the lifetime setting,
    /// if there is one.
    pub fn new(secret: String, expiration_hours: Option<&str>) -> (config: JwtConfig)
        ensures
            config.secret == secret,
            config.expiration_hours == Self::hours_from(expiration_hours),
    {
        let hours = match expiration_hours {
            Some(text) => match parse_i64(text) {
                Some(hours) => hours,
                None => DEFAULT_EXPIRATION_HOURS,
            },
            None => DEFAULT_EXPIRATION_HOURS,
        };
        JwtConfig { secret, expiration_hours: hours }
    }
}

/// A rule that a request breaks.
#[derive(Clone, Copy, Debug, PartialEq, Eq, Structural)]
pub enum FieldError {
    /// The address has not the shape of an e-mail address.
    InvalidEmail,
    /// The password has fewer than six characters.
    PasswordTooShort,
    /// The name is empty.
    NameRequired,
    /// The user name has fewer than three characters.
    UsernameTooShort,
}

/// The fewest characters of a password.
pub const MIN_PASSWORD_LENGTH: usize = 6;

/// The fewest characters of a name.
pub const MIN_NAME_LENGTH: usize = 1;

/// The fewest characters of a user name.
pub const MIN_USERNAME_LENGTH: usize = 3;

impl FieldError {
    /// The field that breaks the rule.
    pub open spec fn field_name(self) -> Seq<char> {
        match self {
            FieldError::InvalidEmail => "email"@,
            FieldError::PasswordTooShort => "password"@,
            FieldError::NameRequired => "name"@,
            FieldError::UsernameTooShort => "username"@,
        }
    }

    /// What is told to the user.
    pub open spec fn text(self) -> Seq<char> {
        match self {
            FieldError::InvalidEmail => "Invalid email format"@,
            FieldError::PasswordTooShort => "Password must be at least 6 characters"@,
            FieldError::NameRequired => "Name is required"@,
            FieldError::UsernameTooShort => "Username must be at least 3 characters"@,
        }
    }

    /// The field that breaks the rule.
    pub fn field(&self) -> (name: &'static str)
        ensures
            name@ == self.field_name(),
    {
        match self {
            FieldError::InvalidEmail => "email",
            FieldError::PasswordTooShort => "password",
            FieldError::NameRequired => "name",
            FieldError::UsernameTooShort => "username",
        }
    }

    /// What is told to the user.
    pub fn message(&self) -> (text: &'static str)
        ensures
            text@ == self.text(),
    {
        match self {
            FieldError::InvalidEmail => "Invalid email format",
            FieldError::PasswordTooShort => "Password must be at least 6 characters",
            FieldError::NameRequired => "Name is required",
            FieldError::UsernameTooShort => "Username must be at least 3 characters",
        }
    }
}

/// The rule, where the text breaks it: an error for a text that is no
/// e-mail address.
pub open spec fn email_errors(email: Seq<char>) -> Seq<FieldError> {
    if email_shaped(email) {
        Seq::empty()
    } else {
        seq![FieldError::InvalidEmail]
    }
}

/// The rule, where the text breaks it: an error for a text of fewer than
/// `min` characters.
pub open spec fn length_errors(text: Seq<char>, min: usize, error: FieldError) -> Seq<FieldError> {
    if text.len() >= min {
        Seq::empty()
    } else {
        seq![error]
    }
}

/// Adds to `errors` the error of an address that is no e-mail address.
fn check_email(email: &str, errors: &mut Vec<FieldError>)
    ensures
        final(errors)@ == old(errors)@ + email_errors(email@),
{
    if !is_email(email) {
        errors.push(FieldError::InvalidEmail);
    }
}

/// Adds to `errors` the error of a text that is too short.
fn check_length(text: &str, min: usize, error: FieldError, errors: &mut Vec<FieldError>)
    ensures
        final(errors)@ == old(errors)@ + length_errors(text@, min, error),
{
    if text.unicode_len() < min {
        errors.push(error);
    }
}

/// The credentials of a login.
#[derive(Debug)]
pub struct LoginRequest {
    pub email: String,
    pub password: String,
}

impl LoginRequest {
    /// The rules that the request breaks, in the order of its fields: the
    /// address is to be an e-mail address, the password to have six
    /// characters or more.
    pub open spec fn errors(self) -> Seq<FieldError> {
        email_errors(self.email@) + length_errors(
            self.password@,
            MIN_PASSWORD_LENGTH,
            FieldError::PasswordTooShort,
        )
    }

    /// Checks the request against its rules.
    pub fn validate(&self) -> (result: Result<(), Vec<FieldError>>)
        ensures
            match result {
                Ok(()) => self.errors().len() == 0,
                Err(errors) => errors@ == self.errors() && errors@.len() > 0,
            },
    {
        let mut errors: Vec<FieldError> = Vec::new();
        check_email(self.email.as_str(), &mut errors);
        check_length(
            self.password.as_str(),
            MIN_PASSWORD_LENGTH,
            FieldError::PasswordTooShort,
            &mut errors,
        );
        if errors.len() == 0 {
            Ok(())
        } else {
            Err(errors)
        }
    }
}

/// What a new account is registered with.
#[derive(Debug)]
pub struct RegisterRequest {
    pub name: String,
    pub email: String,
    pub username: String,
    pub password: String,
    pub image_url: Option<String>,
}

impl RegisterRequest {
    /// The rules that the request breaks, in the order of its fields: the
    /// name is not to be empty, the address is to be an e-mail address, the
    /// user name to have three characters or more and the password six.
    pub open spec fn errors(self) -> Seq<FieldError> {
        length_errors(self.name@, MIN_NAME_LENGTH, FieldError::NameRequired) + email_errors(
            self.email@,
        ) + length_errors(self.username@, MIN_USERNAME_LENGTH, FieldError::UsernameTooShort)
            + length_errors(self.password@, MIN_PASSWORD_LENGTH, FieldError::PasswordTooShort)
    }

    /// Checks the request against its rules.
    pub fn validate(&self) -> (result: Result<(), Vec<FieldError>>)
        ensures
            match result {
                Ok(()) => self.errors().len() == 0,
                Err(errors) => errors@ == self.errors() && errors@.len() > 0,
            },
    {
        let mut errors: Vec<FieldError> = Vec::new();
        check_length(self.name.as_str(), MIN_NAME_LENGTH, FieldError::NameRequired, &mut errors);
        check_email(self.email.as_str(), &mut errors);
        check_length(
            self.username.as_str(),
            MIN_USERNAME_LENGTH,
            FieldError::UsernameTooShort,
            &mut errors,
        );
        check_length(
            self.password.as_str(),
            MIN_PASSWORD_LENGTH,
            FieldError::PasswordTooShort,
            &mut errors,
        );
        if errors.len() == 0 {
            Ok(())
        } else {
            Err(errors)
        }
    }
}

/// The account as shown to its owner after authentication.
#[derive(Debug)]
pub struct AuthUser {
    pub id: u128,
    pub name: String,
    pub email: String,
    pub username: String,
    pub image_url: Option<String>,
}

/// The answer to a successful login or registration.
#[derive(Debug)]
pub struct AuthResponse {
    pub token: String,
    pub user: AuthUser,
}

/// A result with its error reduced to the kind of failure.
pub open spec fn kind_of<T>(result: Result<T, AuthError>) -> Result<T, AuthErrorKind> {
    match result {
        Ok(value) => Ok(value),
        Err(error) => Err(error.kind),
    }
}

/// A validation result as a mathematical value.
pub open spec fn claims_result(
    result: Result<Claims, AuthError>,
) -> Result<ClaimsView, AuthErrorKind> {
    match result {
        Ok(claims) => Ok(claims@),
        Err(error) => Err(error.kind),
    }
}

// ---------------------------------------------------------------------------
// Passwords
// ---------------------------------------------------------------------------

/// The stored hash accepts the password.
pub open spec fn password_fits(password: Seq<char>, hash: Seq<char>) -> bool {
    bcrypt_verdict(password, hash) == Some(true)
}

/// What verifying a password against a stored hash returns.
pub open spec fn verify_outcome(
    password: Seq<char>,
    hash: Seq<char>,
) -> Result<bool, AuthErrorKind> {
    match bcrypt_verdict(password, hash) {
        Some(fits) => Ok(fits),
        None => Err(AuthErrorKind::Malformed),
    }
}

/// What is returned for each outcome of the hashing library: its hash, or a
/// `HashingFailure` that carries the library's description.
pub fn hash_from_library(hashed: Result<String, String>) -> (result: Result<String, AuthError>)
    ensures
        match hashed {
            Ok(hash) => result == Ok::<String, AuthError>(hash),
            Err(detail) => result matches Err(error) && error.kind == AuthErrorKind::HashingFailure
                && error.message@ == AuthError::bcrypt_message(detail@),
        },
{
    match hashed {
        Ok(hash) => Ok(hash),
        Err(detail) => Err(AuthError::bcrypt(AuthErrorKind::HashingFailure, detail.as_str())),
    }
}

/// Hashes a password with a fresh random salt at a fixed cost.
///
/// A hash that is returned accepts the password. The only failure is a
/// `HashingFailure`, which the hashing library decides. The hash is bcrypt's,
/// which reads the first 72 bytes of a password and no more.
pub fn hash_password(password: &str) -> (result: Result<String, AuthError>)
    ensures
        match result {
            Ok(hash) => password_fits(password@, hash@),
            Err(error) => error.kind == AuthErrorKind::HashingFailure
                && "Bcrypt error: "@.is_prefix_of(error.message@),
        },
{
    let result = hash_from_library(bcrypt_hash(password));
    proof {
        if result is Err {
            assert(result->Err_0.message@.subrange(0, "Bcrypt error: "@.len() as int)
                =~= "Bcrypt error: "@);
        }
    }
    result
}

/// Tells whether a password fits a stored hash. A mismatch is `Ok(false)`;
/// the only error is `Malformed`, for a hash that the hashing library
/// refuses. What fits is bcrypt's to say: nothing is stated here of a
/// password other than the one that was hashed.
pub fn verify_password(password: &str, hash: &str) -> (result: Result<bool, AuthError>)
    ensures
        kind_of(result) == verify_outcome(password@, hash@),
        result matches Err(error) ==> "Bcrypt error: "@.is_prefix_of(error.message@),
{
    match bcrypt_verify(password, hash) {
        Ok(fits) => Ok(fits),
        Err(detail) => {
            let error = AuthError::bcrypt(AuthErrorKind::Malformed, detail.as_str());
            assert(error.message@.subrange(0, "Bcrypt error: "@.len() as int)
                =~= "Bcrypt error: "@);
            Err(error)
        },
    }
}

/// A password verifies as `true` against every hash that hashing it can
/// return.
pub proof fn lemma_hashed_password_verifies(password: Seq<char>, hash: Seq<char>)
    requires
        password_fits(password, hash),
    ensures
        verify_outcome(password, hash) == Ok::<bool, AuthErrorKind>(true),
{
}

// ---------------------------------------------------------------------------
// Issuing
// ---------------------------------------------------------------------------

/// The expiry time of a token issued at `issued_at` that lives `ttl_hours`.
pub open spec fn expiry(issued_at: i64, ttl_hours: i64) -> int {
    issued_at + ttl_hours * 3600
}

/// The expiry time is one that a claim can hold.
pub open spec fn expiry_fits(issued_at: i64, ttl_hours: i64) -> bool {
    i64::MIN <= expiry(issued_at, ttl_hours) <= i64::MAX
}

/// The claims of a token issued to a subject at `issued_at` for `ttl_hours`.
pub open spec fn claims_at(
    sub: u128,
    username: Seq<char>,
    issued_at: i64,
    ttl_hours: i64,
) -> ClaimsView {
    ClaimsView { sub, username, exp: expiry(issued_at, ttl_hours) as i64, iat: issued_at }
}

/// `token` is the signed form of `claims` under `secret`: it is the token
/// that signing these claims yields, and it reads back as these claims.
pub open spec fn issued(token: Seq<char>, claims: ClaimsView, secret: Seq<char>) -> bool {
    &&& token == hs256_token(claims.sub, claims.username, claims.exp, claims.iat, secret)
    &&& hs256_decoded(token, secret) == DecodedView::Payload(RawClaimsView::of(claims))
}

impl Claims {
    /// The claims of a token issued now: the subject, the issue time, and
    /// the expiry `ttl_hours` later. `None` where that expiry is outside the
    /// range of a timestamp.
    pub fn issue(
        sub: u128,
        username: &str,
        issued_at: i64,
        ttl_hours: i64,
    ) -> (claims: Option<Claims>)
        ensures
            claims is Some <==> expiry_fits(issued_at, ttl_hours),
            claims matches Some(c) ==> c@ == claims_at(sub, username@, issued_at, ttl_hours),
    {
        let exp: i128 = issued_at as i128 + ttl_hours as i128 * 3600;
        if exp < i64::MIN as i128 || exp > i64::MAX as i128 {
            None
        } else {
            let username = String::from_str(username);
            Some(Claims { sub, username, exp: exp as i64, iat: issued_at })
        }
    }
}

/// What is returned for each outcome of the signing library: its token, or a
/// `HashingFailure` that carries the library's description.
pub fn token_from_library(signed: Result<String, String>) -> (result: Result<String, AuthError>)
    ensures
        match signed {
            Ok(token) => result == Ok::<String, AuthError>(token),
            Err(detail) => result matches Err(error) && error.kind == AuthErrorKind::HashingFailure
                && error.message@ == AuthError::jwt_message(detail@),
        },
{
    match signed {
        Ok(token) => Ok(token),
        Err(detail) => Err(AuthError::jwt(AuthErrorKind::HashingFailure, detail.as_str())),
    }
}

/// Tells whether a token issued at `issued_at` for `ttl_hours` has an
/// expiry time that a claim can hold.
pub fn expiry_in_range(issued_at: i64, ttl_hours: i64) -> (fits: bool)
    ensures
        fits == expiry_fits(issued_at, ttl_hours),
{
    let exp: i128 = issued_at as i128 + ttl_hours as i128 * 3600;
    i64::MIN as i128 <= exp && exp <= i64::MAX as i128
}

impl JwtConfig {
    /// The lifetime is one with which a token can be issued whatever the
    /// clock reads: the expiry time is one that a claim can hold at the
    /// first clock reading and at the last, and so at every one between.
    pub open spec fn lifetime_fits(self) -> bool {
        &&& expiry_fits(0, self.expiration_hours)
        &&& expiry_fits(LAST_CLOCK_READING, self.expiration_hours)
    }

    /// Tells whether a token can be issued with this configuration whatever
    /// the clock reads.
    pub fn can_issue(&self) -> (yes: bool)
        ensures
            yes == self.lifetime_fits(),
    {
        expiry_in_range(0, self.expiration_hours) && expiry_in_range(
            LAST_CLOCK_READING,
            self.expiration_hours,
        )
    }
}

/// `result` is the token issued to the subject at the time `now`: the
/// signed form of the claims for that time.
pub open spec fn created_at(
    result: Result<String, AuthError>,
    user_id: u128,
    username: Seq<char>,
    config: JwtConfig,
    now: i64,
) -> bool {
    result matches Ok(token) && issued(
        token@,
        claims_at(user_id, username, now, config.expiration_hours),
        config.secret@,
    )
}

/// Issues a token for a subject at the time `now`.
///
/// The token carries the subject's id and name, `now` as its issue time and
/// `now` plus the configured lifetime as its expiry, signed with the
/// configured secret. That expiry has to be a time that a claim can hold.
pub fn create_token_at(
    user_id: u128,
    username: &str,
    config: &JwtConfig,
    now: i64,
) -> (result: Result<String, AuthError>)
    requires
        expiry_fits(now, config.expiration_hours),
    ensures
        created_at(result, user_id, username@, *config, now),
{
    let claims = Claims::issue(user_id, username, now, config.expiration_hours).unwrap();
    token_from_library(
        sign_claims(
            claims.sub,
            claims.username.as_str(),
            claims.exp,
            claims.iat,
            config.secret.as_str(),
        ),
    )
}

/// Issues a token for a subject at the current time: the token is the one
/// that `create_token_at` returns at the time that the clock has read. The
/// lifetime has to be one with which a token can be issued whatever the
/// clock reads.
pub fn create_token(
    user_id: u128,
    username: &str,
    config: &JwtConfig,
) -> (result: Result<String, AuthError>)
    requires
        config.lifetime_fits(),
    ensures
        exists|now: i64| clock_reading(now) && created_at(result, user_id, username@, *config, now),
{
    let now = unix_now();
    let result = create_token_at(user_id, username, config, now);
    assert(clock_reading(now) && created_at(result, user_id, username@, *config, now));
    result
}

// ---------------------------------------------------------------------------
// Validating
// ---------------------------------------------------------------------------

/// What validation returns at the time `now` for a token that was decoded to
/// `decoded`. The signature is judged first: a token whose signature does
/// not fit is refused as such, whatever it claims. Then the claims must be
/// complete, and the expiry must lie after `now`.
pub open spec fn validation_outcome(
    decoded: DecodedView,
    now: i64,
) -> Result<ClaimsView, AuthErrorKind> {
    match decoded {
        DecodedView::BadSignature => Err(AuthErrorKind::InvalidSignature),
        DecodedView::Unreadable(_) => Err(AuthErrorKind::Malformed),
        DecodedView::Payload(raw) => if !raw.complete() {
            Err(AuthErrorKind::Malformed)
        } else if raw.claims().exp > now {
            Ok(raw.claims())
        } else {
            Err(AuthErrorKind::TokenExpired)
        },
    }
}

/// The description that goes with each refusal.
pub open spec fn refusal_detail(decoded: DecodedView, now: i64) -> Seq<char> {
    match decoded {
        DecodedView::BadSignature => "InvalidSignature"@,
        DecodedView::Unreadable(reason) => reason,
        DecodedView::Payload(raw) => if !raw.complete() {
            "incomplete claims"@
        } else {
            "ExpiredSignature"@
        },
    }
}

/// `result` is what validation returns at `now` for a token decoded to
/// `decoded`.
pub open spec fn validated(
    result: Result<Claims, AuthError>,
    decoded: DecodedView,
    now: i64,
) -> bool {
    &&& claims_result(result) == validation_outcome(decoded, now)
    &&& result matches Err(error) ==> error.message@ == AuthError::jwt_message(
        refusal_detail(decoded, now),
    )
}

/// Judges a decoded token at the time `now`.
pub fn validate_decoded(decoded: Decoded, now: i64) -> (result: Result<Claims, AuthError>)
    ensures
        validated(result, decoded@, now),
{
    match decoded {
        Decoded::BadSignature => Err(
            AuthError::jwt(AuthErrorKind::InvalidSignature, "InvalidSignature"),
        ),
        Decoded::Unreadable(reason) => Err(
            AuthError::jwt(AuthErrorKind::Malformed, reason.as_str()),
        ),
        Decoded::Payload(raw) => {
            let RawClaims { sub, username, exp, iat } = raw;
            match (sub, username, exp, iat) {
                (Some(sub), Some(username), Some(exp), Some(iat)) => {
                    if exp > now {
                        Ok(Claims { sub, username, exp, iat })
                    } else {
                        Err(AuthError::jwt(AuthErrorKind::TokenExpired, "ExpiredSignature"))
                    }
                },
                _ => Err(AuthError::jwt(AuthErrorKind::Malformed, "incomplete claims")),
            }
        },
    }
}

/// Validates a token at the time `now`: the signature under the configured
/// secret first, then the claims and the expiry.
pub fn validate_token_at(
    token: &str,
    config: &JwtConfig,
    now: i64,
) -> (result: Result<Claims, AuthError>)
    ensures
        validated(result, hs256_decoded(token@, config.secret@), now),
{
    validate_decoded(open_token(token, config.secret.as_str()), now)
}

/// Validates a token at the current time: the result is what
/// `validate_token_at` returns at some time, the one that the clock gave.
pub fn validate_token(token: &str, config: &JwtConfig) -> (result: Result<Claims, AuthError>)
    ensures
        exists|now: i64|
            clock_reading(now) && validated(result, hs256_decoded(token@, config.secret@), now),
{
    let now = unix_now();
    let result = validate_token_at(token, config, now);
    assert(clock_reading(now) && validated(result, hs256_decoded(token@, config.secret@), now));
    result
}

// ---------------------------------------------------------------------------
// Laws
// ---------------------------------------------------------------------------

/// A token issued to a subject validates, under the key that signed it and
/// at any time before its expiry, to claims that name that subject.
pub proof fn lemma_issued_token_validates(
    token: Seq<char>,
    user_id: u128,
    username: Seq<char>,
    secret: Seq<char>,
    ttl_hours: i64,
    issued_at: i64,
    now: i64,
)
    requires
        expiry_fits(issued_at, ttl_hours),
        issued(token, claims_at(user_id, username, issued_at, ttl_hours), secret),
        now < expiry(issued_at, ttl_hours),
    ensures
        validation_outcome(hs256_decoded(token, secret), now) == Ok::<ClaimsView, AuthErrorKind>(
            claims_at(user_id, username, issued_at, ttl_hours),
        ),
        claims_at(user_id, username, issued_at, ttl_hours).sub == user_id,
        claims_at(user_id, username, issued_at, ttl_hours).username == username,
{
}

/// A fresh token is valid at the moment of its issue, and from then up to
/// its expiry, exactly when its lifetime is positive.
pub proof fn lemma_fresh_token_valid_iff_positive_lifetime(
    token: Seq<char>,
    user_id: u128,
    username: Seq<char>,
    secret: Seq<char>,
    ttl_hours: i64,
    issued_at: i64,
)
    requires
        expiry_fits(issued_at, ttl_hours),
        issued(token, claims_at(user_id, username, issued_at, ttl_hours), secret),
    ensures
        validation_outcome(hs256_decoded(token, secret), issued_at) is Ok <==> ttl_hours > 0,
        ttl_hours > 0 ==> validation_outcome(hs256_decoded(token, secret), issued_at) == Ok::<
            ClaimsView,
            AuthErrorKind,
        >(claims_at(user_id, username, issued_at, ttl_hours)),
{
}

/// An issued token is refused as expired, under the key that signed it, from
/// its expiry time on; and once refused so it is never accepted again.
pub proof fn lemma_issued_token_expires(
    token: Seq<char>,
    claims: ClaimsView,
    secret: Seq<char>,
    now: i64,
    later: i64,
)
    requires
        issued(token, claims, secret),
        claims.exp <= now <= later,
    ensures
        validation_outcome(hs256_decoded(token, secret), now) == Err::<ClaimsView, AuthErrorKind>(
            AuthErrorKind::TokenExpired,
        ),
        validation_outcome(hs256_decoded(token, secret), later) == Err::<
            ClaimsView,
            AuthErrorKind,
        >(AuthErrorKind::TokenExpired),
{
}

/// A token whose signature does not fit is refused as `InvalidSignature` at
/// every time: the expiry is never consulted.
pub proof fn lemma_signature_judged_first(token: Seq<char>, secret: Seq<char>, now: i64)
    requires
        hs256_decoded(token, secret) == DecodedView::BadSignature,
    ensures
        validation_outcome(hs256_decoded(token, secret), now) == Err::<ClaimsView, AuthErrorKind>(
            AuthErrorKind::InvalidSignature,
        ),
{
}

} // verus!
