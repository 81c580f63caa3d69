//! The payload of an identity token, as issued and as read back.

use vstd::prelude::*;

verus! {

/// What a token asserts: who its subject is, when it was issued and when it
/// stops being valid. Times are seconds since the Unix epoch.
#[derive(Debug)]
pub struct Claims {
    /// The subject's user id.
    pub sub: u128,
    /// The subject's user name.
    pub username: String,
    /// The first second at which the token is no longer valid.
    pub exp: i64,
    /// The second at which the token was issued.
    pub iat: i64,
}

/// The mathematical value of a `Claims`.
pub struct ClaimsView {
    pub sub: u128,
    pub username: Seq<char>,
    pub exp: i64,
    pub iat: i64,
}

impl View for Claims {
    type V = ClaimsView;

    open spec fn view(&self) -> ClaimsView {
        ClaimsView { sub: self.sub, username: self.username@, exp: self.exp, iat: self.iat }
    }
}

/// The four claims as found in a token's payload. A claim is `None` where the
/// payload has no member of that name, or one of another type than expected.
#[derive(Debug)]
pub struct RawClaims {
    pub sub: Option<u128>,
    pub username: Option<String>,
    pub exp: Option<i64>,
    pub iat: Option<i64>,
}

/// The mathematical value of a `RawClaims`.
pub struct RawClaimsView {
    pub sub: Option<u128>,
    pub username: Option<Seq<char>>,
    pub exp: Option<i64>,
    pub iat: Option<i64>,
}

impl View for RawClaims {
    type V = RawClaimsView;

    open spec fn view(&self) -> RawClaimsView {
        RawClaimsView {
            sub: self.sub,
            username: match self.username {
                Some(name) => Some(name@),
                None => None,
            },
            exp: self.exp,
            iat: self.iat,
        }
    }
}

impl RawClaimsView {
    /// The payload in which all four claims are present.
    pub open spec fn of(claims: ClaimsView) -> RawClaimsView {
        RawClaimsView {
            sub: Some(claims.sub),
            username: Some(claims.username),
            exp: Some(claims.exp),
            iat: Some(claims.iat),
        }
    }

    /// All four claims are present.
    pub open spec fn complete(self) -> bool {
        self.sub is Some && self.username is Some && self.exp is Some && self.iat is Some
    }

    /// The claims of a complete payload.
    pub open spec fn claims(self) -> ClaimsView
        recommends
            self.complete(),
    {
        ClaimsView {
            sub: self.sub->0,
            username: self.username->0,
            exp: self.exp->0,
            iat: self.iat->0,
        }
    }
}

/// What came of checking a token's signature and reading its payload,
/// before any claim is judged.
#[derive(Debug)]
pub enum Decoded {
    /// The signature is genuine; this is the payload.
    Payload(RawClaims),
    /// The token has the shape of a token, but its signature does not belong
    /// to its content and the key.
    BadSignature,
    /// The token could not be read; the text says why.
    Unreadable(String),
}

/// The mathematical value of a `Decoded`.
pub enum DecodedView {
    Payload(RawClaimsView),
    BadSignature,
    Unreadable(Seq<char>),
}

impl View for Decoded {
    type V = DecodedView;

    open spec fn view(&self) -> DecodedView {
        match self {
            Decoded::Payload(raw) => DecodedView::Payload(raw@),
            Decoded::BadSignature => DecodedView::BadSignature,
            Decoded::Unreadable(reason) => DecodedView::Unreadable(reason@),
        }
    }
}

} // verus!
