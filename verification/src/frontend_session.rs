//! Frontend sessions and the one-time codes that are exchanged for them.

use vstd::prelude::*;

use crate::keys::CreatorPubky;
use crate::timestamp::Timestamp;

verus! {

/// One-time code that a frontend exchanges for a session.
#[derive(PartialEq, Eq)]
pub struct FrontendSessionCode(String);

impl View for FrontendSessionCode {
    type V = Seq<char>;

    closed spec fn view(&self) -> Seq<char> {
        self.0@
    }
}

impl Clone for FrontendSessionCode {
    fn clone(&self) -> (copy: Self)
        ensures
            copy == *self,
    {
        FrontendSessionCode(self.0.clone())
    }
}

impl FrontendSessionCode {
    /// Wraps a one-time code.
    pub fn new(value: &str) -> (code: Self)
        ensures
            code@ == value@,
    {
        FrontendSessionCode(value.to_owned())
    }

    /// Exposes the raw code.
    pub fn expose_code(&self) -> (code: &str)
        ensures
            code@ == self@,
    {
        self.0.as_str()
    }
}

/// Stored one-time code.
#[derive(Clone, PartialEq, Eq)]
pub struct FrontendSessionCodeRecord {
    /// The code itself.
    pub code: FrontendSessionCode,
    /// Creator the session will belong to.
    pub creator: CreatorPubky,
    /// Opaque frontend state that the exchange must repeat.
    pub state: String,
    /// Frontend return target that the exchange must repeat.
    pub return_to: String,
    /// Creation time.
    pub created_at: Timestamp,
    /// Expiration time.
    pub expires_at: Timestamp,
    /// When the code was consumed, if it was.
    pub consumed_at: Option<Timestamp>,
}

/// Bearer token of a frontend session.
#[derive(PartialEq, Eq, Hash)]
pub struct FrontendSessionToken(String);

impl View for FrontendSessionToken {
    type V = Seq<char>;

    closed spec fn view(&self) -> Seq<char> {
        self.0@
    }
}

impl Clone for FrontendSessionToken {
    fn clone(&self) -> (copy: Self)
        ensures
            copy == *self,
    {
        FrontendSessionToken(self.0.clone())
    }
}

impl FrontendSessionToken {
    /// Wraps a bearer token.
    pub fn new(value: &str) -> (token: Self)
        ensures
            token@ == value@,
    {
        FrontendSessionToken(value.to_owned())
    }

    /// Exposes the raw token.
    pub fn expose_token(&self) -> (token: &str)
        ensures
            token@ == self@,
    {
        self.0.as_str()
    }
}

/// Stored frontend session.
#[derive(Clone, PartialEq, Eq)]
pub struct FrontendSessionRecord {
    /// Bearer token of the session.
    pub token: FrontendSessionToken,
    /// Creator the session belongs to.
    pub creator: CreatorPubky,
    /// Creation time.
    pub created_at: Timestamp,
    /// Expiration time. A session expires when `now >= expires_at`.
    pub expires_at: Timestamp,
}

impl FrontendSessionRecord {
    /// Whether the session has expired at `now`.
    pub fn is_expired_at(&self, now: Timestamp) -> (expired: bool)
        ensures
            expired == (now@ >= self.expires_at@),
    {
        !self.expires_at.is_after(now)
    }
}

} // verus!
