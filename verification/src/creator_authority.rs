//! Creator-granted authority: what is stored, what is pending, and when it may be used.

use vstd::prelude::*;
use vstd::string::*;

use crate::error::{ApplicationError, ErrorView};
use crate::keys::CreatorPubky;
use crate::text::{copy_texts, same_text};
use crate::timestamp::Timestamp;

verus! {

/// Auth mechanism used for a creator-granted Lock Server homeserver authority.
#[derive(Debug, Clone, Copy, PartialEq, Eq, Structural)]
pub enum CreatorAuthorityAuthKind {
    /// Interim legacy cookie/session auth flow.
    LegacyCookie,
    /// Grant + Proof-of-Possession auth flow. The stored secret is delegated grant restore
    /// state; the PoP private key is held by the Lock Server outside the store.
    Grant,
}

/// Stable storage representation of an auth kind.
pub open spec fn auth_kind_text(auth_kind: CreatorAuthorityAuthKind) -> Seq<char> {
    match auth_kind {
        CreatorAuthorityAuthKind::LegacyCookie => "legacy_cookie"@,
        CreatorAuthorityAuthKind::Grant => "grant"@,
    }
}

/// The storage representations of different auth kinds differ.
pub proof fn law_auth_kind_texts_differ(
    left: CreatorAuthorityAuthKind,
    right: CreatorAuthorityAuthKind,
)
    ensures
        auth_kind_text(left) == auth_kind_text(right) <==> left == right,
{
    reveal_strlit("legacy_cookie");
    reveal_strlit("grant");
    assert("legacy_cookie"@.len() != "grant"@.len());
}

/// `read` is the auth kind whose storage representation `value` is, or the error that tells that
/// there is none.
pub open spec fn is_read_auth_kind(
    value: Seq<char>,
    read: Result<CreatorAuthorityAuthKind, ApplicationError>,
) -> bool {
    match read {
        Ok(auth_kind) => value == auth_kind_text(auth_kind),
        Err(error) => {
            &&& forall|auth_kind: CreatorAuthorityAuthKind|
                value != #[trigger] auth_kind_text(auth_kind)
            &&& error@ == ErrorView::InvalidCreatorAuthorityAuthKind { auth_kind: value }
        },
    }
}

impl CreatorAuthorityAuthKind {
    /// Stable storage representation.
    pub fn as_str(self) -> (text: &'static str)
        ensures
            text@ == auth_kind_text(self),
    {
        match self {
            CreatorAuthorityAuthKind::LegacyCookie => "legacy_cookie",
            CreatorAuthorityAuthKind::Grant => "grant",
        }
    }

    /// Reads the storage representation back.
    pub fn from_str(value: &str) -> (auth_kind: Result<Self, ApplicationError>)
        ensures
            is_read_auth_kind(value@, auth_kind),
    {
        if same_text(value, "legacy_cookie") {
            Ok(CreatorAuthorityAuthKind::LegacyCookie)
        } else if same_text(value, "grant") {
            Ok(CreatorAuthorityAuthKind::Grant)
        } else {
            Err(
                ApplicationError::InvalidCreatorAuthorityAuthKind { auth_kind: value.to_owned() },
            )
        }
    }
}

impl std::str::FromStr for CreatorAuthorityAuthKind {
    type Err = ApplicationError;

    fn from_str(value: &str) -> (auth_kind: Result<Self, ApplicationError>)
        ensures
            is_read_auth_kind(value@, auth_kind),
    {
        CreatorAuthorityAuthKind::from_str(value)
    }
}

/// Secret material for restoring creator-granted homeserver authority.
#[derive(PartialEq, Eq)]
pub struct CreatorAuthoritySecret(String);

impl View for CreatorAuthoritySecret {
    type V = Seq<char>;

    closed spec fn view(&self) -> Seq<char> {
        self.0@
    }
}

impl Clone for CreatorAuthoritySecret {
    fn clone(&self) -> (copy: Self)
        ensures
            copy == *self,
    {
        CreatorAuthoritySecret(self.0.clone())
    }
}

impl CreatorAuthoritySecret {
    /// Wraps creator authority secret material.
    pub fn new(value: &str) -> (secret: Self)
        ensures
            secret@ == value@,
    {
        CreatorAuthoritySecret(value.to_owned())
    }

    /// Exposes the raw secret for adapters that restore sessions.
    pub fn expose_secret(&self) -> (secret: &str)
        ensures
            secret@ == self@,
    {
        self.0.as_str()
    }
}

/// Private runtime record for one creator-granted Lock Server authority.
#[derive(Clone, PartialEq, Eq)]
pub struct CreatorAuthorityRecord {
    /// Creator whose homeserver authority is represented.
    pub creator: CreatorPubky,
    /// Auth mechanism used by the stored secret.
    pub auth_kind: CreatorAuthorityAuthKind,
    /// Scopes granted to the Lock Server.
    pub granted_scopes: Vec<String>,
    /// Secret-bearing session/credential material.
    pub secret: CreatorAuthoritySecret,
    /// Optional session expiration reported by the underlying auth mechanism.
    pub session_expires_at: Option<Timestamp>,
    /// Last time this authority was revalidated.
    pub last_revalidated_at: Option<Timestamp>,
}

/// Secret-free validity state of a stored creator authority, read without the secret.
#[derive(Clone, PartialEq, Eq)]
pub struct CreatorAuthorityValidity {
    /// Creator whose homeserver authority is represented.
    pub creator: CreatorPubky,
    /// Auth mechanism used by the stored secret.
    pub auth_kind: CreatorAuthorityAuthKind,
    /// Scopes granted to the Lock Server.
    pub granted_scopes: Vec<String>,
    /// Optional session or grant expiration reported by the underlying auth mechanism.
    pub session_expires_at: Option<Timestamp>,
    /// Last time a real revalidation succeeded.
    pub last_revalidated_at: Option<Timestamp>,
    /// Time of the last real revalidation the homeserver refused, if no later one succeeded.
    pub refused_at: Option<Timestamp>,
}

/// The rule that decides whether a stored authority may be used at `now`: the last real check
/// was not refused, and any reported expiry is still in the future.
pub open spec fn is_usable(
    refused_at: Option<Timestamp>,
    session_expires_at: Option<Timestamp>,
    now: Timestamp,
) -> bool {
    &&& refused_at is None
    &&& session_expires_at matches Some(expires_at) ==> expires_at@ > now@
}

/// `validity` is what `record` holds besides its secret, with the last refusal.
pub open spec fn is_validity_of(
    record: CreatorAuthorityRecord,
    refused_at: Option<Timestamp>,
    validity: CreatorAuthorityValidity,
) -> bool {
    &&& validity.creator == record.creator
    &&& validity.auth_kind == record.auth_kind
    &&& validity.granted_scopes@ == record.granted_scopes@
    &&& validity.session_expires_at == record.session_expires_at
    &&& validity.last_revalidated_at == record.last_revalidated_at
    &&& validity.refused_at == refused_at
}

impl CreatorAuthorityValidity {
    /// Secret-free validity view of `record`, for stores that keep whole records in memory.
    pub fn from_record(
        record: &CreatorAuthorityRecord,
        refused_at: Option<Timestamp>,
    ) -> (validity: Self)
        ensures
            is_validity_of(*record, refused_at, validity),
    {
        CreatorAuthorityValidity {
            creator: record.creator.clone(),
            auth_kind: record.auth_kind,
            granted_scopes: copy_texts(&record.granted_scopes),
            session_expires_at: record.session_expires_at,
            last_revalidated_at: record.last_revalidated_at,
            refused_at,
        }
    }

    /// The one rule both authority-status routes answer with: the last real check was not
    /// refused, and any reported expiry is still in the future.
    pub fn is_usable_at(&self, now: Timestamp) -> (usable: bool)
        ensures
            usable == is_usable(self.refused_at, self.session_expires_at, now),
    {
        if self.refused_at.is_some() {
            return false;
        }
        match self.session_expires_at {
            Some(expires_at) => expires_at.is_after(now),
            None => true,
        }
    }
}

/// An authority that cannot be used now cannot be used later either, as long as nothing new is
/// recorded.
pub proof fn law_unusable_stays_unusable(
    refused_at: Option<Timestamp>,
    session_expires_at: Option<Timestamp>,
    now: Timestamp,
    later: Timestamp,
)
    requires
        now@ <= later@,
    ensures
        is_usable(refused_at, session_expires_at, later) ==> is_usable(
            refused_at,
            session_expires_at,
            now,
        ),
{
}

/// Outcome of a real revalidation against the creator's homeserver.
#[derive(Debug, Clone, Copy, PartialEq, Eq, Structural)]
pub enum CreatorAuthorityCheckOutcome {
    /// The homeserver honored the stored cookie session or grant.
    Honored,
    /// The homeserver definitively refused it (revoked, expired, or not restorable).
    Refused,
}

/// Approved legacy Pubky auth-flow material, converted to Locks creator-authority state.
#[derive(Clone, PartialEq, Eq)]
pub struct LegacyCreatorConnectFlowApproval {
    /// Approved creator identity.
    pub creator: CreatorPubky,
    /// Restorable legacy Pubky session secret.
    pub session_secret: CreatorAuthoritySecret,
}

/// Identifier of the Lock-Server-held key that signs grant Proof-of-Possession proofs.
///
/// Not secret. The private key is derived from the Lock Server signing seed and this id
/// whenever it is needed and is never persisted.
#[derive(Debug, PartialEq, Eq, Hash)]
pub struct GrantPopKeyId(String);

impl View for GrantPopKeyId {
    type V = Seq<char>;

    closed spec fn view(&self) -> Seq<char> {
        self.0@
    }
}

impl Clone for GrantPopKeyId {
    fn clone(&self) -> (copy: Self)
        ensures
            copy == *self,
    {
        GrantPopKeyId(self.0.clone())
    }
}

/// Key id for the grant QR of the pending connect flow `flow_id`.
pub open spec fn connect_flow_key_id(flow_id: Seq<char>) -> Seq<char> {
    "locks-connect-v1."@ + flow_id
}

impl GrantPopKeyId {
    /// Wraps a stored key id.
    pub fn new(value: &str) -> (key_id: Self)
        ensures
            key_id@ == value@,
    {
        GrantPopKeyId(value.to_owned())
    }

    /// Key id for the grant QR of one pending connect flow.
    pub fn for_connect_flow(flow_id: &CreatorConnectFlowId) -> (key_id: Self)
        ensures
            key_id@ == connect_flow_key_id(flow_id@),
    {
        GrantPopKeyId("locks-connect-v1.".to_owned().concat(flow_id.as_str()))
    }

    /// Returns the key id value.
    pub fn as_str(&self) -> (text: &str)
        ensures
            text@ == self@,
    {
        self.0.as_str()
    }
}

/// Different connect flows have different key ids.
pub proof fn law_connect_flow_key_ids_differ(left: Seq<char>, right: Seq<char>)
    ensures
        connect_flow_key_id(left) == connect_flow_key_id(right) <==> left == right,
{
    let start = "locks-connect-v1."@.len() as int;
    assert(connect_flow_key_id(left).skip(start) == left);
    assert(connect_flow_key_id(right).skip(start) == right);
}

/// Approved grant auth-flow material, converted to Locks creator-authority state.
#[derive(Clone, PartialEq, Eq)]
pub struct GrantCreatorConnectFlowApproval {
    /// Approved creator identity: the grant issuer.
    pub creator: CreatorPubky,
    /// Serialized delegated grant restore state. It holds no private key.
    pub grant_state: CreatorAuthoritySecret,
    /// Capabilities carried by the approved grant.
    pub granted_scopes: Vec<String>,
    /// Grant expiry reported by the grant claims.
    pub grant_expires_at: Timestamp,
}

/// Server-generated identifier for a pending creator connect flow.
#[derive(Debug, PartialEq, Eq, Hash)]
pub struct CreatorConnectFlowId(String);

impl View for CreatorConnectFlowId {
    type V = Seq<char>;

    closed spec fn view(&self) -> Seq<char> {
        self.0@
    }
}

impl Clone for CreatorConnectFlowId {
    fn clone(&self) -> (copy: Self)
        ensures
            copy == *self,
    {
        CreatorConnectFlowId(self.0.clone())
    }
}

impl CreatorConnectFlowId {
    /// Wraps an opaque connect flow identifier.
    pub fn new(value: &str) -> (flow_id: Self)
        ensures
            flow_id@ == value@,
    {
        CreatorConnectFlowId(value.to_owned())
    }

    /// Returns the opaque identifier value.
    pub fn as_str(&self) -> (text: &str)
        ensures
            text@ == self@,
    {
        self.0.as_str()
    }
}

/// Secret-bearing Pubky authorization URL for a pending Lock-Server-owned flow.
#[derive(PartialEq, Eq)]
pub struct CreatorConnectAuthorizationUrl(String);

impl View for CreatorConnectAuthorizationUrl {
    type V = Seq<char>;

    closed spec fn view(&self) -> Seq<char> {
        self.0@
    }
}

impl Clone for CreatorConnectAuthorizationUrl {
    fn clone(&self) -> (copy: Self)
        ensures
            copy == *self,
    {
        CreatorConnectAuthorizationUrl(self.0.clone())
    }
}

impl CreatorConnectAuthorizationUrl {
    /// Wraps an authorization URL containing Pubky relay/client secret material.
    pub fn new(value: &str) -> (url: Self)
        ensures
            url@ == value@,
    {
        CreatorConnectAuthorizationUrl(value.to_owned())
    }

    /// Exposes the raw URL for code that resumes the flow.
    pub fn expose_url(&self) -> (url: &str)
        ensures
            url@ == self@,
    {
        self.0.as_str()
    }
}

/// Secret-bearing pending Lock-Server-owned Pubky auth flow state.
#[derive(Clone, PartialEq, Eq)]
pub struct PendingCreatorConnectFlowRecord {
    /// Server-generated pending flow ID.
    pub flow_id: CreatorConnectFlowId,
    /// Caller-provided redirect/callback target returned after completion.
    pub return_to: String,
    /// Caller-provided CSRF/correlation state echoed into frontend-session exchange.
    pub state: String,
    /// Secret-bearing authorization URL needed to resume/await Pubky approval.
    pub authorization_url: CreatorConnectAuthorizationUrl,
    /// Secret-bearing grant authorization URL offered beside the cookie URL, when the Lock
    /// Server has grant connect configured.
    pub grant_authorization_url: Option<CreatorConnectAuthorizationUrl>,
    /// Scopes requested for the Lock Server's creator-granted homeserver session.
    pub requested_scopes: Vec<String>,
    /// Creation timestamp.
    pub created_at: Timestamp,
    /// Expiration timestamp. Pending flows expire when `now >= expires_at`.
    pub expires_at: Timestamp,
}

impl PendingCreatorConnectFlowRecord {
    /// Returns true once this pending flow is expired at `now`.
    pub fn is_expired_at(&self, now: Timestamp) -> (expired: bool)
        ensures
            expired == (now@ >= self.expires_at@),
    {
        !self.expires_at.is_after(now)
    }
}

/// An authority is usable exactly when no refusal stands and its expiry, if it has one, is still to
/// come: at the very moment of its expiry it is not usable any more.
pub proof fn law_usable_until_refused_or_expired(
    refused_at: Timestamp,
    expires_at: Timestamp,
    now: Timestamp,
)
    ensures
        is_usable(None, None, now),
        is_usable(None, Some(expires_at), now) <==> now@ < expires_at@,
        !is_usable(Some(refused_at), None, now),
        !is_usable(Some(refused_at), Some(expires_at), now),
{
}

/// The validity of a record tells all of it but the secret, and is usable exactly when no refusal
/// was recorded and the record's own expiry is still to come.
pub proof fn law_validity_is_the_record_without_its_secret(
    record: CreatorAuthorityRecord,
    refused_at: Option<Timestamp>,
    validity: CreatorAuthorityValidity,
    now: Timestamp,
)
    requires
        is_validity_of(record, refused_at, validity),
    ensures
        validity.creator == record.creator,
        validity.auth_kind == record.auth_kind,
        validity.granted_scopes@ == record.granted_scopes@,
        validity.session_expires_at == record.session_expires_at,
        validity.last_revalidated_at == record.last_revalidated_at,
        validity.refused_at == refused_at,
        is_usable(validity.refused_at, validity.session_expires_at, now) <==> refused_at is None
            && (record.session_expires_at is None || now@ < record.session_expires_at->0@),
{
}

/// A stored auth kind is read from its own text and from no other; what is not one is told back in
/// the error.
pub proof fn law_auth_kind_is_read_from_its_own_text(
    value: Seq<char>,
    read: Result<CreatorAuthorityAuthKind, ApplicationError>,
)
    requires
        is_read_auth_kind(value, read),
    ensures
        value == "legacy_cookie"@ <==> read is Ok && read->Ok_0
            == CreatorAuthorityAuthKind::LegacyCookie,
        value == "grant"@ <==> read is Ok && read->Ok_0 == CreatorAuthorityAuthKind::Grant,
        read is Err ==> read->Err_0@ == (ErrorView::InvalidCreatorAuthorityAuthKind {
            auth_kind: value,
        }),
        auth_kind_text(CreatorAuthorityAuthKind::LegacyCookie) == "legacy_cookie"@,
        auth_kind_text(CreatorAuthorityAuthKind::Grant) == "grant"@,
{
    law_auth_kind_texts_differ(
        CreatorAuthorityAuthKind::LegacyCookie,
        CreatorAuthorityAuthKind::Grant,
    );
    if read is Err {
        assert(value != auth_kind_text(CreatorAuthorityAuthKind::LegacyCookie));
        assert(value != auth_kind_text(CreatorAuthorityAuthKind::Grant));
    }
}

/// The key id of a connect flow is the flow's own ID after a fixed prefix.
pub proof fn law_connect_flow_key_id_is_the_prefixed_flow_id(flow_id: Seq<char>)
    ensures
        connect_flow_key_id(flow_id) == "locks-connect-v1."@ + flow_id,
{
}

} // verus!
