//! Developer-facing text of values, with everything secret left out.

use vstd::prelude::*;
use vstd::string::*;

use crate::complete_creator_connect_flow::CompleteCreatorConnectFlowResponse;
use crate::creator_authority::{
    CreatorAuthorityAuthKind, CreatorAuthorityRecord, CreatorAuthoritySecret,
    CreatorAuthorityValidity, CreatorConnectAuthorizationUrl, CreatorConnectFlowId,
    GrantCreatorConnectFlowApproval, LegacyCreatorConnectFlowApproval,
    PendingCreatorConnectFlowRecord,
};
use crate::frontend_session::{FrontendSessionCode, FrontendSessionToken};
use crate::get_creator_authority_status::{
    CreatorAuthorityStatusView, GetCreatorAuthorityStatusRequest,
};
use crate::grant_pop_keys::LockServerGrantPopKeys;
use crate::grant_state::{DelegatedGrantCredentialState, GrantStateView};
use crate::keys::{CreatorPubky, PublicKey};
use crate::legacy_creator_authority::CreatorAuthorityStatus;
use crate::start_creator_connect_flow::StartCreatorConnectFlowResponse;
use crate::text::texts;
use crate::timestamp::{in_calendar, is_offset, Timestamp};

verus! {

/// `text` in double quotes, with what needs it escaped.
pub uninterp spec fn quoted(text: Seq<char>) -> Seq<char>;

/// The date and time at an offset from UTC, with that offset.
pub uninterp spec fn date_text(local_nanos: int, offset_seconds: int) -> Seq<char>;

/// `std::fmt::Debug` of a string. Claimed: the quoted text depends on the text alone.
#[verifier::external_body]
fn quote(text: &str) -> (quoted_text: String)
    ensures
        quoted_text@ == quoted(text@),
{
    format!("{:?}", text)
}

/// `time::OffsetDateTime::from_unix_timestamp_nanos` and `time::UtcOffset::from_whole_seconds`,
/// put together by `replace_offset`, with `Debug`. Claimed: a date within the calendar at an offset
/// within its bounds has a text, which depends on the two alone, and nothing else has one.
#[verifier::external_body]
fn date_at_offset(local_nanos: i128, offset_seconds: i32) -> (text: Option<String>)
    ensures
        match text {
            Some(text) => {
                &&& in_calendar(local_nanos as int) && is_offset(offset_seconds as int)
                &&& text@ == date_text(local_nanos as int, offset_seconds as int)
            },
            None => !in_calendar(local_nanos as int) || !is_offset(offset_seconds as int),
        },
{
    let local = time::OffsetDateTime::from_unix_timestamp_nanos(local_nanos).ok()?;
    let offset = time::UtcOffset::from_whole_seconds(offset_seconds).ok()?;
    Some(format!("{:?}", local.replace_offset(offset)))
}

/// The text of a timestamp.
pub open spec fn timestamp_text(at: Timestamp) -> Seq<char> {
    date_text(at.local(), at.offset())
}

/// The items, one after the other, with a comma and a space between them.
pub open spec fn comma_joined(items: Seq<Seq<char>>) -> Seq<char>
    decreases items.len(),
{
    if items.len() == 0 {
        Seq::empty()
    } else if items.len() == 1 {
        items[0]
    } else {
        comma_joined(items.drop_last()) + ", "@ + items.last()
    }
}

/// A list of texts: each in quotes, all in square brackets.
pub open spec fn list_text(items: Seq<Seq<char>>) -> Seq<char> {
    "["@ + comma_joined(items.map_values(|item: Seq<char>| quoted(item))) + "]"@
}

/// A value of a type that wraps one text.
pub open spec fn wrapped_text(name: Seq<char>, inner: Seq<char>) -> Seq<char> {
    name + "("@ + inner + ")"@
}

/// An optional value.
pub open spec fn option_text(inner: Option<Seq<char>>) -> Seq<char> {
    match inner {
        Some(inner) => wrapped_text("Some"@, inner),
        None => "None"@,
    }
}

/// What stands in the place of a secret.
pub open spec fn redacted() -> Seq<char> {
    "\"<redacted>\""@
}

/// The texts of named fields.
pub open spec fn field_texts(fields: Seq<(Seq<char>, Seq<char>)>) -> Seq<Seq<char>> {
    fields.map_values(|field: (Seq<char>, Seq<char>)| field.0 + ": "@ + field.1)
}

/// A value of a type with named fields.
pub open spec fn struct_text(name: Seq<char>, fields: Seq<(Seq<char>, Seq<char>)>) -> Seq<char> {
    name + " { "@ + comma_joined(field_texts(fields)) + " }"@
}

fn wrap(name: &str, inner: &str) -> (text: String)
    ensures
        text@ == wrapped_text(name@, inner@),
{
    name.to_owned().concat("(").concat(inner).concat(")")
}

fn join(items: &Vec<String>) -> (text: String)
    ensures
        text@ == comma_joined(texts(items@)),
{
    let ghost parts = texts(items@);
    let mut text = "".to_owned();
    let mut i: usize = 0;
    proof {
        reveal_strlit("");
        assert(text@ =~= comma_joined(parts.take(0)));
    }
    while i < items.len()
        invariant
            parts == texts(items@),
            i <= items@.len(),
            text@ == comma_joined(parts.take(i as int)),
        decreases items.len() - i,
    {
        let ghost next = parts.take(i + 1);
        assert(next.drop_last() =~= parts.take(i as int));
        if i > 0 {
            text.append(", ");
        } else {
            assert(text@ =~= Seq::empty());
        }
        text.append(items[i].as_str());
        assert(text@ =~= comma_joined(next));
        i = i + 1;
    }
    assert(parts.take(i as int) =~= parts);
    text
}

fn list(items: &Vec<String>) -> (text: String)
    ensures
        text@ == list_text(texts(items@)),
{
    let ghost parts = texts(items@).map_values(|item: Seq<char>| quoted(item));
    let mut quoted_items: Vec<String> = Vec::new();
    for item in it: items.iter()
        invariant
            parts == texts(items@).map_values(|item: Seq<char>| quoted(item)),
            it.seq().len() == items@.len(),
            forall|i: int| 0 <= i < it.seq().len() ==> *it.seq()[i] == items@[i],
            quoted_items@.len() == it.index(),
            forall|i: int| 0 <= i < it.index() ==> (#[trigger] quoted_items@[i])@ == parts[i],
    {
        quoted_items.push(quote(item.as_str()));
    }
    assert(texts(quoted_items@) =~= parts);
    "[".to_owned().concat(join(&quoted_items).as_str()).concat("]")
}

fn field(name: &str, value: &str) -> (text: String)
    ensures
        text@ == name@ + ": "@ + value@,
{
    name.to_owned().concat(": ").concat(value)
}

/// A value of a type with named fields, from the texts of its fields.
fn structure(name: &str, fields: &Vec<String>) -> (text: String)
    ensures
        text@ == name@ + " { "@ + comma_joined(texts(fields@)) + " }"@,
{
    name.to_owned().concat(" { ").concat(join(fields).as_str()).concat(" }")
}

/// The text of an optional timestamp.
pub open spec fn optional_date_text(at: Option<Timestamp>) -> Seq<char> {
    option_text(
        match at {
            Some(at) => Some(timestamp_text(at)),
            None => None,
        },
    )
}

fn optional_date(at: Option<Timestamp>) -> (text: String)
    ensures
        text@ == optional_date_text(at),
{
    match at {
        Some(at) => wrap("Some", at.debug_text().as_str()),
        None => "None".to_owned(),
    }
}

/// The text of an auth kind.
pub open spec fn auth_kind_name(auth_kind: CreatorAuthorityAuthKind) -> Seq<char> {
    match auth_kind {
        CreatorAuthorityAuthKind::LegacyCookie => "LegacyCookie"@,
        CreatorAuthorityAuthKind::Grant => "Grant"@,
    }
}

/// The text of an optional auth kind.
pub open spec fn optional_auth_kind_text(auth_kind: Option<CreatorAuthorityAuthKind>) -> Seq<char> {
    option_text(
        match auth_kind {
            Some(auth_kind) => Some(auth_kind_name(auth_kind)),
            None => None,
        },
    )
}

/// The text of a truth value.
pub open spec fn bool_text(value: bool) -> Seq<char> {
    if value {
        "true"@
    } else {
        "false"@
    }
}

fn truth(value: bool) -> (text: &'static str)
    ensures
        text@ == bool_text(value),
{
    if value {
        "true"
    } else {
        "false"
    }
}

fn auth_kind_text(auth_kind: CreatorAuthorityAuthKind) -> (text: &'static str)
    ensures
        text@ == auth_kind_name(auth_kind),
{
    match auth_kind {
        CreatorAuthorityAuthKind::LegacyCookie => "LegacyCookie",
        CreatorAuthorityAuthKind::Grant => "Grant",
    }
}

impl Timestamp {
    /// The date and time, at the offset from UTC.
    pub fn debug_text(self) -> (text: String)
        ensures
            text@ == timestamp_text(self),
    {
        match date_at_offset(self.local_nanos(), self.offset_seconds()) {
            Some(text) => text,
            None => vstd::pervasive::unreached(),
        }
    }
}

/// The text of a public key: its identity text in quotes.
pub open spec fn public_key_debug(z32: Seq<char>) -> Seq<char> {
    wrapped_text("PublicKey"@, quoted("pubky"@ + z32))
}

impl PublicKey {
    /// The key, with the prefix of Pubky identities.
    pub fn debug_text(&self) -> (text: String)
        ensures
            text@ == public_key_debug(self@),
    {
        wrap("PublicKey", quote("pubky".to_owned().concat(self.z32()).as_str()).as_str())
    }
}

impl CreatorPubky {
    /// The creator's identity.
    pub fn debug_text(&self) -> (text: String)
        ensures
            text@ == wrapped_text("CreatorPubky"@, quoted(self@)),
    {
        wrap("CreatorPubky", quote(self.as_str()).as_str())
    }
}

impl CreatorConnectFlowId {
    /// The flow ID.
    pub fn debug_text(&self) -> (text: String)
        ensures
            text@ == wrapped_text("CreatorConnectFlowId"@, quoted(self@)),
    {
        wrap("CreatorConnectFlowId", quote(self.as_str()).as_str())
    }
}

impl CreatorAuthoritySecret {
    /// That there is a secret, and nothing of it.
    pub fn debug_text(&self) -> (text: String)
        ensures
            text@ == wrapped_text("CreatorAuthoritySecret"@, redacted()),
    {
        wrap("CreatorAuthoritySecret", "\"<redacted>\"")
    }
}

impl CreatorConnectAuthorizationUrl {
    /// That there is a URL, and nothing of it.
    pub fn debug_text(&self) -> (text: String)
        ensures
            text@ == wrapped_text("CreatorConnectAuthorizationUrl"@, redacted()),
    {
        wrap("CreatorConnectAuthorizationUrl", "\"<redacted>\"")
    }
}

impl LockServerGrantPopKeys {
    /// That there is a seed, and nothing of it.
    pub fn debug_text(&self) -> (text: String)
        ensures
            text@ == wrapped_text("LockServerGrantPopKeys"@, redacted()),
    {
        wrap("LockServerGrantPopKeys", "\"<redacted>\"")
    }
}

/// What the text of an authority record tells.
pub open spec fn authority_fields(record: CreatorAuthorityRecord) -> Seq<(Seq<char>, Seq<char>)> {
    seq![
        ("creator"@, wrapped_text("CreatorPubky"@, quoted(record.creator@))),
        ("auth_kind"@, auth_kind_name(record.auth_kind)),
        ("granted_scopes"@, list_text(texts(record.granted_scopes@))),
        ("secret"@, redacted()),
        ("session_expires_at"@, optional_date_text(record.session_expires_at)),
        ("last_revalidated_at"@, optional_date_text(record.last_revalidated_at)),
    ]
}

impl CreatorAuthorityRecord {
    /// The record without its secret.
    pub fn debug_text(&self) -> (text: String)
        ensures
            text@ == struct_text("CreatorAuthorityRecord"@, authority_fields(*self)),
    {
        let mut fields: Vec<String> = Vec::new();
        fields.push(field("creator", self.creator.debug_text().as_str()));
        fields.push(field("auth_kind", auth_kind_text(self.auth_kind)));
        fields.push(field("granted_scopes", list(&self.granted_scopes).as_str()));
        fields.push(field("secret", "\"<redacted>\""));
        fields.push(field("session_expires_at", optional_date(self.session_expires_at).as_str()));
        fields.push(field("last_revalidated_at", optional_date(self.last_revalidated_at).as_str()));
        assert(texts(fields@) =~= field_texts(authority_fields(*self)));
        structure("CreatorAuthorityRecord", &fields)
    }
}

/// What the text of a stored validity tells.
pub open spec fn validity_fields(validity: CreatorAuthorityValidity) -> Seq<
    (Seq<char>, Seq<char>),
> {
    seq![
        ("creator"@, wrapped_text("CreatorPubky"@, quoted(validity.creator@))),
        ("auth_kind"@, auth_kind_name(validity.auth_kind)),
        ("granted_scopes"@, list_text(texts(validity.granted_scopes@))),
        ("session_expires_at"@, optional_date_text(validity.session_expires_at)),
        ("last_revalidated_at"@, optional_date_text(validity.last_revalidated_at)),
        ("refused_at"@, optional_date_text(validity.refused_at)),
    ]
}

impl CreatorAuthorityValidity {
    /// The validity, which holds no secret.
    pub fn debug_text(&self) -> (text: String)
        ensures
            text@ == struct_text("CreatorAuthorityValidity"@, validity_fields(*self)),
    {
        let mut fields: Vec<String> = Vec::new();
        fields.push(field("creator", self.creator.debug_text().as_str()));
        fields.push(field("auth_kind", auth_kind_text(self.auth_kind)));
        fields.push(field("granted_scopes", list(&self.granted_scopes).as_str()));
        fields.push(field("session_expires_at", optional_date(self.session_expires_at).as_str()));
        fields.push(field("last_revalidated_at", optional_date(self.last_revalidated_at).as_str()));
        fields.push(field("refused_at", optional_date(self.refused_at).as_str()));
        assert(texts(fields@) =~= field_texts(validity_fields(*self)));
        structure("CreatorAuthorityValidity", &fields)
    }
}

/// What the text of a revalidated authority's status tells.
pub open spec fn status_fields(status: CreatorAuthorityStatus) -> Seq<(Seq<char>, Seq<char>)> {
    seq![
        ("creator"@, wrapped_text("CreatorPubky"@, quoted(status.creator@))),
        ("auth_kind"@, auth_kind_name(status.auth_kind)),
        ("authorized"@, bool_text(status.authorized)),
        ("granted_scopes"@, list_text(texts(status.granted_scopes@))),
        ("session_expires_at"@, optional_date_text(status.session_expires_at)),
    ]
}

impl CreatorAuthorityStatus {
    /// The status, which holds no secret.
    pub fn debug_text(&self) -> (text: String)
        ensures
            text@ == struct_text("CreatorAuthorityStatus"@, status_fields(*self)),
    {
        let mut fields: Vec<String> = Vec::new();
        fields.push(field("creator", self.creator.debug_text().as_str()));
        fields.push(field("auth_kind", auth_kind_text(self.auth_kind)));
        fields.push(field("authorized", truth(self.authorized)));
        fields.push(field("granted_scopes", list(&self.granted_scopes).as_str()));
        fields.push(field("session_expires_at", optional_date(self.session_expires_at).as_str()));
        assert(texts(fields@) =~= field_texts(status_fields(*self)));
        structure("CreatorAuthorityStatus", &fields)
    }
}

/// What the text of an authority status view tells.
pub open spec fn status_view_fields(view: CreatorAuthorityStatusView) -> Seq<
    (Seq<char>, Seq<char>),
> {
    seq![
        ("creator"@, wrapped_text("CreatorPubky"@, quoted(view.creator@))),
        ("authorized"@, bool_text(view.authorized)),
        ("auth_kind"@, optional_auth_kind_text(view.auth_kind)),
        ("granted_scopes"@, list_text(texts(view.granted_scopes@))),
        ("session_expires_at"@, optional_date_text(view.session_expires_at)),
    ]
}

impl CreatorAuthorityStatusView {
    /// The view, which holds no secret.
    pub fn debug_text(&self) -> (text: String)
        ensures
            text@ == struct_text("CreatorAuthorityStatusView"@, status_view_fields(*self)),
    {
        let auth_kind = match self.auth_kind {
            Some(auth_kind) => wrap("Some", auth_kind_text(auth_kind)),
            None => "None".to_owned(),
        };
        let mut fields: Vec<String> = Vec::new();
        fields.push(field("creator", self.creator.debug_text().as_str()));
        fields.push(field("authorized", truth(self.authorized)));
        fields.push(field("auth_kind", auth_kind.as_str()));
        fields.push(field("granted_scopes", list(&self.granted_scopes).as_str()));
        fields.push(field("session_expires_at", optional_date(self.session_expires_at).as_str()));
        assert(texts(fields@) =~= field_texts(status_view_fields(*self)));
        structure("CreatorAuthorityStatusView", &fields)
    }
}

impl FrontendSessionToken {
    /// That there is a token, and nothing of it.
    pub fn debug_text(&self) -> (text: String)
        ensures
            text@ == wrapped_text("FrontendSessionToken"@, redacted()),
    {
        wrap("FrontendSessionToken", "\"<redacted>\"")
    }
}

/// What the text of a status request tells, whatever its token.
pub open spec fn status_request_fields() -> Seq<(Seq<char>, Seq<char>)> {
    seq![("session_token"@, wrapped_text("FrontendSessionToken"@, redacted()))]
}

impl GetCreatorAuthorityStatusRequest {
    /// The request without its token.
    pub fn debug_text(&self) -> (text: String)
        ensures
            text@ == struct_text("GetCreatorAuthorityStatusRequest"@, status_request_fields()),
    {
        let mut fields: Vec<String> = Vec::new();
        fields.push(field("session_token", self.session_token.debug_text().as_str()));
        assert(texts(fields@) =~= field_texts(status_request_fields()));
        structure("GetCreatorAuthorityStatusRequest", &fields)
    }
}

/// What the text of delegated restore state tells.
pub open spec fn grant_state_debug_fields(state: GrantStateView) -> Seq<(Seq<char>, Seq<char>)> {
    seq![
        ("grant_jws"@, redacted()),
        ("homeserver_pk"@, public_key_debug(state.homeserver_pk)),
        ("key_id"@, quoted(state.key_id)),
        ("client_pk"@, public_key_debug(state.client_pk)),
    ]
}

impl DelegatedGrantCredentialState {
    /// The state without its grant.
    pub fn debug_text(&self) -> (text: String)
        ensures
            text@ == struct_text(
                "DelegatedGrantCredentialState"@,
                grant_state_debug_fields(self@),
            ),
    {
        let mut fields: Vec<String> = Vec::new();
        fields.push(field("grant_jws", "\"<redacted>\""));
        fields.push(field("homeserver_pk", self.homeserver_pk.debug_text().as_str()));
        fields.push(field("key_id", quote(self.key_id.as_str()).as_str()));
        fields.push(field("client_pk", self.client_pk.debug_text().as_str()));
        assert(texts(fields@) =~= field_texts(grant_state_debug_fields(self@)));
        structure("DelegatedGrantCredentialState", &fields)
    }
}

/// What the text of an approved cookie flow tells.
pub open spec fn legacy_approval_fields(approval: LegacyCreatorConnectFlowApproval) -> Seq<
    (Seq<char>, Seq<char>),
> {
    seq![
        ("creator"@, wrapped_text("CreatorPubky"@, quoted(approval.creator@))),
        ("session_secret"@, redacted()),
    ]
}

impl LegacyCreatorConnectFlowApproval {
    /// The approval without its secret.
    pub fn debug_text(&self) -> (text: String)
        ensures
            text@ == struct_text(
                "LegacyCreatorConnectFlowApproval"@,
                legacy_approval_fields(*self),
            ),
    {
        let mut fields: Vec<String> = Vec::new();
        fields.push(field("creator", self.creator.debug_text().as_str()));
        fields.push(field("session_secret", "\"<redacted>\""));
        assert(texts(fields@) =~= field_texts(legacy_approval_fields(*self)));
        structure("LegacyCreatorConnectFlowApproval", &fields)
    }
}

/// What the text of an approved grant flow tells.
pub open spec fn grant_approval_fields(approval: GrantCreatorConnectFlowApproval) -> Seq<
    (Seq<char>, Seq<char>),
> {
    seq![
        ("creator"@, wrapped_text("CreatorPubky"@, quoted(approval.creator@))),
        ("grant_state"@, redacted()),
        ("granted_scopes"@, list_text(texts(approval.granted_scopes@))),
        ("grant_expires_at"@, timestamp_text(approval.grant_expires_at)),
    ]
}

impl GrantCreatorConnectFlowApproval {
    /// The approval without its restore state.
    pub fn debug_text(&self) -> (text: String)
        ensures
            text@ == struct_text("GrantCreatorConnectFlowApproval"@, grant_approval_fields(*self)),
    {
        let mut fields: Vec<String> = Vec::new();
        fields.push(field("creator", self.creator.debug_text().as_str()));
        fields.push(field("grant_state", "\"<redacted>\""));
        fields.push(field("granted_scopes", list(&self.granted_scopes).as_str()));
        fields.push(field("grant_expires_at", self.grant_expires_at.debug_text().as_str()));
        assert(texts(fields@) =~= field_texts(grant_approval_fields(*self)));
        structure("GrantCreatorConnectFlowApproval", &fields)
    }
}

/// What the text of a pending flow tells. That there is a grant URL is no secret.
pub open spec fn pending_flow_fields(record: PendingCreatorConnectFlowRecord) -> Seq<
    (Seq<char>, Seq<char>),
> {
    seq![
        ("flow_id"@, wrapped_text("CreatorConnectFlowId"@, quoted(record.flow_id@))),
        ("return_to"@, quoted(record.return_to@)),
        ("state"@, quoted(record.state@)),
        ("authorization_url"@, redacted()),
        (
            "grant_authorization_url"@,
            option_text(
                match record.grant_authorization_url {
                    Some(_) => Some(redacted()),
                    None => None,
                },
            ),
        ),
        ("requested_scopes"@, list_text(texts(record.requested_scopes@))),
        ("created_at"@, timestamp_text(record.created_at)),
        ("expires_at"@, timestamp_text(record.expires_at)),
    ]
}

impl PendingCreatorConnectFlowRecord {
    /// The pending flow without its authorization URLs.
    pub fn debug_text(&self) -> (text: String)
        ensures
            text@ == struct_text("PendingCreatorConnectFlowRecord"@, pending_flow_fields(*self)),
    {
        let grant_authorization_url = match self.grant_authorization_url {
            Some(_) => wrap("Some", "\"<redacted>\""),
            None => "None".to_owned(),
        };
        let mut fields: Vec<String> = Vec::new();
        fields.push(field("flow_id", self.flow_id.debug_text().as_str()));
        fields.push(field("return_to", quote(self.return_to.as_str()).as_str()));
        fields.push(field("state", quote(self.state.as_str()).as_str()));
        fields.push(field("authorization_url", "\"<redacted>\""));
        fields.push(field("grant_authorization_url", grant_authorization_url.as_str()));
        fields.push(field("requested_scopes", list(&self.requested_scopes).as_str()));
        fields.push(field("created_at", self.created_at.debug_text().as_str()));
        fields.push(field("expires_at", self.expires_at.debug_text().as_str()));
        assert(texts(fields@) =~= field_texts(pending_flow_fields(*self)));
        structure("PendingCreatorConnectFlowRecord", &fields)
    }
}

/// What the text of a start response tells.
pub open spec fn start_response_fields(response: StartCreatorConnectFlowResponse) -> Seq<
    (Seq<char>, Seq<char>),
> {
    let url = wrapped_text("CreatorConnectAuthorizationUrl"@, redacted());
    seq![
        ("flow_id"@, wrapped_text("CreatorConnectFlowId"@, quoted(response.flow_id@))),
        ("authorization_url"@, url),
        (
            "grant_authorization_url"@,
            option_text(
                match response.grant_authorization_url {
                    Some(_) => Some(url),
                    None => None,
                },
            ),
        ),
        ("expires_at"@, timestamp_text(response.expires_at)),
        ("state"@, quoted(response.state@)),
    ]
}

impl StartCreatorConnectFlowResponse {
    /// The response without its authorization URLs.
    pub fn debug_text(&self) -> (text: String)
        ensures
            text@ == struct_text("StartCreatorConnectFlowResponse"@, start_response_fields(*self)),
    {
        let grant_authorization_url = match &self.grant_authorization_url {
            Some(url) => wrap("Some", url.debug_text().as_str()),
            None => "None".to_owned(),
        };
        let mut fields: Vec<String> = Vec::new();
        fields.push(field("flow_id", self.flow_id.debug_text().as_str()));
        fields.push(field("authorization_url", self.authorization_url.debug_text().as_str()));
        fields.push(field("grant_authorization_url", grant_authorization_url.as_str()));
        fields.push(field("expires_at", self.expires_at.debug_text().as_str()));
        fields.push(field("state", quote(self.state.as_str()).as_str()));
        assert(texts(fields@) =~= field_texts(start_response_fields(*self)));
        structure("StartCreatorConnectFlowResponse", &fields)
    }
}

impl FrontendSessionCode {
    /// That there is a code, and nothing of it.
    pub fn debug_text(&self) -> (text: String)
        ensures
            text@ == wrapped_text("FrontendSessionCode"@, redacted()),
    {
        wrap("FrontendSessionCode", "\"<redacted>\"")
    }
}

/// What the text of a completion response tells.
pub open spec fn complete_response_fields(response: CompleteCreatorConnectFlowResponse) -> Seq<
    (Seq<char>, Seq<char>),
> {
    seq![
        ("creator"@, wrapped_text("CreatorPubky"@, quoted(response.creator@))),
        ("state"@, quoted(response.state@)),
        ("return_to"@, quoted(response.return_to@)),
        ("code"@, wrapped_text("FrontendSessionCode"@, redacted())),
        ("code_expires_at"@, timestamp_text(response.code_expires_at)),
    ]
}

impl CompleteCreatorConnectFlowResponse {
    /// The response without its one-time code.
    pub fn debug_text(&self) -> (text: String)
        ensures
            text@ == struct_text(
                "CompleteCreatorConnectFlowResponse"@,
                complete_response_fields(*self),
            ),
    {
        let mut fields: Vec<String> = Vec::new();
        fields.push(field("creator", self.creator.debug_text().as_str()));
        fields.push(field("state", quote(self.state.as_str()).as_str()));
        fields.push(field("return_to", quote(self.return_to.as_str()).as_str()));
        fields.push(field("code", self.code.debug_text().as_str()));
        fields.push(field("code_expires_at", self.code_expires_at.debug_text().as_str()));
        assert(texts(fields@) =~= field_texts(complete_response_fields(*self)));
        structure("CompleteCreatorConnectFlowResponse", &fields)
    }
}

/// The text of an authority record does not depend on its secret.
pub proof fn law_authority_text_hides_the_secret(
    left: CreatorAuthorityRecord,
    right: CreatorAuthorityRecord,
)
    requires
        left == (CreatorAuthorityRecord { secret: left.secret, ..right }),
    ensures
        authority_fields(left) == authority_fields(right),
{
}

/// The text of delegated restore state does not depend on its grant.
pub proof fn law_grant_state_text_hides_the_grant(left: GrantStateView, right: GrantStateView)
    requires
        left == (GrantStateView { grant_jws: left.grant_jws, ..right }),
    ensures
        grant_state_debug_fields(left) == grant_state_debug_fields(right),
{
}

/// The text of an approval does not depend on its secret.
pub proof fn law_approval_texts_hide_the_secret(
    legacy: LegacyCreatorConnectFlowApproval,
    grant: GrantCreatorConnectFlowApproval,
    secret: CreatorAuthoritySecret,
)
    ensures
        legacy_approval_fields(
            LegacyCreatorConnectFlowApproval { session_secret: secret, ..legacy },
        ) == legacy_approval_fields(legacy),
        grant_approval_fields(GrantCreatorConnectFlowApproval { grant_state: secret, ..grant })
            == grant_approval_fields(grant),
{
}

/// The text of a pending flow, and of the response that tells of it, does not depend on its
/// authorization URLs.
pub proof fn law_flow_texts_hide_the_urls(
    record: PendingCreatorConnectFlowRecord,
    response: StartCreatorConnectFlowResponse,
    url: CreatorConnectAuthorizationUrl,
    grant_url: CreatorConnectAuthorizationUrl,
)
    ensures
        pending_flow_fields(
            PendingCreatorConnectFlowRecord { authorization_url: url, ..record },
        ) == pending_flow_fields(record),
        record.grant_authorization_url is Some ==> pending_flow_fields(
            PendingCreatorConnectFlowRecord { grant_authorization_url: Some(grant_url), ..record },
        ) == pending_flow_fields(record),
        start_response_fields(
            StartCreatorConnectFlowResponse { authorization_url: url, ..response },
        ) == start_response_fields(response),
        response.grant_authorization_url is Some ==> start_response_fields(
            StartCreatorConnectFlowResponse { grant_authorization_url: Some(grant_url), ..response },
        ) == start_response_fields(response),
{
}

/// How texts are put together: items stand in their order with a comma and a space between two of
/// them, a list stands in square brackets with each item quoted, a value of a type with named
/// fields tells its type and each field's name and text, and a date is told at its own offset.
pub proof fn law_texts_are_put_together_in_order(
    items: Seq<Seq<char>>,
    item: Seq<char>,
    name: Seq<char>,
    fields: Seq<(Seq<char>, Seq<char>)>,
    at: Timestamp,
)
    ensures
        comma_joined(Seq::empty()) == Seq::<char>::empty(),
        comma_joined(seq![item]) == item,
        items.len() > 0 ==> comma_joined(items.push(item)) == comma_joined(items) + ", "@ + item,
        list_text(Seq::empty()) == "["@ + "]"@,
        list_text(seq![item]) == "["@ + quoted(item) + "]"@,
        items.len() > 0 ==> list_text(items.push(item)) == list_text(items).drop_last() + ", "@
            + quoted(item) + "]"@,
        field_texts(Seq::empty()).len() == 0,
        field_texts(fields.push((name, item))) == field_texts(fields).push(name + ": "@ + item),
        struct_text(name, fields) == name + " { "@ + comma_joined(field_texts(fields)) + " }"@,
        option_text(None) == "None"@,
        option_text(Some(item)) == "Some"@ + "("@ + item + ")"@,
        timestamp_text(at) == date_text(at@ + at.offset() * 1_000_000_000, at.offset()),
        optional_date_text(None) == "None"@,
        optional_date_text(Some(at)) == "Some"@ + "("@ + timestamp_text(at) + ")"@,
        bool_text(true) == "true"@,
        bool_text(false) == "false"@,
        auth_kind_name(CreatorAuthorityAuthKind::LegacyCookie) == "LegacyCookie"@,
        auth_kind_name(CreatorAuthorityAuthKind::Grant) == "Grant"@,
        redacted() == "\"<redacted>\""@,
{
    reveal_strlit("]");
    let quote = |text: Seq<char>| quoted(text);
    assert(seq![item].map_values(quote) =~= seq![quoted(item)]);
    assert(Seq::<Seq<char>>::empty().map_values(quote) =~= Seq::empty());
    assert(list_text(Seq::empty()) =~= "["@ + "]"@);
    assert(items.push(item).drop_last() =~= items);
    assert(items.push(item).map_values(quote) =~= items.map_values(quote).push(quoted(item)));
    assert(items.map_values(quote).push(quoted(item)).drop_last() =~= items.map_values(quote));
    assert(list_text(items).drop_last() =~= "["@ + comma_joined(items.map_values(quote)));
    if items.len() > 0 {
        assert(list_text(items.push(item)) =~= "["@ + (comma_joined(items.map_values(quote))
            + ", "@ + quoted(item)) + "]"@);
        assert(list_text(items.push(item)) =~= list_text(items).drop_last() + ", "@ + quoted(item)
            + "]"@);
    }
    assert(field_texts(fields.push((name, item))) =~= field_texts(fields).push(
        name + ": "@ + item,
    ));
}

/// The text of an authority record names every field once, in order, and tells each field's own
/// value, but for the secret.
pub proof fn law_authority_text_tells_every_field(record: CreatorAuthorityRecord)
    ensures
        authority_fields(record).len() == 6,
        authority_fields(record)[0] == ("creator"@, "CreatorPubky"@ + "("@ + quoted(record.creator@)
            + ")"@),
        authority_fields(record)[1] == ("auth_kind"@, auth_kind_name(record.auth_kind)),
        authority_fields(record)[2] == (
            "granted_scopes"@,
            list_text(texts(record.granted_scopes@)),
        ),
        authority_fields(record)[3] == ("secret"@, "\"<redacted>\""@),
        authority_fields(record)[4] == (
            "session_expires_at"@,
            optional_date_text(record.session_expires_at),
        ),
        authority_fields(record)[5] == (
            "last_revalidated_at"@,
            optional_date_text(record.last_revalidated_at),
        ),
{
}

/// The text of a validity names every field once, in order, and tells each field's own value.
pub proof fn law_validity_text_tells_every_field(validity: CreatorAuthorityValidity)
    ensures
        validity_fields(validity).len() == 6,
        validity_fields(validity)[0] == ("creator"@, "CreatorPubky"@ + "("@ + quoted(
            validity.creator@,
        ) + ")"@),
        validity_fields(validity)[1] == ("auth_kind"@, auth_kind_name(validity.auth_kind)),
        validity_fields(validity)[2] == (
            "granted_scopes"@,
            list_text(texts(validity.granted_scopes@)),
        ),
        validity_fields(validity)[3] == (
            "session_expires_at"@,
            optional_date_text(validity.session_expires_at),
        ),
        validity_fields(validity)[4] == (
            "last_revalidated_at"@,
            optional_date_text(validity.last_revalidated_at),
        ),
        validity_fields(validity)[5] == ("refused_at"@, optional_date_text(validity.refused_at)),
{
}

/// The texts of a status and of a status view name every field once, in order, and tell each
/// field's own value.
pub proof fn law_status_texts_tell_every_field(
    status: CreatorAuthorityStatus,
    view: CreatorAuthorityStatusView,
)
    ensures
        status_fields(status).len() == 5,
        status_fields(status)[0] == ("creator"@, "CreatorPubky"@ + "("@ + quoted(status.creator@)
            + ")"@),
        status_fields(status)[1] == ("auth_kind"@, auth_kind_name(status.auth_kind)),
        status_fields(status)[2] == ("authorized"@, bool_text(status.authorized)),
        status_fields(status)[3] == ("granted_scopes"@, list_text(texts(status.granted_scopes@))),
        status_fields(status)[4] == (
            "session_expires_at"@,
            optional_date_text(status.session_expires_at),
        ),
        status_view_fields(view).len() == 5,
        status_view_fields(view)[0] == ("creator"@, "CreatorPubky"@ + "("@ + quoted(view.creator@)
            + ")"@),
        status_view_fields(view)[1] == ("authorized"@, bool_text(view.authorized)),
        view.auth_kind is None ==> status_view_fields(view)[2] == ("auth_kind"@, "None"@),
        view.auth_kind is Some ==> status_view_fields(view)[2] == ("auth_kind"@, "Some"@ + "("@
            + auth_kind_name(view.auth_kind->0) + ")"@),
        status_view_fields(view)[3] == ("granted_scopes"@, list_text(texts(view.granted_scopes@))),
        status_view_fields(view)[4] == (
            "session_expires_at"@,
            optional_date_text(view.session_expires_at),
        ),
        status_request_fields() == seq![
            ("session_token"@, "FrontendSessionToken"@ + "("@ + "\"<redacted>\""@ + ")"@),
        ],
{
}

/// The texts of the approvals and of restore state name every field once, in order, and tell each
/// field's own value, but for the secrets.
pub proof fn law_approval_texts_tell_every_field(
    legacy: LegacyCreatorConnectFlowApproval,
    grant: GrantCreatorConnectFlowApproval,
    state: GrantStateView,
)
    ensures
        legacy_approval_fields(legacy).len() == 2,
        legacy_approval_fields(legacy)[0] == ("creator"@, "CreatorPubky"@ + "("@ + quoted(
            legacy.creator@,
        ) + ")"@),
        legacy_approval_fields(legacy)[1] == ("session_secret"@, "\"<redacted>\""@),
        grant_approval_fields(grant).len() == 4,
        grant_approval_fields(grant)[0] == ("creator"@, "CreatorPubky"@ + "("@ + quoted(
            grant.creator@,
        ) + ")"@),
        grant_approval_fields(grant)[1] == ("grant_state"@, "\"<redacted>\""@),
        grant_approval_fields(grant)[2] == (
            "granted_scopes"@,
            list_text(texts(grant.granted_scopes@)),
        ),
        grant_approval_fields(grant)[3] == (
            "grant_expires_at"@,
            timestamp_text(grant.grant_expires_at),
        ),
        grant_state_debug_fields(state).len() == 4,
        grant_state_debug_fields(state)[0] == ("grant_jws"@, "\"<redacted>\""@),
        grant_state_debug_fields(state)[1] == ("homeserver_pk"@, "PublicKey"@ + "("@ + quoted(
            "pubky"@ + state.homeserver_pk,
        ) + ")"@),
        grant_state_debug_fields(state)[2] == ("key_id"@, quoted(state.key_id)),
        grant_state_debug_fields(state)[3] == ("client_pk"@, "PublicKey"@ + "("@ + quoted(
            "pubky"@ + state.client_pk,
        ) + ")"@),
{
}

/// The text of a pending flow names every field once, in order, and tells each field's own value,
/// but for the URLs, of which it tells only whether there is a grant URL.
pub proof fn law_pending_flow_text_tells_every_field(record: PendingCreatorConnectFlowRecord)
    ensures
        pending_flow_fields(record).len() == 8,
        pending_flow_fields(record)[0] == ("flow_id"@, "CreatorConnectFlowId"@ + "("@ + quoted(
            record.flow_id@,
        ) + ")"@),
        pending_flow_fields(record)[1] == ("return_to"@, quoted(record.return_to@)),
        pending_flow_fields(record)[2] == ("state"@, quoted(record.state@)),
        pending_flow_fields(record)[3] == ("authorization_url"@, "\"<redacted>\""@),
        pending_flow_fields(record)[4] == (
            "grant_authorization_url"@,
            if record.grant_authorization_url is Some {
                "Some"@ + "("@ + "\"<redacted>\""@ + ")"@
            } else {
                "None"@
            },
        ),
        pending_flow_fields(record)[5] == (
            "requested_scopes"@,
            list_text(texts(record.requested_scopes@)),
        ),
        pending_flow_fields(record)[6] == ("created_at"@, timestamp_text(record.created_at)),
        pending_flow_fields(record)[7] == ("expires_at"@, timestamp_text(record.expires_at)),
{
}

/// The texts of the two responses name every field once, in order, and tell each field's own
/// value, but for the URLs and the one-time code.
pub proof fn law_response_texts_tell_every_field(
    started: StartCreatorConnectFlowResponse,
    completed: CompleteCreatorConnectFlowResponse,
)
    ensures
        start_response_fields(started).len() == 5,
        start_response_fields(started)[0] == ("flow_id"@, "CreatorConnectFlowId"@ + "("@ + quoted(
            started.flow_id@,
        ) + ")"@),
        start_response_fields(started)[1] == (
            "authorization_url"@,
            "CreatorConnectAuthorizationUrl"@ + "("@ + "\"<redacted>\""@ + ")"@,
        ),
        start_response_fields(started)[2] == (
            "grant_authorization_url"@,
            if started.grant_authorization_url is Some {
                "Some"@ + "("@ + ("CreatorConnectAuthorizationUrl"@ + "("@ + "\"<redacted>\""@
                    + ")"@) + ")"@
            } else {
                "None"@
            },
        ),
        start_response_fields(started)[3] == ("expires_at"@, timestamp_text(started.expires_at)),
        start_response_fields(started)[4] == ("state"@, quoted(started.state@)),
        complete_response_fields(completed).len() == 5,
        complete_response_fields(completed)[0] == ("creator"@, "CreatorPubky"@ + "("@ + quoted(
            completed.creator@,
        ) + ")"@),
        complete_response_fields(completed)[1] == ("state"@, quoted(completed.state@)),
        complete_response_fields(completed)[2] == ("return_to"@, quoted(completed.return_to@)),
        complete_response_fields(completed)[3] == (
            "code"@,
            "FrontendSessionCode"@ + "("@ + "\"<redacted>\""@ + ")"@,
        ),
        complete_response_fields(completed)[4] == (
            "code_expires_at"@,
            timestamp_text(completed.code_expires_at),
        ),
{
}

} // verus!
