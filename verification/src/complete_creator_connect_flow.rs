//! Completing a pending creator connect flow.
//!
//! A flow started with a grant URL waits for both approvals and completes with the first one
//! that succeeds. A cookie approval stores a `LegacyCookie` record; a grant approval stores a
//! `Grant` record holding delegated restore state. The caller performs what the state asks for
//! and reports the answer to [`complete_creator_connect_flow`] until the state is `Finished`.

use vstd::prelude::*;

use crate::creator_authority::{
    connect_flow_key_id, is_usable, CreatorAuthorityAuthKind, CreatorAuthorityRecord,
    CreatorConnectAuthorizationUrl, CreatorConnectFlowId, GrantCreatorConnectFlowApproval,
    GrantPopKeyId, LegacyCreatorConnectFlowApproval, PendingCreatorConnectFlowRecord,
};
use crate::error::{ApplicationError, ErrorView};
use crate::frontend_session::{FrontendSessionCode, FrontendSessionCodeRecord};
use crate::keys::CreatorPubky;
use crate::text::copy_texts;
use crate::timestamp::{in_calendar, Timestamp, NANOS_PER_SECOND};

verus! {

/// Seconds that a one-time frontend session code stays valid.
pub const FRONTEND_SESSION_CODE_TTL_SECONDS: u32 = 300;

/// Request to complete a pending creator connect flow.
#[derive(Debug, Clone, PartialEq, Eq)]
pub struct CompleteCreatorConnectFlowRequest {
    /// Pending flow ID returned from start flow.
    pub flow_id: CreatorConnectFlowId,
}

/// Response containing a one-time frontend session code.
#[derive(Clone, PartialEq, Eq)]
pub struct CompleteCreatorConnectFlowResponse {
    /// Creator approved by Pubky signer.
    pub creator: CreatorPubky,
    /// Opaque state from the pending flow.
    pub state: String,
    /// Return target from the pending flow.
    pub return_to: String,
    /// One-time code to exchange for a frontend session.
    pub code: FrontendSessionCode,
    /// Expiration timestamp for the one-time code.
    pub code_expires_at: Timestamp,
}

/// A pending flow that is being completed.
pub struct OpenFlow {
    /// The flow ID that was asked for.
    pub flow_id: CreatorConnectFlowId,
    /// The time at which completion was asked for.
    pub now: Timestamp,
    /// The stored pending flow.
    pub pending: PendingCreatorConnectFlowRecord,
}

/// What the caller has to do next.
pub enum CompleteCreatorConnectFlowState {
    /// Load the pending flow.
    LoadPendingFlow {
        /// The flow ID that was asked for.
        flow_id: CreatorConnectFlowId,
        /// The current time.
        now: Timestamp,
        /// Whether grant connect is configured.
        grant_connect: bool,
    },
    /// Delete the pending flow, which has expired.
    DeleteExpiredFlow {
        /// The flow to delete.
        flow_id: CreatorConnectFlowId,
    },
    /// Wait for the cookie approval of the flow's authorization URL.
    AwaitCookieApproval {
        /// The flow.
        flow: OpenFlow,
    },
    /// Wait for the cookie approval and for the grant approval, whichever settles first.
    AwaitEitherApproval {
        /// The flow.
        flow: OpenFlow,
        /// Authorization URL of the grant flow.
        grant_authorization_url: CreatorConnectAuthorizationUrl,
        /// Key that signs the grant's proofs.
        pop_key_id: GrantPopKeyId,
    },
    /// Wait for the grant approval, since the cookie approval has failed.
    AwaitGrantApproval {
        /// The flow.
        flow: OpenFlow,
        /// Authorization URL of the grant flow.
        grant_authorization_url: CreatorConnectAuthorizationUrl,
        /// Key that signs the grant's proofs.
        pop_key_id: GrantPopKeyId,
        /// Why the cookie approval failed.
        cookie_error: ApplicationError,
    },
    /// Store the approved authority.
    StoreAuthority {
        /// The flow.
        flow: OpenFlow,
        /// The record to upsert.
        authority: CreatorAuthorityRecord,
    },
    /// Draw a one-time frontend session code.
    GenerateCode {
        /// The flow.
        flow: OpenFlow,
        /// The approved creator.
        creator: CreatorPubky,
    },
    /// Store the one-time code.
    StoreCode {
        /// The flow ID that was asked for.
        flow_id: CreatorConnectFlowId,
        /// The record to insert.
        code: FrontendSessionCodeRecord,
    },
    /// Delete the pending flow, which is complete.
    DeleteCompletedFlow {
        /// The flow to delete.
        flow_id: CreatorConnectFlowId,
        /// The answer once it is deleted.
        response: CompleteCreatorConnectFlowResponse,
    },
    /// Nothing: this is the answer.
    Finished {
        /// The answer.
        result: Result<CompleteCreatorConnectFlowResponse, ApplicationError>,
    },
}

/// What the caller reports back.
pub enum CompleteCreatorConnectFlowEvent {
    /// The pending flow was looked up.
    PendingFlowLoaded {
        /// What was found.
        loaded: Result<Option<PendingCreatorConnectFlowRecord>, ApplicationError>,
    },
    /// The pending flow was deleted, or could not be.
    PendingFlowDeleted {
        /// Whether it was.
        deleted: Result<(), ApplicationError>,
    },
    /// The cookie approval came, or failed.
    CookieSettled {
        /// The approval.
        approval: Result<LegacyCreatorConnectFlowApproval, ApplicationError>,
    },
    /// The grant approval came, or failed.
    GrantSettled {
        /// The approval.
        approval: Result<GrantCreatorConnectFlowApproval, ApplicationError>,
    },
    /// The authority was stored, or could not be.
    AuthorityStored {
        /// Whether it was.
        stored: Result<(), ApplicationError>,
    },
    /// A one-time code was drawn.
    CodeGenerated {
        /// The code.
        code: FrontendSessionCode,
    },
    /// The one-time code was stored, or could not be.
    CodeStored {
        /// Whether it was.
        stored: Result<(), ApplicationError>,
    },
}

/// `authority` is what a cookie approval of the flow grants.
pub open spec fn is_cookie_authority(
    flow: OpenFlow,
    approval: LegacyCreatorConnectFlowApproval,
    authority: CreatorAuthorityRecord,
) -> bool {
    &&& authority.creator == approval.creator
    &&& authority.auth_kind == CreatorAuthorityAuthKind::LegacyCookie
    &&& authority.granted_scopes@ == flow.pending.requested_scopes@
    &&& authority.secret == approval.session_secret
    &&& authority.session_expires_at is None
    &&& authority.last_revalidated_at == Some(flow.now)
}

/// `authority` is what a grant approval of the flow grants.
pub open spec fn is_grant_authority(
    flow: OpenFlow,
    approval: GrantCreatorConnectFlowApproval,
    authority: CreatorAuthorityRecord,
) -> bool {
    &&& authority.creator == approval.creator
    &&& authority.auth_kind == CreatorAuthorityAuthKind::Grant
    &&& authority.granted_scopes == approval.granted_scopes
    &&& authority.secret == approval.grant_state
    &&& authority.session_expires_at == Some(approval.grant_expires_at)
    &&& authority.last_revalidated_at == Some(flow.now)
}

/// `record` is the one-time code of the flow for `creator`.
pub open spec fn is_code_record(
    flow: OpenFlow,
    creator: CreatorPubky,
    code: FrontendSessionCode,
    record: FrontendSessionCodeRecord,
) -> bool {
    &&& record.code == code
    &&& record.creator == creator
    &&& record.state == flow.pending.state
    &&& record.return_to == flow.pending.return_to
    &&& record.created_at == flow.now
    &&& record.expires_at@ == flow.now@ + FRONTEND_SESSION_CODE_TTL_SECONDS * NANOS_PER_SECOND
    &&& record.expires_at.offset() == flow.now.offset()
    &&& record.consumed_at is None
}

/// The response that tells of a stored one-time code.
pub open spec fn code_response(
    record: FrontendSessionCodeRecord,
) -> CompleteCreatorConnectFlowResponse {
    CompleteCreatorConnectFlowResponse {
        creator: record.creator,
        state: record.state,
        return_to: record.return_to,
        code: record.code,
        code_expires_at: record.expires_at,
    }
}

/// The answer is `error`.
pub open spec fn fails_with(state: CompleteCreatorConnectFlowState, error: ErrorView) -> bool {
    &&& state matches CompleteCreatorConnectFlowState::Finished { result: Err(found) }
    &&& found@ == error
}

/// The authority to store next is what the cookie approval grants.
pub open spec fn stores_cookie_authority(
    flow: OpenFlow,
    approval: LegacyCreatorConnectFlowApproval,
    next: CompleteCreatorConnectFlowState,
) -> bool {
    &&& next matches CompleteCreatorConnectFlowState::StoreAuthority { flow: kept, authority }
    &&& kept == flow
    &&& is_cookie_authority(flow, approval, authority)
}

/// The authority to store next is what the grant approval grants.
pub open spec fn stores_grant_authority(
    flow: OpenFlow,
    approval: GrantCreatorConnectFlowApproval,
    next: CompleteCreatorConnectFlowState,
) -> bool {
    &&& next matches CompleteCreatorConnectFlowState::StoreAuthority { flow: kept, authority }
    &&& kept == flow
    &&& is_grant_authority(flow, approval, authority)
}

/// What follows a lookup of the pending flow.
pub open spec fn follows_lookup(
    flow_id: CreatorConnectFlowId,
    now: Timestamp,
    grant_connect: bool,
    loaded: Result<Option<PendingCreatorConnectFlowRecord>, ApplicationError>,
    next: CompleteCreatorConnectFlowState,
) -> bool {
    match loaded {
        Err(error) => next == (CompleteCreatorConnectFlowState::Finished { result: Err(error) }),
        Ok(None) => fails_with(next, ErrorView::CreatorConnectFlowUnavailable),
        Ok(Some(pending)) => if now@ >= pending.expires_at@ {
            next == (CompleteCreatorConnectFlowState::DeleteExpiredFlow { flow_id })
        } else if grant_connect && pending.grant_authorization_url is Some {
            &&& next matches CompleteCreatorConnectFlowState::AwaitEitherApproval {
                flow,
                grant_authorization_url,
                pop_key_id,
            }
            &&& flow == (OpenFlow { flow_id, now, pending })
            &&& pending.grant_authorization_url == Some(grant_authorization_url)
            &&& pop_key_id@ == connect_flow_key_id(pending.flow_id@)
        } else {
            next == (CompleteCreatorConnectFlowState::AwaitCookieApproval {
                flow: (OpenFlow { flow_id, now, pending }),
            })
        },
    }
}

/// What follows `state` when `event` is reported. An event that the state does not wait for
/// changes nothing.
pub open spec fn complete_step(
    state: CompleteCreatorConnectFlowState,
    event: CompleteCreatorConnectFlowEvent,
    next: CompleteCreatorConnectFlowState,
) -> bool {
    match (state, event) {
        (
            CompleteCreatorConnectFlowState::LoadPendingFlow { flow_id, now, grant_connect },
            CompleteCreatorConnectFlowEvent::PendingFlowLoaded { loaded },
        ) => follows_lookup(flow_id, now, grant_connect, loaded, next),
        (
            CompleteCreatorConnectFlowState::DeleteExpiredFlow { flow_id },
            CompleteCreatorConnectFlowEvent::PendingFlowDeleted { deleted },
        ) => match deleted {
            Err(error) => next == (CompleteCreatorConnectFlowState::Finished {
                result: Err(error),
            }),
            Ok(_) => fails_with(next, ErrorView::CreatorConnectFlowExpired),
        },
        (
            CompleteCreatorConnectFlowState::AwaitCookieApproval { flow },
            CompleteCreatorConnectFlowEvent::CookieSettled { approval },
        ) => match approval {
            Err(error) => next == (CompleteCreatorConnectFlowState::Finished {
                result: Err(error),
            }),
            Ok(approval) => stores_cookie_authority(flow, approval, next),
        },
        (
            CompleteCreatorConnectFlowState::AwaitEitherApproval {
                flow,
                grant_authorization_url,
                pop_key_id,
            },
            CompleteCreatorConnectFlowEvent::CookieSettled { approval },
        ) => match approval {
            Err(error) => next == (CompleteCreatorConnectFlowState::AwaitGrantApproval {
                flow,
                grant_authorization_url,
                pop_key_id,
                cookie_error: error,
            }),
            Ok(approval) => stores_cookie_authority(flow, approval, next),
        },
        (
            CompleteCreatorConnectFlowState::AwaitEitherApproval { flow, .. },
            CompleteCreatorConnectFlowEvent::GrantSettled { approval },
        ) => match approval {
            Err(_) => next == (CompleteCreatorConnectFlowState::AwaitCookieApproval { flow }),
            Ok(approval) => stores_grant_authority(flow, approval, next),
        },
        (
            CompleteCreatorConnectFlowState::AwaitGrantApproval { flow, cookie_error, .. },
            CompleteCreatorConnectFlowEvent::GrantSettled { approval },
        ) => match approval {
            Err(_) => next == (CompleteCreatorConnectFlowState::Finished {
                result: Err(cookie_error),
            }),
            Ok(approval) => stores_grant_authority(flow, approval, next),
        },
        (
            CompleteCreatorConnectFlowState::StoreAuthority { flow, authority },
            CompleteCreatorConnectFlowEvent::AuthorityStored { stored },
        ) => match stored {
            Err(error) => next == (CompleteCreatorConnectFlowState::Finished {
                result: Err(error),
            }),
            Ok(_) => next == (CompleteCreatorConnectFlowState::GenerateCode {
                flow,
                creator: authority.creator,
            }),
        },
        (
            CompleteCreatorConnectFlowState::GenerateCode { flow, creator },
            CompleteCreatorConnectFlowEvent::CodeGenerated { code },
        ) => {
            &&& next matches CompleteCreatorConnectFlowState::StoreCode { flow_id, code: record }
            &&& flow_id == flow.flow_id
            &&& is_code_record(flow, creator, code, record)
        },
        (
            CompleteCreatorConnectFlowState::StoreCode { flow_id, code },
            CompleteCreatorConnectFlowEvent::CodeStored { stored },
        ) => match stored {
            Err(error) => next == (CompleteCreatorConnectFlowState::Finished {
                result: Err(error),
            }),
            Ok(_) => next == (CompleteCreatorConnectFlowState::DeleteCompletedFlow {
                flow_id,
                response: code_response(code),
            }),
        },
        (
            CompleteCreatorConnectFlowState::DeleteCompletedFlow { flow_id, response },
            CompleteCreatorConnectFlowEvent::PendingFlowDeleted { deleted },
        ) => match deleted {
            Err(error) => next == (CompleteCreatorConnectFlowState::Finished {
                result: Err(error),
            }),
            Ok(_) => next == (CompleteCreatorConnectFlowState::Finished { result: Ok(response) }),
        },
        (_, _) => next == state,
    }
}

/// Where completing the flow that `request` names begins.
pub open spec fn complete_begins(
    request: CompleteCreatorConnectFlowRequest,
    now: Timestamp,
    grant_connect: bool,
    state: CompleteCreatorConnectFlowState,
) -> bool {
    state == (CompleteCreatorConnectFlowState::LoadPendingFlow {
        flow_id: request.flow_id,
        now,
        grant_connect,
    })
}

impl CompleteCreatorConnectFlowState {
    /// Begins to complete the flow that `request` names, at the current time.
    pub fn new(
        request: CompleteCreatorConnectFlowRequest,
        now: Timestamp,
        grant_connect: bool,
    ) -> (state: Self)
        ensures
            complete_begins(request, now, grant_connect, state),
    {
        CompleteCreatorConnectFlowState::LoadPendingFlow {
            flow_id: request.flow_id,
            now,
            grant_connect,
        }
    }
}

/// The authority that a cookie approval of the flow grants.
fn cookie_authority(
    flow: &OpenFlow,
    approval: LegacyCreatorConnectFlowApproval,
) -> (authority: CreatorAuthorityRecord)
    ensures
        is_cookie_authority(*flow, approval, authority),
{
    CreatorAuthorityRecord {
        creator: approval.creator,
        auth_kind: CreatorAuthorityAuthKind::LegacyCookie,
        granted_scopes: copy_texts(&flow.pending.requested_scopes),
        secret: approval.session_secret,
        session_expires_at: None,
        last_revalidated_at: Some(flow.now),
    }
}

/// The authority that a grant approval of the flow grants.
fn grant_authority(
    flow: &OpenFlow,
    approval: GrantCreatorConnectFlowApproval,
) -> (authority: CreatorAuthorityRecord)
    ensures
        is_grant_authority(*flow, approval, authority),
{
    CreatorAuthorityRecord {
        creator: approval.creator,
        auth_kind: CreatorAuthorityAuthKind::Grant,
        granted_scopes: approval.granted_scopes,
        secret: approval.grant_state,
        session_expires_at: Some(approval.grant_expires_at),
        last_revalidated_at: Some(flow.now),
    }
}

/// Which approvals to wait for, once the pending flow has been looked up.
fn await_connect_approval(
    flow_id: CreatorConnectFlowId,
    now: Timestamp,
    grant_connect: bool,
    loaded: Result<Option<PendingCreatorConnectFlowRecord>, ApplicationError>,
) -> (next: CompleteCreatorConnectFlowState)
    ensures
        follows_lookup(flow_id, now, grant_connect, loaded, next),
{
    let pending = match loaded {
        Err(error) => {
            return CompleteCreatorConnectFlowState::Finished { result: Err(error) };
        },
        Ok(None) => {
            return CompleteCreatorConnectFlowState::Finished {
                result: Err(ApplicationError::CreatorConnectFlowUnavailable),
            };
        },
        Ok(Some(pending)) => pending,
    };
    if pending.is_expired_at(now) {
        return CompleteCreatorConnectFlowState::DeleteExpiredFlow { flow_id };
    }
    let grant_authorization_url = if grant_connect {
        pending.grant_authorization_url.clone()
    } else {
        None
    };
    match grant_authorization_url {
        Some(grant_authorization_url) => {
            let pop_key_id = GrantPopKeyId::for_connect_flow(&pending.flow_id);
            CompleteCreatorConnectFlowState::AwaitEitherApproval {
                flow: OpenFlow { flow_id, now, pending },
                grant_authorization_url,
                pop_key_id,
            }
        },
        None => CompleteCreatorConnectFlowState::AwaitCookieApproval {
            flow: OpenFlow { flow_id, now, pending },
        },
    }
}

/// Completes a pending Pubky creator connect flow and issues a frontend session code, one
/// answer at a time.
pub fn complete_creator_connect_flow(
    state: CompleteCreatorConnectFlowState,
    event: CompleteCreatorConnectFlowEvent,
) -> (next: CompleteCreatorConnectFlowState)
    requires
        state is GenerateCode && event is CodeGenerated ==> in_calendar(
            state->GenerateCode_flow.now.local() + FRONTEND_SESSION_CODE_TTL_SECONDS
                * NANOS_PER_SECOND,
        ),
    ensures
        complete_step(state, event, next),
{
    match (state, event) {
        (
            CompleteCreatorConnectFlowState::LoadPendingFlow { flow_id, now, grant_connect },
            CompleteCreatorConnectFlowEvent::PendingFlowLoaded { loaded },
        ) => await_connect_approval(flow_id, now, grant_connect, loaded),
        (
            CompleteCreatorConnectFlowState::DeleteExpiredFlow { .. },
            CompleteCreatorConnectFlowEvent::PendingFlowDeleted { deleted },
        ) => match deleted {
            Err(error) => CompleteCreatorConnectFlowState::Finished { result: Err(error) },
            Ok(_) => CompleteCreatorConnectFlowState::Finished {
                result: Err(ApplicationError::CreatorConnectFlowExpired),
            },
        },
        (
            CompleteCreatorConnectFlowState::AwaitCookieApproval { flow },
            CompleteCreatorConnectFlowEvent::CookieSettled { approval },
        ) => match approval {
            Err(error) => CompleteCreatorConnectFlowState::Finished { result: Err(error) },
            Ok(approval) => {
                let authority = cookie_authority(&flow, approval);
                CompleteCreatorConnectFlowState::StoreAuthority { flow, authority }
            },
        },
        (
            CompleteCreatorConnectFlowState::AwaitEitherApproval {
                flow,
                grant_authorization_url,
                pop_key_id,
            },
            CompleteCreatorConnectFlowEvent::CookieSettled { approval },
        ) => match approval {
            Err(cookie_error) => CompleteCreatorConnectFlowState::AwaitGrantApproval {
                flow,
                grant_authorization_url,
                pop_key_id,
                cookie_error,
            },
            Ok(approval) => {
                let authority = cookie_authority(&flow, approval);
                CompleteCreatorConnectFlowState::StoreAuthority { flow, authority }
            },
        },
        (
            CompleteCreatorConnectFlowState::AwaitEitherApproval { flow, .. },
            CompleteCreatorConnectFlowEvent::GrantSettled { approval },
        ) => match approval {
            Err(_) => CompleteCreatorConnectFlowState::AwaitCookieApproval { flow },
            Ok(approval) => {
                let authority = grant_authority(&flow, approval);
                CompleteCreatorConnectFlowState::StoreAuthority { flow, authority }
            },
        },
        (
            CompleteCreatorConnectFlowState::AwaitGrantApproval { flow, cookie_error, .. },
            CompleteCreatorConnectFlowEvent::GrantSettled { approval },
        ) => match approval {
            Err(_) => CompleteCreatorConnectFlowState::Finished { result: Err(cookie_error) },
            Ok(approval) => {
                let authority = grant_authority(&flow, approval);
                CompleteCreatorConnectFlowState::StoreAuthority { flow, authority }
            },
        },
        (
            CompleteCreatorConnectFlowState::StoreAuthority { flow, authority },
            CompleteCreatorConnectFlowEvent::AuthorityStored { stored },
        ) => match stored {
            Err(error) => CompleteCreatorConnectFlowState::Finished { result: Err(error) },
            Ok(_) => CompleteCreatorConnectFlowState::GenerateCode {
                flow,
                creator: authority.creator,
            },
        },
        (
            CompleteCreatorConnectFlowState::GenerateCode { flow, creator },
            CompleteCreatorConnectFlowEvent::CodeGenerated { code },
        ) => CompleteCreatorConnectFlowState::StoreCode {
            flow_id: flow.flow_id,
            code: FrontendSessionCodeRecord {
                code,
                creator,
                state: flow.pending.state,
                return_to: flow.pending.return_to,
                created_at: flow.now,
                expires_at: flow.now.plus_seconds(FRONTEND_SESSION_CODE_TTL_SECONDS),
                consumed_at: None,
            },
        },
        (
            CompleteCreatorConnectFlowState::StoreCode { flow_id, code },
            CompleteCreatorConnectFlowEvent::CodeStored { stored },
        ) => match stored {
            Err(error) => CompleteCreatorConnectFlowState::Finished { result: Err(error) },
            Ok(_) => CompleteCreatorConnectFlowState::DeleteCompletedFlow {
                flow_id,
                response: CompleteCreatorConnectFlowResponse {
                    creator: code.creator,
                    state: code.state,
                    return_to: code.return_to,
                    code: code.code,
                    code_expires_at: code.expires_at,
                },
            },
        },
        (
            CompleteCreatorConnectFlowState::DeleteCompletedFlow { response, .. },
            CompleteCreatorConnectFlowEvent::PendingFlowDeleted { deleted },
        ) => match deleted {
            Err(error) => CompleteCreatorConnectFlowState::Finished { result: Err(error) },
            Ok(_) => CompleteCreatorConnectFlowState::Finished { result: Ok(response) },
        },
        (state, _) => state,
    }
}

/// Everything that the outside can answer while one flow is completed.
pub struct CompleteAnswers {
    /// What the lookup of the pending flow finds.
    pub loaded: Result<Option<PendingCreatorConnectFlowRecord>, ApplicationError>,
    /// How deleting the pending flow ends.
    pub deleted: Result<(), ApplicationError>,
    /// How the cookie approval settles.
    pub cookie: Result<LegacyCreatorConnectFlowApproval, ApplicationError>,
    /// How the grant approval settles.
    pub grant: Result<GrantCreatorConnectFlowApproval, ApplicationError>,
    /// Whether the cookie approval settles before the grant approval.
    pub cookie_first: bool,
    /// How storing the authority ends.
    pub authority_stored: Result<(), ApplicationError>,
    /// The drawn one-time code.
    pub code: FrontendSessionCode,
    /// How storing the one-time code ends.
    pub code_stored: Result<(), ApplicationError>,
}

impl CompleteAnswers {
    /// The answer to what `state` asks for.
    pub open spec fn to(
        self,
        state: CompleteCreatorConnectFlowState,
    ) -> CompleteCreatorConnectFlowEvent {
        match state {
            CompleteCreatorConnectFlowState::LoadPendingFlow { .. } =>
                CompleteCreatorConnectFlowEvent::PendingFlowLoaded { loaded: self.loaded },
            CompleteCreatorConnectFlowState::AwaitCookieApproval { .. } =>
                CompleteCreatorConnectFlowEvent::CookieSettled { approval: self.cookie },
            CompleteCreatorConnectFlowState::AwaitEitherApproval { .. } => if self.cookie_first {
                CompleteCreatorConnectFlowEvent::CookieSettled { approval: self.cookie }
            } else {
                CompleteCreatorConnectFlowEvent::GrantSettled { approval: self.grant }
            },
            CompleteCreatorConnectFlowState::AwaitGrantApproval { .. } =>
                CompleteCreatorConnectFlowEvent::GrantSettled { approval: self.grant },
            CompleteCreatorConnectFlowState::StoreAuthority { .. } =>
                CompleteCreatorConnectFlowEvent::AuthorityStored { stored: self.authority_stored },
            CompleteCreatorConnectFlowState::GenerateCode { .. } =>
                CompleteCreatorConnectFlowEvent::CodeGenerated { code: self.code },
            CompleteCreatorConnectFlowState::StoreCode { .. } =>
                CompleteCreatorConnectFlowEvent::CodeStored { stored: self.code_stored },
            _ => CompleteCreatorConnectFlowEvent::PendingFlowDeleted { deleted: self.deleted },
        }
    }

    /// The state `run[i + 1]` follows `run[i]` under these answers.
    pub open spec fn drives(self, run: Seq<CompleteCreatorConnectFlowState>, i: int) -> bool {
        complete_step(run[i], self.to(run[i]), run[i + 1])
    }
}

/// A run that completes the flow of `request` with these answers, long enough to be over.
pub open spec fn is_complete_run(
    request: CompleteCreatorConnectFlowRequest,
    now: Timestamp,
    grant_connect: bool,
    answers: CompleteAnswers,
    run: Seq<CompleteCreatorConnectFlowState>,
) -> bool {
    &&& run.len() == 8
    &&& complete_begins(request, now, grant_connect, run[0])
    &&& forall|i: int| 0 <= i < 7 ==> #[trigger] answers.drives(run, i)
}

/// The pending flow that is found, and still open at `now`.
pub open spec fn open_flow(
    request: CompleteCreatorConnectFlowRequest,
    now: Timestamp,
    answers: CompleteAnswers,
) -> Option<OpenFlow> {
    match answers.loaded {
        Ok(Some(pending)) => if now@ < pending.expires_at@ {
            Some(OpenFlow { flow_id: request.flow_id, now, pending })
        } else {
            None
        },
        _ => None,
    }
}

/// The approval that decides.
pub enum DecidingApproval {
    /// The creator approved the cookie flow.
    Cookie { approval: LegacyCreatorConnectFlowApproval },
    /// The creator approved the grant flow.
    Grant { approval: GrantCreatorConnectFlowApproval },
    /// No approval came.
    Failed { error: ApplicationError },
}

/// The approval that decides an open flow: the first one that succeeds. Without a grant URL, or
/// without grant connect, only the cookie approval counts. Where both fail, the cookie approval's
/// failure is the one that is told.
pub open spec fn deciding_approval(
    pending: PendingCreatorConnectFlowRecord,
    grant_connect: bool,
    answers: CompleteAnswers,
) -> DecidingApproval {
    let grant_counts = grant_connect && pending.grant_authorization_url is Some;
    match (answers.cookie, answers.grant) {
        (Ok(cookie), Ok(grant)) => if grant_counts && !answers.cookie_first {
            DecidingApproval::Grant { approval: grant }
        } else {
            DecidingApproval::Cookie { approval: cookie }
        },
        (Ok(cookie), Err(_)) => DecidingApproval::Cookie { approval: cookie },
        (Err(error), Ok(grant)) => if grant_counts {
            DecidingApproval::Grant { approval: grant }
        } else {
            DecidingApproval::Failed { error }
        },
        (Err(error), Err(_)) => DecidingApproval::Failed { error },
    }
}

/// `authority` is what the deciding approval grants.
pub open spec fn is_decided_authority(
    flow: OpenFlow,
    deciding: DecidingApproval,
    authority: CreatorAuthorityRecord,
) -> bool {
    match deciding {
        DecidingApproval::Cookie { approval } => is_cookie_authority(flow, approval, authority),
        DecidingApproval::Grant { approval } => is_grant_authority(flow, approval, authority),
        DecidingApproval::Failed { .. } => false,
    }
}

/// The creator that the deciding approval names.
pub open spec fn decided_creator(deciding: DecidingApproval) -> Option<CreatorPubky> {
    match deciding {
        DecidingApproval::Cookie { approval } => Some(approval.creator),
        DecidingApproval::Grant { approval } => Some(approval.creator),
        DecidingApproval::Failed { .. } => None,
    }
}

/// Each step of a run, one by one.
proof fn lemma_complete_run_steps(
    request: CompleteCreatorConnectFlowRequest,
    now: Timestamp,
    grant_connect: bool,
    answers: CompleteAnswers,
    run: Seq<CompleteCreatorConnectFlowState>,
)
    requires
        is_complete_run(request, now, grant_connect, answers, run),
    ensures
        answers.drives(run, 0),
        answers.drives(run, 1),
        answers.drives(run, 2),
        answers.drives(run, 3),
        answers.drives(run, 4),
        answers.drives(run, 5),
        answers.drives(run, 6),
{
}

/// How completing a flow ends, for every answer that the outside can give. A missing flow is
/// unavailable. An expired flow is deleted and then reported as expired. Otherwise the first
/// failure is the answer, and success answers with the code that was stored for the approved
/// creator.
pub proof fn law_complete_run_ends(
    request: CompleteCreatorConnectFlowRequest,
    now: Timestamp,
    grant_connect: bool,
    answers: CompleteAnswers,
    run: Seq<CompleteCreatorConnectFlowState>,
)
    requires
        is_complete_run(request, now, grant_connect, answers, run),
    ensures
        run[7] matches CompleteCreatorConnectFlowState::Finished { result } && match answers.loaded {
            Err(error) => result == Err::<CompleteCreatorConnectFlowResponse, _>(error),
            Ok(None) => result matches Err(error) && error@
                == ErrorView::CreatorConnectFlowUnavailable,
            Ok(Some(pending)) => if now@ >= pending.expires_at@ {
                match answers.deleted {
                    Err(error) => result == Err::<CompleteCreatorConnectFlowResponse, _>(error),
                    Ok(_) => result matches Err(error) && error@
                        == ErrorView::CreatorConnectFlowExpired,
                }
            } else if deciding_approval(pending, grant_connect, answers) is Failed {
                result == Err::<CompleteCreatorConnectFlowResponse, _>(
                    deciding_approval(pending, grant_connect, answers)->error,
                )
            } else if answers.authority_stored is Err {
                result == Err::<CompleteCreatorConnectFlowResponse, _>(
                    answers.authority_stored->Err_0,
                )
            } else if answers.code_stored is Err {
                result == Err::<CompleteCreatorConnectFlowResponse, _>(answers.code_stored->Err_0)
            } else if answers.deleted is Err {
                result == Err::<CompleteCreatorConnectFlowResponse, _>(answers.deleted->Err_0)
            } else {
                &&& result matches Ok(response)
                &&& Some(response.creator) == decided_creator(
                    deciding_approval(pending, grant_connect, answers),
                )
                &&& response.state == pending.state
                &&& response.return_to == pending.return_to
                &&& response.code == answers.code
                &&& response.code_expires_at@ == now@ + FRONTEND_SESSION_CODE_TTL_SECONDS
                    * NANOS_PER_SECOND
                &&& response.code_expires_at.offset() == now.offset()
            },
        },
{
    lemma_complete_run_steps(request, now, grant_connect, answers, run);
}

/// An authority is stored exactly when the flow is open and an approval succeeds, and what is
/// stored is what the deciding approval grants: the secret of a grant never stands in a cookie
/// record, nor the other way round.
pub proof fn law_complete_stores_what_was_approved(
    request: CompleteCreatorConnectFlowRequest,
    now: Timestamp,
    grant_connect: bool,
    answers: CompleteAnswers,
    run: Seq<CompleteCreatorConnectFlowState>,
)
    requires
        is_complete_run(request, now, grant_connect, answers, run),
    ensures
        forall|i: int| 0 <= i < 8 && #[trigger] run[i] is StoreAuthority ==> {
            &&& open_flow(request, now, answers) matches Some(flow)
            &&& is_decided_authority(
                flow,
                deciding_approval(flow.pending, grant_connect, answers),
                run[i]->authority,
            )
        },
        (exists|i: int| 0 <= i < 8 && #[trigger] run[i] is StoreAuthority) <==> (open_flow(
            request,
            now,
            answers,
        ) matches Some(flow) && !(deciding_approval(flow.pending, grant_connect, answers)
            is Failed)),
{
    lemma_complete_run_steps(request, now, grant_connect, answers, run);
    if let Some(flow) = open_flow(request, now, answers) {
        if !(deciding_approval(flow.pending, grant_connect, answers) is Failed) {
            assert(run[2] is StoreAuthority || run[3] is StoreAuthority);
        }
    }
}

/// A one-time code is stored only once the authority is, for the creator whose authority it is
/// and with the target and state of the pending flow.
pub proof fn law_complete_issues_code_after_authority(
    request: CompleteCreatorConnectFlowRequest,
    now: Timestamp,
    grant_connect: bool,
    answers: CompleteAnswers,
    run: Seq<CompleteCreatorConnectFlowState>,
    i: int,
)
    requires
        is_complete_run(request, now, grant_connect, answers, run),
        0 <= i < 8,
        run[i] is StoreCode,
    ensures
        answers.authority_stored is Ok,
        i >= 2,
        run[i - 2] is StoreAuthority,
        open_flow(request, now, answers) matches Some(flow) && is_code_record(
            flow,
            run[i - 2]->authority.creator,
            answers.code,
            run[i]->StoreCode_code,
        ),
{
    lemma_complete_run_steps(request, now, grant_connect, answers, run);
}

/// The pending flow is deleted exactly when it has expired, or once its authority and its code
/// are stored. In every other case, failed approvals among them, it stays for another try.
pub proof fn law_complete_deletes_only_finished_flows(
    request: CompleteCreatorConnectFlowRequest,
    now: Timestamp,
    grant_connect: bool,
    answers: CompleteAnswers,
    run: Seq<CompleteCreatorConnectFlowState>,
)
    requires
        is_complete_run(request, now, grant_connect, answers, run),
    ensures
        (exists|i: int| 0 <= i < 8 && #[trigger] run[i] is DeleteExpiredFlow) <==> (
        answers.loaded matches Ok(Some(pending)) && now@ >= pending.expires_at@),
        (exists|i: int| 0 <= i < 8 && #[trigger] run[i] is DeleteCompletedFlow) <==> (open_flow(
            request,
            now,
            answers,
        ) matches Some(flow) && !(deciding_approval(flow.pending, grant_connect, answers) is Failed)
            && answers.authority_stored is Ok && answers.code_stored is Ok),
        forall|i: int|
            0 <= i < 8 && #[trigger] run[i] is DeleteExpiredFlow
                ==> run[i]->DeleteExpiredFlow_flow_id == request.flow_id,
        forall|i: int|
            0 <= i < 8 && #[trigger] run[i] is DeleteCompletedFlow
                ==> run[i]->DeleteCompletedFlow_flow_id == request.flow_id,
{
    lemma_complete_run_steps(request, now, grant_connect, answers, run);
    assert(run[1] is DeleteExpiredFlow <==> (answers.loaded matches Ok(Some(pending)) && now@
        >= pending.expires_at@));
    if let Some(flow) = open_flow(request, now, answers) {
        if !(deciding_approval(flow.pending, grant_connect, answers) is Failed)
            && answers.authority_stored is Ok && answers.code_stored is Ok {
            assert(run[5] is DeleteCompletedFlow || run[6] is DeleteCompletedFlow);
        }
    }
}

/// The grant approval is waited for only where grant connect is configured and the pending flow
/// has a grant URL; it is then waited for with that URL and with the key of this very flow.
pub proof fn law_complete_awaits_grant_iff_offered(
    request: CompleteCreatorConnectFlowRequest,
    now: Timestamp,
    grant_connect: bool,
    answers: CompleteAnswers,
    run: Seq<CompleteCreatorConnectFlowState>,
)
    requires
        is_complete_run(request, now, grant_connect, answers, run),
    ensures
        (exists|i: int| 0 <= i < 8 && #[trigger] run[i] is AwaitEitherApproval) <==> (open_flow(
            request,
            now,
            answers,
        ) matches Some(flow) && grant_connect && flow.pending.grant_authorization_url is Some),
        forall|i: int| 0 <= i < 8 && #[trigger] run[i] is AwaitEitherApproval ==> {
            &&& open_flow(request, now, answers) matches Some(flow)
            &&& run[i]->AwaitEitherApproval_flow == flow
            &&& flow.pending.grant_authorization_url == Some(
                run[i]->AwaitEitherApproval_grant_authorization_url,
            )
            &&& run[i]->AwaitEitherApproval_pop_key_id@ == connect_flow_key_id(
                flow.pending.flow_id@,
            )
        },
        forall|i: int| 0 <= i < 8 && #[trigger] run[i] is AwaitGrantApproval ==> {
            &&& i == 2
            &&& run[1] is AwaitEitherApproval
            &&& run[2]->AwaitGrantApproval_flow == run[1]->AwaitEitherApproval_flow
            &&& run[2]->AwaitGrantApproval_grant_authorization_url
                == run[1]->AwaitEitherApproval_grant_authorization_url
            &&& run[2]->AwaitGrantApproval_pop_key_id == run[1]->AwaitEitherApproval_pop_key_id
        },
{
    lemma_complete_run_steps(request, now, grant_connect, answers, run);
    assert(run[1] is AwaitEitherApproval <==> (open_flow(request, now, answers) matches Some(flow)
        && grant_connect && flow.pending.grant_authorization_url is Some));
}

/// A cookie authority that is stored carries no expiry, whatever the pending flow holds, so that it
/// stays usable until the homeserver refuses it. It is the cookie approval's creator and secret,
/// with the scopes that the flow asked for, checked just now.
pub proof fn law_cookie_authority_has_no_expiry(
    request: CompleteCreatorConnectFlowRequest,
    now: Timestamp,
    grant_connect: bool,
    answers: CompleteAnswers,
    run: Seq<CompleteCreatorConnectFlowState>,
    i: int,
    later: Timestamp,
)
    requires
        is_complete_run(request, now, grant_connect, answers, run),
        0 <= i < 8,
        run[i] is StoreAuthority,
        run[i]->authority.auth_kind == CreatorAuthorityAuthKind::LegacyCookie,
    ensures
        run[i]->authority.session_expires_at is None,
        is_usable(None, run[i]->authority.session_expires_at, later),
        run[i]->authority.last_revalidated_at == Some(now),
        answers.cookie is Ok,
        run[i]->authority.creator == answers.cookie->Ok_0.creator,
        run[i]->authority.secret == answers.cookie->Ok_0.session_secret,
        answers.loaded is Ok && answers.loaded->Ok_0 is Some,
        run[i]->authority.granted_scopes@ == answers.loaded->Ok_0->0.requested_scopes@,
{
    lemma_complete_run_steps(request, now, grant_connect, answers, run);
}

/// A grant authority that is stored is the grant approval's creator, restore state, scopes and
/// expiry, checked just now; it is usable exactly until the grant expires.
pub proof fn law_grant_authority_is_the_approved_grant(
    request: CompleteCreatorConnectFlowRequest,
    now: Timestamp,
    grant_connect: bool,
    answers: CompleteAnswers,
    run: Seq<CompleteCreatorConnectFlowState>,
    i: int,
    later: Timestamp,
)
    requires
        is_complete_run(request, now, grant_connect, answers, run),
        0 <= i < 8,
        run[i] is StoreAuthority,
        run[i]->authority.auth_kind == CreatorAuthorityAuthKind::Grant,
    ensures
        grant_connect,
        answers.grant is Ok,
        run[i]->authority.creator == answers.grant->Ok_0.creator,
        run[i]->authority.secret == answers.grant->Ok_0.grant_state,
        run[i]->authority.granted_scopes == answers.grant->Ok_0.granted_scopes,
        run[i]->authority.session_expires_at == Some(answers.grant->Ok_0.grant_expires_at),
        run[i]->authority.last_revalidated_at == Some(now),
        is_usable(None, run[i]->authority.session_expires_at, later) <==> later@
            < answers.grant->Ok_0.grant_expires_at@,
{
    lemma_complete_run_steps(request, now, grant_connect, answers, run);
}

/// The first approval that succeeds decides which kind of authority is stored. The grant approval
/// counts only where grant connect is configured and the pending flow has a grant URL; a failed
/// approval never stands in the way of the other one.
pub proof fn law_first_successful_approval_is_stored(
    request: CompleteCreatorConnectFlowRequest,
    now: Timestamp,
    grant_connect: bool,
    answers: CompleteAnswers,
    run: Seq<CompleteCreatorConnectFlowState>,
    pending: PendingCreatorConnectFlowRecord,
)
    requires
        is_complete_run(request, now, grant_connect, answers, run),
        answers.loaded == Ok::<_, ApplicationError>(Some(pending)),
        now@ < pending.expires_at@,
    ensures
        (exists|i: int| 0 <= i < 8 && #[trigger] run[i] is StoreAuthority) <==> {
            ||| answers.cookie is Ok
            ||| grant_connect && pending.grant_authorization_url is Some && answers.grant is Ok
        },
        forall|i: int| 0 <= i < 8 && #[trigger] run[i] is StoreAuthority ==> {
            run[i]->authority.auth_kind == CreatorAuthorityAuthKind::Grant <==> {
                &&& grant_connect
                &&& pending.grant_authorization_url is Some
                &&& answers.grant is Ok
                &&& answers.cookie is Err || !answers.cookie_first
            }
        },
        forall|i: int, j: int|
            0 <= i < 8 && 0 <= j < 8 && #[trigger] run[i] is StoreAuthority && #[trigger] run[j]
                is StoreAuthority ==> i == j,
{
    lemma_complete_run_steps(request, now, grant_connect, answers, run);
    if answers.cookie is Ok || (grant_connect && pending.grant_authorization_url is Some
        && answers.grant is Ok) {
        assert(run[2] is StoreAuthority || run[3] is StoreAuthority);
    }
}

/// Completing succeeds exactly when the flow is there and still open, one of the approvals that
/// count succeeds, and the authority, the code and the deletion go through. The answer then names
/// the creator of the approval that decided, with the flow's own state and target and with the
/// drawn code, which is valid for five minutes.
pub proof fn law_complete_answers_with_the_approved_creator(
    request: CompleteCreatorConnectFlowRequest,
    now: Timestamp,
    grant_connect: bool,
    answers: CompleteAnswers,
    run: Seq<CompleteCreatorConnectFlowState>,
)
    requires
        is_complete_run(request, now, grant_connect, answers, run),
    ensures
        run[7] is Finished,
        run[7]->result is Ok <==> {
            &&& answers.loaded is Ok && answers.loaded->Ok_0 is Some
            &&& now@ < answers.loaded->Ok_0->0.expires_at@
            &&& {
                ||| answers.cookie is Ok
                ||| {
                    &&& grant_connect
                    &&& answers.loaded->Ok_0->0.grant_authorization_url is Some
                    &&& answers.grant is Ok
                }
            }
            &&& answers.authority_stored is Ok
            &&& answers.code_stored is Ok
            &&& answers.deleted is Ok
        },
        run[7] matches CompleteCreatorConnectFlowState::Finished { result: Ok(response) } ==> {
            let pending = answers.loaded->Ok_0->0;
            &&& response.state == pending.state
            &&& response.return_to == pending.return_to
            &&& response.code == answers.code
            &&& response.code_expires_at@ == now@ + 300_000_000_000
            &&& response.code_expires_at.offset() == now.offset()
            &&& if grant_connect && pending.grant_authorization_url is Some && answers.grant is Ok
                && (answers.cookie is Err || !answers.cookie_first) {
                response.creator == answers.grant->Ok_0.creator
            } else {
                response.creator == answers.cookie->Ok_0.creator
            }
        },
{
    lemma_complete_run_steps(request, now, grant_connect, answers, run);
}

/// Completing fails with the first thing that went wrong: no such flow, an expired one, no
/// approval that succeeded, then storing the authority, storing the code, and deleting the flow.
/// Where no approval succeeded, the cookie approval's failure is the one that is told.
pub proof fn law_complete_tells_the_first_failure(
    request: CompleteCreatorConnectFlowRequest,
    now: Timestamp,
    grant_connect: bool,
    answers: CompleteAnswers,
    run: Seq<CompleteCreatorConnectFlowState>,
)
    requires
        is_complete_run(request, now, grant_connect, answers, run),
        run[7] is Finished,
        run[7]->result is Err,
    ensures
        match answers.loaded {
            Err(error) => run[7]->result->Err_0 == error,
            Ok(None) => run[7]->result->Err_0 is CreatorConnectFlowUnavailable,
            Ok(Some(pending)) => {
                let approved = answers.cookie is Ok || (grant_connect
                    && pending.grant_authorization_url is Some && answers.grant is Ok);
                &&& now@ >= pending.expires_at@ && answers.deleted is Ok
                    ==> run[7]->result->Err_0 is CreatorConnectFlowExpired
                &&& now@ >= pending.expires_at@ && answers.deleted is Err
                    ==> run[7]->result->Err_0 == answers.deleted->Err_0
                &&& now@ < pending.expires_at@ && !approved ==> run[7]->result->Err_0
                    == answers.cookie->Err_0
                &&& now@ < pending.expires_at@ && approved ==> {
                    &&& answers.authority_stored is Err ==> run[7]->result->Err_0
                        == answers.authority_stored->Err_0
                    &&& answers.authority_stored is Ok && answers.code_stored is Err
                        ==> run[7]->result->Err_0 == answers.code_stored->Err_0
                    &&& answers.authority_stored is Ok && answers.code_stored is Ok
                        ==> answers.deleted is Err && run[7]->result->Err_0
                        == answers.deleted->Err_0
                }
            },
        },
{
    lemma_complete_run_steps(request, now, grant_connect, answers, run);
}

/// The one-time code that is stored is the drawn one, unused, for the creator whose authority was
/// just stored, with the flow's own state and target, created now and valid for five minutes. It is
/// stored exactly when the authority was.
pub proof fn law_stored_code_belongs_to_the_stored_authority(
    request: CompleteCreatorConnectFlowRequest,
    now: Timestamp,
    grant_connect: bool,
    answers: CompleteAnswers,
    run: Seq<CompleteCreatorConnectFlowState>,
)
    requires
        is_complete_run(request, now, grant_connect, answers, run),
    ensures
        forall|i: int| 0 <= i < 8 && #[trigger] run[i] is StoreCode ==> {
            let record = run[i]->StoreCode_code;
            let pending = answers.loaded->Ok_0->0;
            &&& 2 <= i
            &&& run[i - 2] is StoreAuthority
            &&& answers.authority_stored is Ok
            &&& record.creator == run[i - 2]->authority.creator
            &&& record.code == answers.code
            &&& record.state == pending.state
            &&& record.return_to == pending.return_to
            &&& record.created_at == now
            &&& record.expires_at@ == now@ + 300_000_000_000
            &&& record.expires_at.offset() == now.offset()
            &&& record.consumed_at is None
        },
        (exists|i: int| 0 <= i < 8 && #[trigger] run[i] is StoreCode) <==> (answers.authority_stored
            is Ok && exists|i: int| 0 <= i < 8 && #[trigger] run[i] is StoreAuthority),
        run[7]->result is Ok ==> exists|i: int|
            0 <= i < 8 && #[trigger] run[i] is StoreCode && run[i]->StoreCode_code.code
                == run[7]->result->Ok_0.code && run[i]->StoreCode_code.creator
                == run[7]->result->Ok_0.creator && run[i]->StoreCode_code.expires_at
                == run[7]->result->Ok_0.code_expires_at,
{
    lemma_complete_run_steps(request, now, grant_connect, answers, run);
    if run[2] is StoreAuthority && answers.authority_stored is Ok {
        assert(run[4] is StoreCode);
    }
    if run[3] is StoreAuthority && answers.authority_stored is Ok {
        assert(run[5] is StoreCode);
    }
}

/// The flow that was asked for is deleted exactly once it has expired, or once its authority and
/// its code are stored, and never before.
pub proof fn law_flow_is_deleted_when_it_is_over(
    request: CompleteCreatorConnectFlowRequest,
    now: Timestamp,
    grant_connect: bool,
    answers: CompleteAnswers,
    run: Seq<CompleteCreatorConnectFlowState>,
)
    requires
        is_complete_run(request, now, grant_connect, answers, run),
    ensures
        forall|i: int| 0 <= i < 8 && #[trigger] run[i] is DeleteExpiredFlow ==> {
            &&& run[i]->DeleteExpiredFlow_flow_id == request.flow_id
            &&& answers.loaded is Ok && answers.loaded->Ok_0 is Some
            &&& now@ >= answers.loaded->Ok_0->0.expires_at@
        },
        forall|i: int| 0 <= i < 8 && #[trigger] run[i] is DeleteCompletedFlow ==> {
            &&& run[i]->DeleteCompletedFlow_flow_id == request.flow_id
            &&& 1 <= i
            &&& run[i - 1] is StoreCode
            &&& answers.authority_stored is Ok
            &&& answers.code_stored is Ok
        },
        (exists|i: int| 0 <= i < 8 && #[trigger] run[i] is DeleteCompletedFlow) <==> (
        answers.code_stored is Ok && exists|i: int| 0 <= i < 8 && #[trigger] run[i] is StoreCode),
        answers.loaded is Ok && answers.loaded->Ok_0 is Some && now@
            >= answers.loaded->Ok_0->0.expires_at@ ==> run[1] is DeleteExpiredFlow,
{
    lemma_complete_run_steps(request, now, grant_connect, answers, run);
    if run[4] is StoreCode && answers.code_stored is Ok {
        assert(run[5] is DeleteCompletedFlow);
    }
    if run[5] is StoreCode && answers.code_stored is Ok {
        assert(run[6] is DeleteCompletedFlow);
    }
}

/// What is waited for: the cookie approval of the flow that was found, and beside it the grant
/// approval, with the flow's own grant URL and the key that its ID names, exactly where grant
/// connect is configured and there is such a URL.
pub proof fn law_complete_waits_for_the_flow_that_was_found(
    request: CompleteCreatorConnectFlowRequest,
    now: Timestamp,
    grant_connect: bool,
    answers: CompleteAnswers,
    run: Seq<CompleteCreatorConnectFlowState>,
    pending: PendingCreatorConnectFlowRecord,
)
    requires
        is_complete_run(request, now, grant_connect, answers, run),
        answers.loaded == Ok::<_, ApplicationError>(Some(pending)),
        now@ < pending.expires_at@,
    ensures
        run[1] is AwaitEitherApproval <==> grant_connect && pending.grant_authorization_url is Some,
        run[1] is AwaitCookieApproval <==> !(grant_connect && pending.grant_authorization_url
            is Some),
        run[1] matches CompleteCreatorConnectFlowState::AwaitEitherApproval {
            flow,
            grant_authorization_url,
            pop_key_id,
        } ==> {
            &&& flow.pending == pending
            &&& Some(grant_authorization_url) == pending.grant_authorization_url
            &&& pop_key_id@ == "locks-connect-v1."@ + pending.flow_id@
        },
        forall|i: int|
            0 <= i < 8 && #[trigger] run[i] is AwaitCookieApproval
                ==> run[i]->AwaitCookieApproval_flow.pending == pending,
        forall|i: int| 0 <= i < 8 && #[trigger] run[i] is AwaitGrantApproval ==> {
            &&& run[i]->AwaitGrantApproval_flow.pending == pending
            &&& Some(run[i]->AwaitGrantApproval_grant_authorization_url)
                == pending.grant_authorization_url
            &&& run[i]->AwaitGrantApproval_pop_key_id@ == "locks-connect-v1."@ + pending.flow_id@
        },
{
    lemma_complete_run_steps(request, now, grant_connect, answers, run);
}

/// A flow without a grant URL, or a server without grant connect, pays no heed to the grant
/// approval: whatever it is, the answer is the same.
pub proof fn law_grant_approval_counts_only_where_offered(
    request: CompleteCreatorConnectFlowRequest,
    now: Timestamp,
    grant_connect: bool,
    answers: CompleteAnswers,
    run: Seq<CompleteCreatorConnectFlowState>,
    other_answers: CompleteAnswers,
    other_run: Seq<CompleteCreatorConnectFlowState>,
)
    requires
        is_complete_run(request, now, grant_connect, answers, run),
        is_complete_run(request, now, grant_connect, other_answers, other_run),
        other_answers == (CompleteAnswers {
            grant: other_answers.grant,
            cookie_first: other_answers.cookie_first,
            ..answers
        }),
        !grant_connect || (answers.loaded is Ok && answers.loaded->Ok_0 is Some ==> answers.loaded
            ->Ok_0->0.grant_authorization_url is None),
    ensures
        run[7]->result is Ok <==> other_run[7]->result is Ok,
        run[7]->result is Ok ==> run[7]->result->Ok_0.creator == other_run[7]->result->Ok_0.creator,
        run[7]->result is Err ==> run[7]->result->Err_0@ == other_run[7]->result->Err_0@,
{
    lemma_complete_run_steps(request, now, grant_connect, answers, run);
    lemma_complete_run_steps(request, now, grant_connect, other_answers, other_run);
    law_complete_answers_with_the_approved_creator(request, now, grant_connect, answers, run);
    law_complete_answers_with_the_approved_creator(
        request,
        now,
        grant_connect,
        other_answers,
        other_run,
    );
}

/// An answer that was not asked for changes nothing, and an answered completion stays answered.
pub proof fn law_complete_ignores_what_it_did_not_ask_for(
    state: CompleteCreatorConnectFlowState,
    event: CompleteCreatorConnectFlowEvent,
    next: CompleteCreatorConnectFlowState,
)
    requires
        complete_step(state, event, next),
        !(state is LoadPendingFlow && event is PendingFlowLoaded),
        !(state is DeleteExpiredFlow && event is PendingFlowDeleted),
        !(state is DeleteCompletedFlow && event is PendingFlowDeleted),
        !(state is AwaitCookieApproval && event is CookieSettled),
        !(state is AwaitEitherApproval && (event is CookieSettled || event is GrantSettled)),
        !(state is AwaitGrantApproval && event is GrantSettled),
        !(state is StoreAuthority && event is AuthorityStored),
        !(state is GenerateCode && event is CodeGenerated),
        !(state is StoreCode && event is CodeStored),
    ensures
        next == state,
{
}

} // verus!
