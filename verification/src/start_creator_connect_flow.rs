//! Starting a creator connect flow.
//!
//! The legacy cookie flow always starts. When grant connect is configured, a grant flow with
//! the same scopes starts beside it, and whichever the signer approves completes the pending
//! flow. The caller performs what the state asks for and reports the answer to
//! [`start_creator_connect_flow`] until the state is `Finished`.

use vstd::prelude::*;

use crate::creator_authority::{
    connect_flow_key_id, CreatorConnectAuthorizationUrl, CreatorConnectFlowId, GrantPopKeyId,
    PendingCreatorConnectFlowRecord,
};
use crate::error::{ApplicationError, ErrorView};
use crate::text::{is_blank, is_blank_text, texts};
use crate::timestamp::{in_calendar, Timestamp, NANOS_PER_SECOND};

verus! {

/// Seconds that a pending flow stays open.
pub const CREATOR_CONNECT_FLOW_TTL_SECONDS: u32 = 300;

/// Request to start a legacy Pubky creator connect flow.
#[derive(Debug, Clone, PartialEq, Eq)]
pub struct StartCreatorConnectFlowRequest {
    /// Frontend return target carried through the connect flow.
    pub return_to: String,
    /// Opaque frontend state that must later match session-code exchange state.
    pub state: String,
}

/// Secret-bearing response for pubky.app to render as QR/deeplink.
#[derive(Clone, PartialEq, Eq)]
pub struct StartCreatorConnectFlowResponse {
    /// Server-generated flow ID.
    pub flow_id: CreatorConnectFlowId,
    /// Pubky auth authorization URL.
    pub authorization_url: CreatorConnectAuthorizationUrl,
    /// `signin_grant` authorization URL for grant-only signers, when grant connect is configured.
    pub grant_authorization_url: Option<CreatorConnectAuthorizationUrl>,
    /// Expiration timestamp for the pending flow.
    pub expires_at: Timestamp,
    /// Echoed opaque frontend state.
    pub state: String,
}

/// The scopes that both flows ask for.
pub open spec fn default_scopes() -> Seq<Seq<char>> {
    seq!["/pub/locks.app/:rw"@, "/priv/locks.app/:rw"@]
}

/// The scopes that both flows ask for.
pub fn default_requested_scopes() -> (scopes: Vec<String>)
    ensures
        texts(scopes@) == default_scopes(),
{
    let mut scopes: Vec<String> = Vec::new();
    scopes.push("/pub/locks.app/:rw".to_owned());
    scopes.push("/priv/locks.app/:rw".to_owned());
    assert(texts(scopes@) =~= default_scopes());
    scopes
}

/// Why a start request is turned away, if it is.
pub open spec fn start_request_refusal(request: StartCreatorConnectFlowRequest) -> Option<
    ErrorView,
> {
    if is_blank(request.return_to@) {
        Some(ErrorView::Storage { message: "creator connect return_to is required"@ })
    } else if is_blank(request.state@) {
        Some(ErrorView::Storage { message: "creator connect state is required"@ })
    } else {
        None
    }
}

/// Turns away a request with a blank return target or a blank state.
pub fn validate_start_request(request: &StartCreatorConnectFlowRequest) -> (verdict: Result<
    (),
    ApplicationError,
>)
    ensures
        match verdict {
            Ok(_) => start_request_refusal(*request) is None,
            Err(error) => start_request_refusal(*request) == Some(error@),
        },
{
    if is_blank_text(request.return_to.as_str()) {
        return Err(
            ApplicationError::Storage {
                message: "creator connect return_to is required".to_owned(),
            },
        );
    }
    if is_blank_text(request.state.as_str()) {
        return Err(
            ApplicationError::Storage { message: "creator connect state is required".to_owned() },
        );
    }
    Ok(())
}

/// What is known of a pending flow before its authorization URLs are.
pub struct PendingFlowDraft {
    /// The request being served.
    pub request: StartCreatorConnectFlowRequest,
    /// Server-generated flow ID.
    pub flow_id: CreatorConnectFlowId,
    /// Scopes that both flows ask for.
    pub requested_scopes: Vec<String>,
    /// Creation timestamp.
    pub created_at: Timestamp,
    /// Expiration timestamp.
    pub expires_at: Timestamp,
}

/// What the caller has to do next.
pub enum StartCreatorConnectFlowState {
    /// Read the clock and draw a flow ID.
    Prepare {
        /// The request being served.
        request: StartCreatorConnectFlowRequest,
        /// Whether grant connect is configured.
        grant_connect: bool,
    },
    /// Start the legacy cookie flow for the drafted scopes.
    StartLegacyFlow {
        /// The flow so far.
        draft: PendingFlowDraft,
        /// Whether grant connect is configured.
        grant_connect: bool,
    },
    /// Start the grant flow for the drafted scopes and this key.
    StartGrantFlow {
        /// The flow so far.
        draft: PendingFlowDraft,
        /// Authorization URL of the legacy cookie flow.
        authorization_url: CreatorConnectAuthorizationUrl,
        /// Key that will sign the grant's proofs.
        pop_key_id: GrantPopKeyId,
    },
    /// Store the pending flow.
    StorePendingFlow {
        /// The record to insert.
        record: PendingCreatorConnectFlowRecord,
    },
    /// Nothing: this is the answer.
    Finished {
        /// The answer.
        result: Result<StartCreatorConnectFlowResponse, ApplicationError>,
    },
}

/// What the caller reports back.
pub enum StartCreatorConnectFlowEvent {
    /// The clock was read and a flow ID drawn.
    Prepared {
        /// The current time.
        now: Timestamp,
        /// The drawn flow ID.
        flow_id: CreatorConnectFlowId,
    },
    /// The legacy cookie flow was started, or could not be.
    LegacyFlowStarted {
        /// Its authorization URL.
        started: Result<CreatorConnectAuthorizationUrl, ApplicationError>,
    },
    /// The grant flow was started, or could not be.
    GrantFlowStarted {
        /// Its authorization URL.
        started: Result<CreatorConnectAuthorizationUrl, ApplicationError>,
    },
    /// The pending flow was stored, or could not be.
    PendingFlowStored {
        /// Whether it was.
        stored: Result<(), ApplicationError>,
    },
}

/// Where serving `request` begins.
pub open spec fn start_begins(
    request: StartCreatorConnectFlowRequest,
    grant_connect: bool,
    state: StartCreatorConnectFlowState,
) -> bool {
    match start_request_refusal(request) {
        Some(refusal) => {
            &&& state matches StartCreatorConnectFlowState::Finished { result: Err(error) }
            &&& error@ == refusal
        },
        None => state == (StartCreatorConnectFlowState::Prepare { request, grant_connect }),
    }
}

/// `draft` is the flow for `request` with this ID, created now and open for the usual time.
pub open spec fn is_draft(
    request: StartCreatorConnectFlowRequest,
    flow_id: CreatorConnectFlowId,
    now: Timestamp,
    draft: PendingFlowDraft,
) -> bool {
    &&& draft.request == request
    &&& draft.flow_id == flow_id
    &&& texts(draft.requested_scopes@) == default_scopes()
    &&& draft.created_at == now
    &&& draft.expires_at@ == now@ + CREATOR_CONNECT_FLOW_TTL_SECONDS * NANOS_PER_SECOND
    &&& draft.expires_at.offset() == now.offset()
}

/// `record` is the drafted flow with these authorization URLs.
pub open spec fn completes_draft(
    draft: PendingFlowDraft,
    authorization_url: CreatorConnectAuthorizationUrl,
    grant_authorization_url: Option<CreatorConnectAuthorizationUrl>,
    record: PendingCreatorConnectFlowRecord,
) -> bool {
    record == (PendingCreatorConnectFlowRecord {
        flow_id: draft.flow_id,
        return_to: draft.request.return_to,
        state: draft.request.state,
        authorization_url,
        grant_authorization_url,
        requested_scopes: draft.requested_scopes,
        created_at: draft.created_at,
        expires_at: draft.expires_at,
    })
}

/// The response that tells of a stored pending flow.
pub open spec fn response_for(
    record: PendingCreatorConnectFlowRecord,
) -> StartCreatorConnectFlowResponse {
    StartCreatorConnectFlowResponse {
        flow_id: record.flow_id,
        authorization_url: record.authorization_url,
        grant_authorization_url: record.grant_authorization_url,
        expires_at: record.expires_at,
        state: record.state,
    }
}

/// What follows `state` when `event` is reported. An event that the state does not wait for
/// changes nothing.
pub open spec fn start_step(
    state: StartCreatorConnectFlowState,
    event: StartCreatorConnectFlowEvent,
    next: StartCreatorConnectFlowState,
) -> bool {
    match (state, event) {
        (
            StartCreatorConnectFlowState::Prepare { request, grant_connect },
            StartCreatorConnectFlowEvent::Prepared { now, flow_id },
        ) => {
            &&& next matches StartCreatorConnectFlowState::StartLegacyFlow {
                draft,
                grant_connect: kept,
            }
            &&& is_draft(request, flow_id, now, draft)
            &&& kept == grant_connect
        },
        (
            StartCreatorConnectFlowState::StartLegacyFlow { draft, grant_connect },
            StartCreatorConnectFlowEvent::LegacyFlowStarted { started },
        ) => match started {
            Err(error) => next == (StartCreatorConnectFlowState::Finished { result: Err(error) }),
            Ok(url) => if grant_connect {
                &&& next matches StartCreatorConnectFlowState::StartGrantFlow {
                    draft: kept,
                    authorization_url,
                    pop_key_id,
                }
                &&& kept == draft
                &&& authorization_url == url
                &&& pop_key_id@ == connect_flow_key_id(draft.flow_id@)
            } else {
                &&& next matches StartCreatorConnectFlowState::StorePendingFlow { record }
                &&& completes_draft(draft, url, None, record)
            },
        },
        (
            StartCreatorConnectFlowState::StartGrantFlow { draft, authorization_url, pop_key_id },
            StartCreatorConnectFlowEvent::GrantFlowStarted { started },
        ) => match started {
            Err(error) => next == (StartCreatorConnectFlowState::Finished { result: Err(error) }),
            Ok(url) => {
                &&& next matches StartCreatorConnectFlowState::StorePendingFlow { record }
                &&& completes_draft(draft, authorization_url, Some(url), record)
            },
        },
        (
            StartCreatorConnectFlowState::StorePendingFlow { record },
            StartCreatorConnectFlowEvent::PendingFlowStored { stored },
        ) => match stored {
            Err(error) => next == (StartCreatorConnectFlowState::Finished { result: Err(error) }),
            Ok(_) => next == (StartCreatorConnectFlowState::Finished {
                result: Ok(response_for(record)),
            }),
        },
        (_, _) => next == state,
    }
}

impl StartCreatorConnectFlowState {
    /// Begins to serve `request`, or turns it away before anything is started.
    pub fn new(request: StartCreatorConnectFlowRequest, grant_connect: bool) -> (state: Self)
        ensures
            start_begins(request, grant_connect, state),
    {
        match validate_start_request(&request) {
            Ok(_) => StartCreatorConnectFlowState::Prepare { request, grant_connect },
            Err(error) => StartCreatorConnectFlowState::Finished { result: Err(error) },
        }
    }
}

/// Starts and persists a pending creator connect flow, one answer at a time.
pub fn start_creator_connect_flow(
    state: StartCreatorConnectFlowState,
    event: StartCreatorConnectFlowEvent,
) -> (next: StartCreatorConnectFlowState)
    requires
        state is Prepare && event is Prepared ==> in_calendar(
            event->now.local() + CREATOR_CONNECT_FLOW_TTL_SECONDS * NANOS_PER_SECOND,
        ),
    ensures
        start_step(state, event, next),
{
    match (state, event) {
        (
            StartCreatorConnectFlowState::Prepare { request, grant_connect },
            StartCreatorConnectFlowEvent::Prepared { now, flow_id },
        ) => StartCreatorConnectFlowState::StartLegacyFlow {
            draft: PendingFlowDraft {
                request,
                flow_id,
                requested_scopes: default_requested_scopes(),
                created_at: now,
                expires_at: now.plus_seconds(CREATOR_CONNECT_FLOW_TTL_SECONDS),
            },
            grant_connect,
        },
        (
            StartCreatorConnectFlowState::StartLegacyFlow { draft, grant_connect },
            StartCreatorConnectFlowEvent::LegacyFlowStarted { started },
        ) => match started {
            Err(error) => StartCreatorConnectFlowState::Finished { result: Err(error) },
            Ok(authorization_url) => if grant_connect {
                let pop_key_id = GrantPopKeyId::for_connect_flow(&draft.flow_id);
                StartCreatorConnectFlowState::StartGrantFlow { draft, authorization_url, pop_key_id }
            } else {
                StartCreatorConnectFlowState::StorePendingFlow {
                    record: pending_flow(draft, authorization_url, None),
                }
            },
        },
        (
            StartCreatorConnectFlowState::StartGrantFlow { draft, authorization_url, .. },
            StartCreatorConnectFlowEvent::GrantFlowStarted { started },
        ) => match started {
            Err(error) => StartCreatorConnectFlowState::Finished { result: Err(error) },
            Ok(grant_authorization_url) => StartCreatorConnectFlowState::StorePendingFlow {
                record: pending_flow(draft, authorization_url, Some(grant_authorization_url)),
            },
        },
        (
            StartCreatorConnectFlowState::StorePendingFlow { record },
            StartCreatorConnectFlowEvent::PendingFlowStored { stored },
        ) => match stored {
            Err(error) => StartCreatorConnectFlowState::Finished { result: Err(error) },
            Ok(_) => StartCreatorConnectFlowState::Finished {
                result: Ok(
                    StartCreatorConnectFlowResponse {
                        flow_id: record.flow_id,
                        authorization_url: record.authorization_url,
                        grant_authorization_url: record.grant_authorization_url,
                        expires_at: record.expires_at,
                        state: record.state,
                    },
                ),
            },
        },
        (state, _) => state,
    }
}

fn pending_flow(
    draft: PendingFlowDraft,
    authorization_url: CreatorConnectAuthorizationUrl,
    grant_authorization_url: Option<CreatorConnectAuthorizationUrl>,
) -> (record: PendingCreatorConnectFlowRecord)
    ensures
        completes_draft(draft, authorization_url, grant_authorization_url, record),
{
    PendingCreatorConnectFlowRecord {
        flow_id: draft.flow_id,
        return_to: draft.request.return_to,
        state: draft.request.state,
        authorization_url,
        grant_authorization_url,
        requested_scopes: draft.requested_scopes,
        created_at: draft.created_at,
        expires_at: draft.expires_at,
    }
}

/// Everything that the outside can answer while one request is served.
pub struct StartAnswers {
    /// The current time.
    pub now: Timestamp,
    /// The drawn flow ID.
    pub flow_id: CreatorConnectFlowId,
    /// How the legacy cookie flow starts.
    pub legacy: Result<CreatorConnectAuthorizationUrl, ApplicationError>,
    /// How the grant flow starts.
    pub grant: Result<CreatorConnectAuthorizationUrl, ApplicationError>,
    /// How storing ends.
    pub stored: Result<(), ApplicationError>,
}

impl StartAnswers {
    /// The answer to what `state` asks for.
    pub open spec fn to(self, state: StartCreatorConnectFlowState) -> StartCreatorConnectFlowEvent {
        match state {
            StartCreatorConnectFlowState::Prepare { .. } =>
                StartCreatorConnectFlowEvent::Prepared { now: self.now, flow_id: self.flow_id },
            StartCreatorConnectFlowState::StartLegacyFlow { .. } =>
                StartCreatorConnectFlowEvent::LegacyFlowStarted { started: self.legacy },
            StartCreatorConnectFlowState::StartGrantFlow { .. } =>
                StartCreatorConnectFlowEvent::GrantFlowStarted { started: self.grant },
            _ => StartCreatorConnectFlowEvent::PendingFlowStored { stored: self.stored },
        }
    }

    /// The states from `run[i]` to `run[i + 1]` follow each other under these answers.
    pub open spec fn drives(self, run: Seq<StartCreatorConnectFlowState>, i: int) -> bool {
        start_step(run[i], self.to(run[i]), run[i + 1])
    }
}

/// A run that serves `request` with these answers, long enough to be over.
pub open spec fn is_start_run(
    request: StartCreatorConnectFlowRequest,
    grant_connect: bool,
    answers: StartAnswers,
    run: Seq<StartCreatorConnectFlowState>,
) -> bool {
    &&& run.len() == 5
    &&& start_begins(request, grant_connect, run[0])
    &&& forall|i: int| 0 <= i < 4 ==> #[trigger] answers.drives(run, i)
}

/// `record` is the pending flow that `request` asks for under these answers.
pub open spec fn is_pending_flow_for(
    request: StartCreatorConnectFlowRequest,
    grant_connect: bool,
    answers: StartAnswers,
    record: PendingCreatorConnectFlowRecord,
) -> bool {
    &&& record.flow_id == answers.flow_id
    &&& record.return_to == request.return_to
    &&& record.state == request.state
    &&& answers.legacy == Ok::<_, ApplicationError>(record.authorization_url)
    &&& match record.grant_authorization_url {
        Some(url) => grant_connect && answers.grant == Ok::<_, ApplicationError>(url),
        None => !grant_connect,
    }
    &&& texts(record.requested_scopes@) == default_scopes()
    &&& record.created_at == answers.now
    &&& record.expires_at@ == answers.now@ + CREATOR_CONNECT_FLOW_TTL_SECONDS * NANOS_PER_SECOND
    &&& record.expires_at.offset() == answers.now.offset()
}

/// Each step of a run, one by one.
proof fn lemma_start_run_steps(
    request: StartCreatorConnectFlowRequest,
    grant_connect: bool,
    answers: StartAnswers,
    run: Seq<StartCreatorConnectFlowState>,
)
    requires
        is_start_run(request, grant_connect, answers, run),
    ensures
        answers.drives(run, 0),
        answers.drives(run, 1),
        answers.drives(run, 2),
        answers.drives(run, 3),
{
}

/// How serving `request` ends, for every answer that the outside can give: a request that is
/// turned away asks the outside for nothing, the first failure is the answer, and success
/// answers with the flow that was stored.
pub proof fn law_start_run_ends(
    request: StartCreatorConnectFlowRequest,
    grant_connect: bool,
    answers: StartAnswers,
    run: Seq<StartCreatorConnectFlowState>,
)
    requires
        is_start_run(request, grant_connect, answers, run),
    ensures
        run[4] matches StartCreatorConnectFlowState::Finished { result } && match result {
            Ok(response) => {
                &&& start_request_refusal(request) is None
                &&& answers.legacy is Ok
                &&& grant_connect ==> answers.grant is Ok
                &&& answers.stored is Ok
                &&& exists|i: int, record: PendingCreatorConnectFlowRecord|
                    #![trigger run[i], response_for(record)]
                    {
                        &&& 0 <= i < 4
                        &&& run[i] == (StartCreatorConnectFlowState::StorePendingFlow { record })
                        &&& is_pending_flow_for(request, grant_connect, answers, record)
                        &&& response == response_for(record)
                    }
            },
            Err(error) => if start_request_refusal(request) is Some {
                &&& start_request_refusal(request) == Some(error@)
                &&& run[0] is Finished
            } else if answers.legacy is Err {
                answers.legacy == Err::<CreatorConnectAuthorizationUrl, _>(error)
            } else if grant_connect && answers.grant is Err {
                answers.grant == Err::<CreatorConnectAuthorizationUrl, _>(error)
            } else {
                answers.stored == Err::<(), _>(error)
            },
        },
{
    lemma_start_run_steps(request, grant_connect, answers, run);
    if run[4]->result is Ok {
        let i: int = if grant_connect { 3 } else { 2 };
        let record = run[i]->record;
        assert(run[i] == (StartCreatorConnectFlowState::StorePendingFlow { record }));
        assert(run[4]->result == Ok::<_, ApplicationError>(response_for(record)));
    }
}

/// Whatever is stored is the flow that was asked for, and it is stored only once every flow
/// that belongs to it has started.
pub proof fn law_start_stores_only_the_asked_flow(
    request: StartCreatorConnectFlowRequest,
    grant_connect: bool,
    answers: StartAnswers,
    run: Seq<StartCreatorConnectFlowState>,
    i: int,
)
    requires
        is_start_run(request, grant_connect, answers, run),
        0 <= i < 5,
        run[i] is StorePendingFlow,
    ensures
        is_pending_flow_for(request, grant_connect, answers, run[i]->record),
        start_request_refusal(request) is None,
{
    lemma_start_run_steps(request, grant_connect, answers, run);
}

/// The grant flow asks for exactly the scopes that the cookie flow asks for, with the key of
/// this very flow, and both are the scopes that are stored.
pub proof fn law_grant_and_cookie_request_identical_scopes(
    request: StartCreatorConnectFlowRequest,
    grant_connect: bool,
    answers: StartAnswers,
    run: Seq<StartCreatorConnectFlowState>,
    i: int,
)
    requires
        is_start_run(request, grant_connect, answers, run),
        0 <= i < 5,
    ensures
        run[i] matches StartCreatorConnectFlowState::StartLegacyFlow { draft, .. } ==> texts(
            draft.requested_scopes@,
        ) == default_scopes(),
        run[i] matches StartCreatorConnectFlowState::StartGrantFlow { draft, pop_key_id, .. } ==> {
            &&& texts(draft.requested_scopes@) == default_scopes()
            &&& pop_key_id@ == connect_flow_key_id(answers.flow_id@)
        },
        run[i] matches StartCreatorConnectFlowState::StorePendingFlow { record } ==> texts(
            record.requested_scopes@,
        ) == default_scopes(),
{
    lemma_start_run_steps(request, grant_connect, answers, run);
}

/// The grant flow is started exactly when grant connect is configured and the cookie flow
/// could be started.
pub proof fn law_grant_flow_starts_iff_configured(
    request: StartCreatorConnectFlowRequest,
    grant_connect: bool,
    answers: StartAnswers,
    run: Seq<StartCreatorConnectFlowState>,
)
    requires
        is_start_run(request, grant_connect, answers, run),
    ensures
        (exists|i: int| 0 <= i < 5 && #[trigger] run[i] is StartGrantFlow) <==> (grant_connect
            && start_request_refusal(request) is None && answers.legacy is Ok),
{
    lemma_start_run_steps(request, grant_connect, answers, run);
    if grant_connect && start_request_refusal(request) is None && answers.legacy is Ok {
        assert(run[2] is StartGrantFlow);
    }
}

/// A start succeeds exactly when neither the return target nor the state is blank, every flow that
/// is configured starts, and storing succeeds. The answer then carries the cookie flow's own URL,
/// the grant flow's own URL exactly when grant connect is configured, the drawn flow ID, the state
/// of the request, and an expiry five minutes after now.
pub proof fn law_start_answers_with_the_started_flows(
    request: StartCreatorConnectFlowRequest,
    grant_connect: bool,
    answers: StartAnswers,
    run: Seq<StartCreatorConnectFlowState>,
)
    requires
        is_start_run(request, grant_connect, answers, run),
    ensures
        run[4] is Finished,
        run[4]->result is Ok <==> {
            &&& !is_blank(request.return_to@)
            &&& !is_blank(request.state@)
            &&& answers.legacy is Ok
            &&& grant_connect ==> answers.grant is Ok
            &&& answers.stored is Ok
        },
        run[4] matches StartCreatorConnectFlowState::Finished { result: Ok(response) } ==> {
            &&& response.flow_id == answers.flow_id
            &&& answers.legacy == Ok::<_, ApplicationError>(response.authorization_url)
            &&& response.grant_authorization_url is Some <==> grant_connect
            &&& grant_connect ==> answers.grant == Ok::<_, ApplicationError>(
                response.grant_authorization_url->0,
            )
            &&& response.state == request.state
            &&& response.expires_at@ == answers.now@ + 300_000_000_000
            &&& response.expires_at.offset() == answers.now.offset()
        },
{
    lemma_start_run_steps(request, grant_connect, answers, run);
}

/// A start that fails tells the first thing that went wrong: a blank return target, then a blank
/// state, then the cookie flow, then the grant flow, then storing.
pub proof fn law_start_tells_the_first_failure(
    request: StartCreatorConnectFlowRequest,
    grant_connect: bool,
    answers: StartAnswers,
    run: Seq<StartCreatorConnectFlowState>,
)
    requires
        is_start_run(request, grant_connect, answers, run),
        run[4] is Finished,
        run[4]->result is Err,
    ensures
        is_blank(request.return_to@) ==> run[4]->result->Err_0@ == (ErrorView::Storage {
            message: "creator connect return_to is required"@,
        }),
        !is_blank(request.return_to@) && is_blank(request.state@) ==> run[4]->result->Err_0@ == (
        ErrorView::Storage { message: "creator connect state is required"@ }),
        is_blank(request.return_to@) || is_blank(request.state@) ==> run[0] == run[4],
        !is_blank(request.return_to@) && !is_blank(request.state@) ==> {
            &&& answers.legacy is Err ==> run[4]->result->Err_0 == answers.legacy->Err_0
            &&& answers.legacy is Ok && grant_connect && answers.grant is Err
                ==> run[4]->result->Err_0 == answers.grant->Err_0
            &&& answers.legacy is Ok && (grant_connect ==> answers.grant is Ok)
                ==> answers.stored is Err && run[4]->result->Err_0 == answers.stored->Err_0
        },
{
    lemma_start_run_steps(request, grant_connect, answers, run);
}

/// The pending flow that is stored holds the request's own target and state, both URLs as they
/// were started, the scopes that were asked for, and the five minutes from now; it is stored
/// exactly when the request is served and every configured flow has started.
pub proof fn law_start_stores_what_was_started(
    request: StartCreatorConnectFlowRequest,
    grant_connect: bool,
    answers: StartAnswers,
    run: Seq<StartCreatorConnectFlowState>,
)
    requires
        is_start_run(request, grant_connect, answers, run),
    ensures
        forall|i: int| 0 <= i < 5 && #[trigger] run[i] is StorePendingFlow ==> {
            let record = run[i]->record;
            &&& record.flow_id == answers.flow_id
            &&& record.return_to == request.return_to
            &&& record.state == request.state
            &&& answers.legacy == Ok::<_, ApplicationError>(record.authorization_url)
            &&& record.grant_authorization_url is Some <==> grant_connect
            &&& grant_connect ==> answers.grant == Ok::<_, ApplicationError>(
                record.grant_authorization_url->0,
            )
            &&& texts(record.requested_scopes@) == seq![
                "/pub/locks.app/:rw"@,
                "/priv/locks.app/:rw"@,
            ]
            &&& record.created_at == answers.now
            &&& record.expires_at@ == answers.now@ + 300_000_000_000
            &&& record.expires_at.offset() == answers.now.offset()
        },
        (exists|i: int| 0 <= i < 5 && #[trigger] run[i] is StorePendingFlow) <==> {
            &&& !is_blank(request.return_to@)
            &&& !is_blank(request.state@)
            &&& answers.legacy is Ok
            &&& grant_connect ==> answers.grant is Ok
        },
{
    lemma_start_run_steps(request, grant_connect, answers, run);
    if !is_blank(request.return_to@) && !is_blank(request.state@) && answers.legacy is Ok && (
    grant_connect ==> answers.grant is Ok) {
        assert(run[2] is StorePendingFlow || run[3] is StorePendingFlow);
    }
}

/// What each flow is started with: the cookie flow comes first, the grant flow only after it and
/// with the key that the flow ID names, and both ask for the same two scopes.
pub proof fn law_start_asks_for_both_flows_alike(
    request: StartCreatorConnectFlowRequest,
    grant_connect: bool,
    answers: StartAnswers,
    run: Seq<StartCreatorConnectFlowState>,
)
    requires
        is_start_run(request, grant_connect, answers, run),
    ensures
        forall|i: int| 0 <= i < 5 && #[trigger] run[i] is StartLegacyFlow ==> {
            &&& i == 1
            &&& texts(run[i]->StartLegacyFlow_draft.requested_scopes@) == seq![
                "/pub/locks.app/:rw"@,
                "/priv/locks.app/:rw"@,
            ]
        },
        forall|i: int| 0 <= i < 5 && #[trigger] run[i] is StartGrantFlow ==> {
            &&& i == 2
            &&& grant_connect
            &&& run[1] is StartLegacyFlow
            &&& answers.legacy is Ok
            &&& texts(run[i]->StartGrantFlow_draft.requested_scopes@) == texts(
                run[1]->StartLegacyFlow_draft.requested_scopes@,
            )
            &&& run[i]->pop_key_id@ == "locks-connect-v1."@ + answers.flow_id@
        },
        run[1] is StartLegacyFlow <==> !is_blank(request.return_to@) && !is_blank(request.state@),
        run[2] is StartGrantFlow <==> run[1] is StartLegacyFlow && answers.legacy is Ok
            && grant_connect,
{
    lemma_start_run_steps(request, grant_connect, answers, run);
}

/// Configuring grant connect adds the grant URL and changes nothing else: a start that succeeds
/// with it and without it, under the same answers, answers alike but for that URL.
pub proof fn law_grant_connect_only_adds_the_grant_url(
    request: StartCreatorConnectFlowRequest,
    answers: StartAnswers,
    with_grant: Seq<StartCreatorConnectFlowState>,
    without_grant: Seq<StartCreatorConnectFlowState>,
)
    requires
        is_start_run(request, true, answers, with_grant),
        is_start_run(request, false, answers, without_grant),
    ensures
        with_grant[4]->result is Ok ==> without_grant[4]->result is Ok,
        with_grant[4]->result is Ok ==> {
            let with = with_grant[4]->result->Ok_0;
            let without = without_grant[4]->result->Ok_0;
            &&& with.flow_id == without.flow_id
            &&& with.authorization_url == without.authorization_url
            &&& with.state == without.state
            &&& with.expires_at@ == without.expires_at@
            &&& with.grant_authorization_url is Some
            &&& without.grant_authorization_url is None
        },
{
    law_start_answers_with_the_started_flows(request, true, answers, with_grant);
    law_start_answers_with_the_started_flows(request, false, answers, without_grant);
}

/// An answer that was not asked for changes nothing, and an answered start stays answered.
pub proof fn law_start_ignores_what_it_did_not_ask_for(
    state: StartCreatorConnectFlowState,
    event: StartCreatorConnectFlowEvent,
    next: StartCreatorConnectFlowState,
)
    requires
        start_step(state, event, next),
        !(state is Prepare && event is Prepared),
        !(state is StartLegacyFlow && event is LegacyFlowStarted),
        !(state is StartGrantFlow && event is GrantFlowStarted),
        !(state is StorePendingFlow && event is PendingFlowStored),
    ensures
        next == state,
{
}

} // verus!
