//! Creator authority status, for the creator's own frontend session and for anyone.
//!
//! The authenticated route runs a real revalidation first and then answers with the same
//! stored-validity rule as the public route, so the two cannot disagree. The caller performs what
//! the state asks for and reports the answer to [`get_creator_authority_status`] until the state
//! is `Finished`.

use vstd::prelude::*;

use crate::creator_authority::{
    is_usable, CreatorAuthorityAuthKind, CreatorAuthorityCheckOutcome, CreatorAuthorityValidity,
};
use crate::error::{ApplicationError, ErrorView};
use crate::frontend_session::{FrontendSessionRecord, FrontendSessionToken};
use crate::keys::CreatorPubky;
use crate::legacy_creator_authority::CreatorAuthorityStatus;
use crate::timestamp::Timestamp;

verus! {

/// Request for secret-free creator authority status from authenticated frontend context.
#[derive(Clone, PartialEq, Eq)]
pub struct GetCreatorAuthorityStatusRequest {
    /// Raw frontend session bearer token supplied by pubky.app/browser code.
    pub session_token: FrontendSessionToken,
}

/// Secret-free view of creator-granted homeserver authority for creator UI/status.
#[derive(Clone, PartialEq, Eq)]
pub struct CreatorAuthorityStatusView {
    /// Creator identity derived from the Locks-local frontend session.
    pub creator: CreatorPubky,
    /// Whether this Lock Server currently has stored creator authority.
    pub authorized: bool,
    /// Auth mechanism backing the stored authority, when present.
    pub auth_kind: Option<CreatorAuthorityAuthKind>,
    /// Scopes granted to the Lock Server, when authority is present.
    pub granted_scopes: Vec<String>,
    /// Optional session expiration reported by the underlying auth mechanism.
    pub session_expires_at: Option<Timestamp>,
}

/// Creator-keyed status that carries no session, auth kind, scopes, or expiry.
///
/// Callers learn only whether this Lock Server holds usable creator authority for `creator`, so a
/// seller UI can show the connection after its frontend session has expired or its browser
/// storage was cleared, without asking the creator to approve again.
#[derive(Debug, Clone, PartialEq, Eq)]
pub struct PublicCreatorAuthorityStatusView {
    /// Creator identity from the request path, in canonical form.
    pub creator: CreatorPubky,
    /// [`CreatorAuthorityValidity::is_usable_at`] for the stored authority.
    pub authorized: bool,
}

/// A stored authority is there and may be used at `now`.
pub open spec fn is_authorized(validity: Option<CreatorAuthorityValidity>, now: Timestamp) -> bool {
    validity matches Some(validity) && is_usable(
        validity.refused_at,
        validity.session_expires_at,
        now,
    )
}

/// `view` tells the creator what `validity` holds at `now`: everything but the secret where the
/// authority may be used, and nothing else where it may not.
pub open spec fn is_status_view(
    creator: CreatorPubky,
    validity: Option<CreatorAuthorityValidity>,
    now: Timestamp,
    view: CreatorAuthorityStatusView,
) -> bool {
    &&& view.creator == creator
    &&& view.authorized == is_authorized(validity, now)
    &&& if is_authorized(validity, now) {
        &&& view.auth_kind == Some(validity->0.auth_kind)
        &&& view.granted_scopes == validity->0.granted_scopes
        &&& view.session_expires_at == validity->0.session_expires_at
    } else {
        &&& view.auth_kind is None
        &&& view.granted_scopes@.len() == 0
        &&& view.session_expires_at is None
    }
}

/// What the caller has to do next.
pub enum GetCreatorAuthorityStatusState {
    /// Look the frontend session up.
    LoadSession {
        /// The bearer token of the session.
        session_token: FrontendSessionToken,
        /// The current time.
        now: Timestamp,
    },
    /// Run a real revalidation of the creator's authority.
    Revalidate {
        /// The session's creator.
        creator: CreatorPubky,
        /// The current time.
        now: Timestamp,
    },
    /// Load the stored validity of the creator's authority.
    LoadValidity {
        /// The session's creator.
        creator: CreatorPubky,
        /// The current time.
        now: Timestamp,
    },
    /// Nothing: this is the answer.
    Finished {
        /// The answer.
        result: Result<CreatorAuthorityStatusView, ApplicationError>,
    },
}

/// What the caller reports back.
pub enum GetCreatorAuthorityStatusEvent {
    /// The frontend session was looked up.
    SessionLoaded {
        /// What was found.
        loaded: Result<Option<FrontendSessionRecord>, ApplicationError>,
    },
    /// The revalidation is over.
    Revalidated {
        /// What it answered.
        result: Result<CreatorAuthorityStatus, ApplicationError>,
    },
    /// The stored validity was looked up.
    ValidityLoaded {
        /// What was found.
        loaded: Result<Option<CreatorAuthorityValidity>, ApplicationError>,
    },
}

/// The stored validity decides after this revalidation: it succeeded, or it found no authority, a
/// refused one, or no homeserver to ask.
pub open spec fn leaves_stored_answer(
    revalidated: Result<CreatorAuthorityStatus, ApplicationError>,
) -> bool {
    match revalidated {
        Ok(_) => true,
        Err(ApplicationError::CreatorAuthorityUnavailable) => true,
        Err(ApplicationError::CreatorAuthorityRefused) => true,
        Err(ApplicationError::CreatorAuthorityCheckUnavailable) => true,
        Err(_) => false,
    }
}

/// The answer is `error`.
pub open spec fn status_fails_with(
    state: GetCreatorAuthorityStatusState,
    error: ErrorView,
) -> bool {
    &&& state matches GetCreatorAuthorityStatusState::Finished { result: Err(found) }
    &&& found@ == error
}

/// What follows `state` when `event` is reported. An event that the state does not wait for
/// changes nothing.
pub open spec fn status_step(
    state: GetCreatorAuthorityStatusState,
    event: GetCreatorAuthorityStatusEvent,
    next: GetCreatorAuthorityStatusState,
) -> bool {
    match (state, event) {
        (
            GetCreatorAuthorityStatusState::LoadSession { now, .. },
            GetCreatorAuthorityStatusEvent::SessionLoaded { loaded },
        ) => match loaded {
            Err(error) => next == (GetCreatorAuthorityStatusState::Finished { result: Err(error) }),
            Ok(None) => status_fails_with(next, ErrorView::FrontendSessionUnavailable),
            Ok(Some(session)) => if now@ >= session.expires_at@ {
                status_fails_with(next, ErrorView::FrontendSessionExpired)
            } else {
                next == (GetCreatorAuthorityStatusState::Revalidate {
                    creator: session.creator,
                    now,
                })
            },
        },
        (
            GetCreatorAuthorityStatusState::Revalidate { creator, now },
            GetCreatorAuthorityStatusEvent::Revalidated { result },
        ) => if leaves_stored_answer(result) {
            next == (GetCreatorAuthorityStatusState::LoadValidity { creator, now })
        } else {
            next == (GetCreatorAuthorityStatusState::Finished { result: Err(result->Err_0) })
        },
        (
            GetCreatorAuthorityStatusState::LoadValidity { creator, now },
            GetCreatorAuthorityStatusEvent::ValidityLoaded { loaded },
        ) => match loaded {
            Err(error) => next == (GetCreatorAuthorityStatusState::Finished { result: Err(error) }),
            Ok(validity) => {
                &&& next matches GetCreatorAuthorityStatusState::Finished { result: Ok(view) }
                &&& is_status_view(creator, validity, now, view)
            },
        },
        (_, _) => next == state,
    }
}

/// Where serving `request` begins.
pub open spec fn status_begins(
    request: GetCreatorAuthorityStatusRequest,
    now: Timestamp,
    state: GetCreatorAuthorityStatusState,
) -> bool {
    state == (GetCreatorAuthorityStatusState::LoadSession {
        session_token: request.session_token,
        now,
    })
}

impl GetCreatorAuthorityStatusState {
    /// Begins to serve `request`, at the current time.
    pub fn new(request: GetCreatorAuthorityStatusRequest, now: Timestamp) -> (state: Self)
        ensures
            status_begins(request, now, state),
    {
        GetCreatorAuthorityStatusState::LoadSession { session_token: request.session_token, now }
    }
}

/// What the creator is told of the stored validity.
fn status_view(
    creator: CreatorPubky,
    validity: Option<CreatorAuthorityValidity>,
    now: Timestamp,
) -> (view: CreatorAuthorityStatusView)
    ensures
        is_status_view(creator, validity, now, view),
{
    if let Some(validity) = validity {
        if validity.is_usable_at(now) {
            return CreatorAuthorityStatusView {
                creator,
                authorized: true,
                auth_kind: Some(validity.auth_kind),
                granted_scopes: validity.granted_scopes,
                session_expires_at: validity.session_expires_at,
            };
        }
    }
    CreatorAuthorityStatusView {
        creator,
        authorized: false,
        auth_kind: None,
        granted_scopes: Vec::new(),
        session_expires_at: None,
    }
}

/// Returns secret-free creator authority status for an authenticated frontend session, one answer
/// at a time.
///
/// The caller holds the creator's own frontend-session bearer, so this route runs a real
/// revalidation first; the manager records the homeserver's answer. It then answers with the same
/// stored-validity rule as [`get_public_creator_authority_status`], so the two routes cannot
/// disagree. An unreachable homeserver leaves the stored answer in place; a local secret failure
/// (for example a wrong encryption key) is an error, never `false`.
pub fn get_creator_authority_status(
    state: GetCreatorAuthorityStatusState,
    event: GetCreatorAuthorityStatusEvent,
) -> (next: GetCreatorAuthorityStatusState)
    ensures
        status_step(state, event, next),
{
    match (state, event) {
        (
            GetCreatorAuthorityStatusState::LoadSession { now, .. },
            GetCreatorAuthorityStatusEvent::SessionLoaded { loaded },
        ) => match loaded {
            Err(error) => GetCreatorAuthorityStatusState::Finished { result: Err(error) },
            Ok(None) => GetCreatorAuthorityStatusState::Finished {
                result: Err(ApplicationError::FrontendSessionUnavailable),
            },
            Ok(Some(session)) => if session.is_expired_at(now) {
                GetCreatorAuthorityStatusState::Finished {
                    result: Err(ApplicationError::FrontendSessionExpired),
                }
            } else {
                GetCreatorAuthorityStatusState::Revalidate { creator: session.creator, now }
            },
        },
        (
            GetCreatorAuthorityStatusState::Revalidate { creator, now },
            GetCreatorAuthorityStatusEvent::Revalidated { result },
        ) => match result {
            Ok(_)
            | Err(ApplicationError::CreatorAuthorityUnavailable)
            | Err(ApplicationError::CreatorAuthorityRefused)
            | Err(ApplicationError::CreatorAuthorityCheckUnavailable) =>
                GetCreatorAuthorityStatusState::LoadValidity { creator, now },
            Err(error) => GetCreatorAuthorityStatusState::Finished { result: Err(error) },
        },
        (
            GetCreatorAuthorityStatusState::LoadValidity { creator, now },
            GetCreatorAuthorityStatusEvent::ValidityLoaded { loaded },
        ) => match loaded {
            Err(error) => GetCreatorAuthorityStatusState::Finished { result: Err(error) },
            Ok(validity) => GetCreatorAuthorityStatusState::Finished {
                result: Ok(status_view(creator, validity, now)),
            },
        },
        (state, _) => state,
    }
}

/// What anyone is told once the stored validity was looked up.
pub open spec fn public_status(
    creator: CreatorPubky,
    now: Timestamp,
    loaded: Result<Option<CreatorAuthorityValidity>, ApplicationError>,
) -> Result<PublicCreatorAuthorityStatusView, ApplicationError> {
    match loaded {
        Err(error) => Err(error),
        Ok(validity) => Ok(
            PublicCreatorAuthorityStatusView { creator, authorized: is_authorized(validity, now) },
        ),
    }
}

/// Returns whether this Lock Server holds usable creator authority, without a frontend session.
///
/// Anonymous callers get an answer from locally stored validity only, the same for present and
/// absent rows. It never loads or decrypts the secret and never contacts a homeserver. The stored
/// validity, `loaded`, is refreshed by every real revalidation, which records the homeserver's
/// refusal or acceptance.
pub fn get_public_creator_authority_status(
    creator: CreatorPubky,
    now: Timestamp,
    loaded: Result<Option<CreatorAuthorityValidity>, ApplicationError>,
) -> (status: Result<PublicCreatorAuthorityStatusView, ApplicationError>)
    ensures
        status == public_status(creator, now, loaded),
{
    let authorized = match loaded {
        Err(error) => {
            return Err(error);
        },
        Ok(Some(validity)) => validity.is_usable_at(now),
        Ok(None) => false,
    };
    Ok(PublicCreatorAuthorityStatusView { creator, authorized })
}

/// Everything that the outside can answer while one authenticated status is served.
pub struct StatusAnswers {
    /// What the lookup of the session finds.
    pub session: Result<Option<FrontendSessionRecord>, ApplicationError>,
    /// What the revalidation answers.
    pub revalidated: Result<CreatorAuthorityStatus, ApplicationError>,
    /// What the lookup of the stored validity, after the revalidation, finds.
    pub validity: Result<Option<CreatorAuthorityValidity>, ApplicationError>,
}

impl StatusAnswers {
    /// The answer to what `state` asks for.
    pub open spec fn to(
        self,
        state: GetCreatorAuthorityStatusState,
    ) -> GetCreatorAuthorityStatusEvent {
        match state {
            GetCreatorAuthorityStatusState::LoadSession { .. } =>
                GetCreatorAuthorityStatusEvent::SessionLoaded { loaded: self.session },
            GetCreatorAuthorityStatusState::Revalidate { .. } =>
                GetCreatorAuthorityStatusEvent::Revalidated { result: self.revalidated },
            _ => GetCreatorAuthorityStatusEvent::ValidityLoaded { loaded: self.validity },
        }
    }

    /// The state `run[i + 1]` follows `run[i]` under these answers.
    pub open spec fn drives(self, run: Seq<GetCreatorAuthorityStatusState>, i: int) -> bool {
        status_step(run[i], self.to(run[i]), run[i + 1])
    }
}

/// A run that serves `request` with these answers, long enough to be over.
pub open spec fn is_status_run(
    request: GetCreatorAuthorityStatusRequest,
    now: Timestamp,
    answers: StatusAnswers,
    run: Seq<GetCreatorAuthorityStatusState>,
) -> bool {
    &&& run.len() == 4
    &&& status_begins(request, now, run[0])
    &&& forall|i: int| 0 <= i < 3 ==> #[trigger] answers.drives(run, i)
}

/// How the authenticated status ends, for every answer that the outside can give: without a live
/// session nothing is revalidated and no validity is read, and otherwise the first failure that
/// counts is the answer.
pub proof fn law_status_run_ends(
    request: GetCreatorAuthorityStatusRequest,
    now: Timestamp,
    answers: StatusAnswers,
    run: Seq<GetCreatorAuthorityStatusState>,
)
    requires
        is_status_run(request, now, answers, run),
    ensures
        run[3] matches GetCreatorAuthorityStatusState::Finished { result } && match answers.session {
            Err(error) => {
                &&& run[1] is Finished
                &&& result == Err::<CreatorAuthorityStatusView, _>(error)
            },
            Ok(None) => {
                &&& run[1] is Finished
                &&& result matches Err(error)
                &&& error@ == ErrorView::FrontendSessionUnavailable
            },
            Ok(Some(session)) => if now@ >= session.expires_at@ {
                &&& run[1] is Finished
                &&& result matches Err(error)
                &&& error@ == ErrorView::FrontendSessionExpired
            } else if !leaves_stored_answer(answers.revalidated) {
                &&& run[2] is Finished
                &&& result == Err::<CreatorAuthorityStatusView, _>(answers.revalidated->Err_0)
            } else if answers.validity is Err {
                result == Err::<CreatorAuthorityStatusView, _>(answers.validity->Err_0)
            } else {
                &&& result matches Ok(view)
                &&& is_status_view(session.creator, answers.validity->Ok_0, now, view)
            },
        },
{
    assert(answers.drives(run, 0) && answers.drives(run, 1) && answers.drives(run, 2));
}

/// The two routes cannot disagree: whenever the authenticated route answers, the public route
/// answers the same of the same stored validity, for the same creator and time.
pub proof fn law_status_routes_agree(
    request: GetCreatorAuthorityStatusRequest,
    now: Timestamp,
    answers: StatusAnswers,
    run: Seq<GetCreatorAuthorityStatusState>,
)
    requires
        is_status_run(request, now, answers, run),
    ensures
        run[3] matches GetCreatorAuthorityStatusState::Finished { result: Ok(view) } ==> {
            &&& public_status(view.creator, now, answers.validity) matches Ok(public)
            &&& public.creator == view.creator
            &&& public.authorized == view.authorized
        },
{
    law_status_run_ends(request, now, answers, run);
}

/// An unreachable homeserver, a refusal or a missing authority changes nothing by itself: the
/// answer is the one that the stored validity gives, whichever of these the revalidation
/// answered.
pub proof fn law_stored_answer_stays(
    request: GetCreatorAuthorityStatusRequest,
    now: Timestamp,
    answers: StatusAnswers,
    run: Seq<GetCreatorAuthorityStatusState>,
    other_answers: StatusAnswers,
    other_run: Seq<GetCreatorAuthorityStatusState>,
)
    requires
        is_status_run(request, now, answers, run),
        is_status_run(request, now, other_answers, other_run),
        leaves_stored_answer(answers.revalidated),
        other_answers == (StatusAnswers { revalidated: other_answers.revalidated, ..answers }),
        leaves_stored_answer(other_answers.revalidated),
    ensures
        match (run[3]->result, other_run[3]->result) {
            (Ok(view), Ok(other)) => {
                &&& view.creator == other.creator
                &&& view.authorized == other.authorized
                &&& view.auth_kind == other.auth_kind
                &&& view.granted_scopes@ == other.granted_scopes@
                &&& view.session_expires_at == other.session_expires_at
            },
            (Err(error), Err(other)) => error@ == other@,
            _ => false,
        },
{
    law_status_run_ends(request, now, answers, run);
    law_status_run_ends(request, now, other_answers, other_run);
}

/// A local secret failure is an error, never an answer of `false`.
pub proof fn law_secret_failure_is_an_error(
    request: GetCreatorAuthorityStatusRequest,
    now: Timestamp,
    answers: StatusAnswers,
    run: Seq<GetCreatorAuthorityStatusState>,
)
    requires
        is_status_run(request, now, answers, run),
        answers.revalidated is Err,
        answers.revalidated->Err_0 is CreatorAuthoritySecret,
    ensures
        run[3]->result is Err,
{
    law_status_run_ends(request, now, answers, run);
}

/// Neither route calls an authority usable that was refused or whose expiry has come.
pub proof fn law_refused_or_expired_is_not_authorized(
    validity: CreatorAuthorityValidity,
    now: Timestamp,
)
    ensures
        validity.refused_at is Some ==> !is_authorized(Some(validity), now),
        validity.session_expires_at matches Some(expires_at) && expires_at@ <= now@
            ==> !is_authorized(Some(validity), now),
{
}

/// The stored validity once the outcome of a check was recorded: a refusal stands until a later
/// check succeeds.
pub open spec fn validity_after_check(
    validity: CreatorAuthorityValidity,
    outcome: CreatorAuthorityCheckOutcome,
    checked_at: Timestamp,
) -> CreatorAuthorityValidity {
    match outcome {
        CreatorAuthorityCheckOutcome::Honored => CreatorAuthorityValidity {
            last_revalidated_at: Some(checked_at),
            refused_at: None,
            ..validity
        },
        CreatorAuthorityCheckOutcome::Refused => CreatorAuthorityValidity {
            refused_at: Some(checked_at),
            ..validity
        },
    }
}

/// A recorded refusal makes the authority unusable for both routes, whatever came before. A
/// recorded success makes it usable again for as long as its expiry has not come.
pub proof fn law_recorded_check_decides(
    validity: CreatorAuthorityValidity,
    checked_at: Timestamp,
    now: Timestamp,
)
    ensures
        !is_authorized(
            Some(validity_after_check(validity, CreatorAuthorityCheckOutcome::Refused, checked_at)),
            now,
        ),
        is_authorized(
            Some(validity_after_check(validity, CreatorAuthorityCheckOutcome::Honored, checked_at)),
            now,
        ) <==> (validity.session_expires_at matches Some(expires_at) ==> expires_at@ > now@),
{
}

/// A creator who is told of an authority is told what is stored of it: its own kind, scopes and
/// expiry. One who is told that there is none is told nothing else.
pub proof fn law_status_tells_what_is_stored(
    request: GetCreatorAuthorityStatusRequest,
    now: Timestamp,
    answers: StatusAnswers,
    run: Seq<GetCreatorAuthorityStatusState>,
)
    requires
        is_status_run(request, now, answers, run),
        run[3] is Finished,
        run[3]->result is Ok,
    ensures
        answers.session is Ok && answers.session->Ok_0 is Some,
        run[3]->result->Ok_0.creator == answers.session->Ok_0->0.creator,
        answers.validity is Ok,
        run[3]->result->Ok_0.authorized <==> {
            &&& answers.validity->Ok_0 is Some
            &&& answers.validity->Ok_0->0.refused_at is None
            &&& {
                ||| answers.validity->Ok_0->0.session_expires_at is None
                ||| now@ < answers.validity->Ok_0->0.session_expires_at->0@
            }
        },
        run[3]->result->Ok_0.authorized ==> {
            let view = run[3]->result->Ok_0;
            let validity = answers.validity->Ok_0->0;
            &&& view.auth_kind == Some(validity.auth_kind)
            &&& view.granted_scopes == validity.granted_scopes
            &&& view.session_expires_at == validity.session_expires_at
        },
        !run[3]->result->Ok_0.authorized ==> {
            let view = run[3]->result->Ok_0;
            &&& view.auth_kind is None
            &&& view.granted_scopes@.len() == 0
            &&& view.session_expires_at is None
        },
{
    law_status_run_ends(request, now, answers, run);
}

/// A status is answered exactly for a live session whose revalidation succeeds, finds no
/// authority, finds a refused one or reaches no homeserver, where the stored validity can then be
/// read. Anything else is an error, and it is the first one that came.
pub proof fn law_status_is_answered_for_live_sessions(
    request: GetCreatorAuthorityStatusRequest,
    now: Timestamp,
    answers: StatusAnswers,
    run: Seq<GetCreatorAuthorityStatusState>,
)
    requires
        is_status_run(request, now, answers, run),
    ensures
        run[3] is Finished,
        run[3]->result is Ok <==> {
            &&& answers.session is Ok && answers.session->Ok_0 is Some
            &&& now@ < answers.session->Ok_0->0.expires_at@
            &&& {
                ||| answers.revalidated is Ok
                ||| answers.revalidated->Err_0 is CreatorAuthorityUnavailable
                ||| answers.revalidated->Err_0 is CreatorAuthorityRefused
                ||| answers.revalidated->Err_0 is CreatorAuthorityCheckUnavailable
            }
            &&& answers.validity is Ok
        },
        run[3]->result is Err ==> match answers.session {
            Err(error) => run[3]->result->Err_0 == error,
            Ok(None) => run[3]->result->Err_0 is FrontendSessionUnavailable,
            Ok(Some(session)) => {
                &&& now@ >= session.expires_at@ ==> run[3]->result->Err_0 is FrontendSessionExpired
                &&& now@ < session.expires_at@ && answers.revalidated is Err && !(
                answers.revalidated->Err_0 is CreatorAuthorityUnavailable) && !(
                answers.revalidated->Err_0 is CreatorAuthorityRefused) && !(answers.revalidated
                    ->Err_0 is CreatorAuthorityCheckUnavailable) ==> run[3]->result->Err_0
                    == answers.revalidated->Err_0
                &&& now@ < session.expires_at@ && (answers.revalidated is Ok || answers.revalidated
                    ->Err_0 is CreatorAuthorityUnavailable || answers.revalidated->Err_0
                    is CreatorAuthorityRefused || answers.revalidated->Err_0
                    is CreatorAuthorityCheckUnavailable) ==> answers.validity is Err
                    && run[3]->result->Err_0 == answers.validity->Err_0
            },
        },
{
    law_status_run_ends(request, now, answers, run);
}

/// The session is looked up by the request's own token; only a live session is revalidated, for
/// its own creator, and the stored validity is read for that creator after the revalidation.
pub proof fn law_status_asks_for_the_creator_of_the_session(
    request: GetCreatorAuthorityStatusRequest,
    now: Timestamp,
    answers: StatusAnswers,
    run: Seq<GetCreatorAuthorityStatusState>,
)
    requires
        is_status_run(request, now, answers, run),
    ensures
        run[0] matches GetCreatorAuthorityStatusState::LoadSession { session_token, .. }
            && session_token == request.session_token,
        forall|i: int| 0 <= i < 4 && #[trigger] run[i] is Revalidate ==> {
            &&& i == 1
            &&& run[i]->Revalidate_creator == answers.session->Ok_0->0.creator
        },
        forall|i: int| 0 <= i < 4 && #[trigger] run[i] is LoadValidity ==> {
            &&& i == 2
            &&& run[1] is Revalidate
            &&& run[i]->LoadValidity_creator == answers.session->Ok_0->0.creator
        },
        run[1] is Revalidate <==> answers.session is Ok && answers.session->Ok_0 is Some && now@
            < answers.session->Ok_0->0.expires_at@,
{
    assert(answers.drives(run, 0) && answers.drives(run, 1) && answers.drives(run, 2));
}

/// Anyone is told exactly whether a stored authority is there, was not refused, and has not
/// expired, for the creator that was asked about; a failed lookup is an error, never `false`.
pub proof fn law_public_status_tells_whether_usable(
    creator: CreatorPubky,
    now: Timestamp,
    loaded: Result<Option<CreatorAuthorityValidity>, ApplicationError>,
)
    ensures
        match loaded {
            Err(error) => public_status(creator, now, loaded) == Err::<
                PublicCreatorAuthorityStatusView,
                _,
            >(error),
            Ok(None) => public_status(creator, now, loaded) matches Ok(status) && status.creator
                == creator && !status.authorized,
            Ok(Some(validity)) => {
                &&& public_status(creator, now, loaded) matches Ok(status)
                &&& status.creator == creator
                &&& validity.refused_at is Some ==> !status.authorized
                &&& validity.refused_at is None && validity.session_expires_at is None
                    ==> status.authorized
                &&& validity.refused_at is None && validity.session_expires_at is Some ==> (
                status.authorized <==> now@ < validity.session_expires_at->0@)
            },
        },
{
}

/// An answer that was not asked for changes nothing, and an answered status stays answered.
pub proof fn law_status_ignores_what_it_did_not_ask_for(
    state: GetCreatorAuthorityStatusState,
    event: GetCreatorAuthorityStatusEvent,
    next: GetCreatorAuthorityStatusState,
)
    requires
        status_step(state, event, next),
        !(state is LoadSession && event is SessionLoaded),
        !(state is Revalidate && event is Revalidated),
        !(state is LoadValidity && event is ValidityLoaded),
    ensures
        next == state,
{
}

} // verus!
