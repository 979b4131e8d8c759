//! Revalidating a stored creator authority against the creator's homeserver.
//!
//! A legacy cookie record is checked by restoring its session, a grant record by restoring its
//! grant. Only the homeserver's own answer is recorded. The caller performs what the state asks
//! for and reports the answer to [`revalidate_creator_authority`] until the state is `Finished`.

use vstd::prelude::*;

use crate::creator_authority::{
    CreatorAuthorityAuthKind, CreatorAuthorityCheckOutcome, CreatorAuthorityRecord,
    CreatorAuthoritySecret,
};
use crate::error::{ApplicationError, ErrorView};
use crate::keys::CreatorPubky;
use crate::timestamp::Timestamp;

verus! {

/// Secret-free status of a creator authority that was just revalidated.
#[derive(Clone, PartialEq, Eq)]
pub struct CreatorAuthorityStatus {
    /// Creator whose homeserver authority is represented.
    pub creator: CreatorPubky,
    /// Auth mechanism backing the authority.
    pub auth_kind: CreatorAuthorityAuthKind,
    /// Whether the authority may be used.
    pub authorized: bool,
    /// Scopes granted to the Lock Server.
    pub granted_scopes: Vec<String>,
    /// Optional session expiration reported by the underlying auth mechanism.
    pub session_expires_at: Option<Timestamp>,
}

/// Why restoring a session from a homeserver failed.
#[derive(Debug, Clone, Copy, PartialEq, Eq, Structural)]
pub enum HomeserverRestoreFailure {
    /// The homeserver answered with this HTTP status.
    Server {
        /// The HTTP status code.
        status: u16,
    },
    /// The homeserver could not be reached.
    Transport,
    /// The homeserver's address could not be resolved.
    Pkarr,
    /// Anything else: local parsing, auth-token, or build failure.
    Local,
}

/// The homeserver refused the authority: it was revoked, has expired, or is unknown there.
pub open spec fn is_refusal(failure: HomeserverRestoreFailure) -> bool {
    failure matches HomeserverRestoreFailure::Server { status } && (status == 401 || status == 403
        || status == 404 || status == 410)
}

/// Nothing is known about the authority: the homeserver was out of reach, out of time, overloaded
/// or broken.
pub open spec fn is_unknown(failure: HomeserverRestoreFailure) -> bool {
    match failure {
        HomeserverRestoreFailure::Server { status } => status == 408 || status == 429 || 500
            <= status <= 599,
        HomeserverRestoreFailure::Transport | HomeserverRestoreFailure::Pkarr => true,
        HomeserverRestoreFailure::Local => false,
    }
}

/// Maps a restore failure to what it says about the stored authority.
///
/// - 401, 403, 404, or 410 from the homeserver: the authority was refused (revoked, expired, or
///   unknown there), so [`ApplicationError::CreatorAuthorityRefused`].
/// - Transport failure, 408, 429, 5xx, or DHT resolution: nothing is known about the authority,
///   so [`ApplicationError::CreatorAuthorityCheckUnavailable`].
/// - Anything else (local parse, auth-token, or build failure): `local()`, a secret error that
///   callers surface instead of recording.
pub fn classify_homeserver_restore_error(
    failure: &HomeserverRestoreFailure,
    local: impl FnOnce() -> ApplicationError,
) -> (error: ApplicationError)
    requires
        local.requires(()),
    ensures
        if is_refusal(*failure) {
            error@ == ErrorView::CreatorAuthorityRefused
        } else if is_unknown(*failure) {
            error@ == ErrorView::CreatorAuthorityCheckUnavailable
        } else {
            local.ensures((), error)
        },
{
    match *failure {
        HomeserverRestoreFailure::Server { status } => {
            if status == 401 || status == 403 || status == 404 || status == 410 {
                ApplicationError::CreatorAuthorityRefused
            } else if status == 408 || status == 429 || (500 <= status && status <= 599) {
                ApplicationError::CreatorAuthorityCheckUnavailable
            } else {
                local()
            }
        },
        HomeserverRestoreFailure::Transport => ApplicationError::CreatorAuthorityCheckUnavailable,
        HomeserverRestoreFailure::Pkarr => ApplicationError::CreatorAuthorityCheckUnavailable,
        HomeserverRestoreFailure::Local => local(),
    }
}

/// A failure never counts both as a refusal and as saying nothing.
pub proof fn law_refusal_is_not_unknown(failure: HomeserverRestoreFailure)
    ensures
        !(is_refusal(failure) && is_unknown(failure)),
{
}

/// `checked` is what restoring a legacy cookie session says about the stored secret.
pub open spec fn is_cookie_check(
    restored: Result<(), HomeserverRestoreFailure>,
    checked: Result<(), ApplicationError>,
) -> bool {
    match restored {
        Ok(_) => checked is Ok,
        Err(failure) => checked matches Err(error) && error@ == if is_refusal(failure) {
            ErrorView::CreatorAuthorityRefused
        } else if is_unknown(failure) {
            ErrorView::CreatorAuthorityCheckUnavailable
        } else {
            ErrorView::CreatorAuthoritySecret {
                message: "failed to restore legacy creator authority secret"@,
            }
        },
    }
}

/// What restoring a legacy cookie session says about the stored secret: nothing is wrong, or the
/// failure, classified.
pub fn legacy_cookie_check(restored: Result<(), HomeserverRestoreFailure>) -> (checked: Result<
    (),
    ApplicationError,
>)
    ensures
        is_cookie_check(restored, checked),
{
    match restored {
        Ok(_) => Ok(()),
        Err(failure) => {
            let local = || -> (error: ApplicationError)
                ensures
                    error@ == (ErrorView::CreatorAuthoritySecret {
                        message: "failed to restore legacy creator authority secret"@,
                    }),
                {
                    ApplicationError::CreatorAuthoritySecret {
                        message: "failed to restore legacy creator authority secret".to_owned(),
                    }
                };
            Err(classify_homeserver_restore_error(&failure, local))
        },
    }
}

/// Refuses every grant record. Used where the Lock Server grant PoP keys are unavailable.
#[derive(Debug, Clone, Copy, Default)]
pub struct GrantAuthorityUnavailable;

/// `checked` says that no grant record can be used here.
pub open spec fn is_grant_unavailable(checked: Result<(), ApplicationError>) -> bool {
    checked matches Err(error) && error@ == ErrorView::CreatorAuthorityUnavailable
}

impl GrantAuthorityUnavailable {
    /// Answers every check with [`ApplicationError::CreatorAuthorityUnavailable`].
    pub fn revalidate_grant_credential(
        &self,
        _creator: &CreatorPubky,
        _secret: &CreatorAuthoritySecret,
    ) -> (checked: Result<(), ApplicationError>)
        ensures
            is_grant_unavailable(checked),
    {
        Err(ApplicationError::CreatorAuthorityUnavailable)
    }
}

/// Creator authority manager for Pubky creator authority: legacy cookie records and, when a
/// grant revalidator is attached, grant records.
#[derive(Debug)]
pub struct LegacyCookieCreatorAuthorityManager<S, R, G = GrantAuthorityUnavailable> {
    store: S,
    revalidator: R,
    grant_revalidator: G,
}

impl<S, R, G> LegacyCookieCreatorAuthorityManager<S, R, G> {
    /// The creator authority store.
    pub closed spec fn spec_store(self) -> S {
        self.store
    }

    /// The legacy cookie revalidator.
    pub closed spec fn spec_revalidator(self) -> R {
        self.revalidator
    }

    /// The grant revalidator.
    pub closed spec fn spec_grant_revalidator(self) -> G {
        self.grant_revalidator
    }
}

impl<S, R> LegacyCookieCreatorAuthorityManager<S, R> {
    /// Creates a manager from a creator authority store and legacy cookie revalidator. Grant
    /// records are refused until [`Self::with_grant_revalidator`] attaches one.
    pub fn new(store: S, revalidator: R) -> (manager: Self)
        ensures
            manager.spec_store() == store,
            manager.spec_revalidator() == revalidator,
            manager.spec_grant_revalidator() == GrantAuthorityUnavailable,
    {
        LegacyCookieCreatorAuthorityManager {
            store,
            revalidator,
            grant_revalidator: GrantAuthorityUnavailable,
        }
    }
}

impl<S, R, G> LegacyCookieCreatorAuthorityManager<S, R, G> {
    /// Attaches the revalidator used for `Grant` records.
    pub fn with_grant_revalidator<G2>(self, grant_revalidator: G2) -> (manager:
        LegacyCookieCreatorAuthorityManager<S, R, G2>)
        ensures
            manager.spec_store() == self.spec_store(),
            manager.spec_revalidator() == self.spec_revalidator(),
            manager.spec_grant_revalidator() == grant_revalidator,
    {
        LegacyCookieCreatorAuthorityManager {
            store: self.store,
            revalidator: self.revalidator,
            grant_revalidator,
        }
    }

    /// Returns the creator authority store.
    pub fn store(&self) -> (store: &S)
        ensures
            *store == self.spec_store(),
    {
        &self.store
    }

    /// Returns the revalidator.
    pub fn revalidator(&self) -> (revalidator: &R)
        ensures
            *revalidator == self.spec_revalidator(),
    {
        &self.revalidator
    }

    /// Returns the grant revalidator.
    pub fn grant_revalidator(&self) -> (grant_revalidator: &G)
        ensures
            *grant_revalidator == self.spec_grant_revalidator(),
    {
        &self.grant_revalidator
    }
}

/// What the caller has to do next.
pub enum RevalidateCreatorAuthorityState {
    /// Load the stored authority.
    LoadAuthority {
        /// The creator asked about.
        creator: CreatorPubky,
    },
    /// Check the record's secret with the legacy cookie revalidator.
    RevalidateCookie {
        /// The creator asked about.
        creator: CreatorPubky,
        /// The stored authority.
        record: CreatorAuthorityRecord,
    },
    /// Check the record's secret for this creator with the grant revalidator.
    RevalidateGrant {
        /// The creator asked about.
        creator: CreatorPubky,
        /// The stored authority.
        record: CreatorAuthorityRecord,
    },
    /// Record the homeserver's answer, with the current time.
    RecordCheck {
        /// The creator asked about.
        creator: CreatorPubky,
        /// The homeserver's answer.
        outcome: CreatorAuthorityCheckOutcome,
        /// The answer once it is recorded.
        result: Result<CreatorAuthorityStatus, ApplicationError>,
    },
    /// Nothing: this is the answer.
    Finished {
        /// The answer.
        result: Result<CreatorAuthorityStatus, ApplicationError>,
    },
}

/// What the caller reports back.
pub enum RevalidateCreatorAuthorityEvent {
    /// The stored authority was looked up.
    AuthorityLoaded {
        /// What was found.
        loaded: Result<Option<CreatorAuthorityRecord>, ApplicationError>,
    },
    /// The secret was checked.
    SecretChecked {
        /// What the check says.
        checked: Result<(), ApplicationError>,
    },
    /// The homeserver's answer was recorded, or could not be.
    CheckRecorded {
        /// Whether it was.
        recorded: Result<(), ApplicationError>,
    },
}

/// The status of a record that was found valid.
pub open spec fn authorized_status(record: CreatorAuthorityRecord) -> CreatorAuthorityStatus {
    CreatorAuthorityStatus {
        creator: record.creator,
        auth_kind: record.auth_kind,
        authorized: true,
        granted_scopes: record.granted_scopes,
        session_expires_at: record.session_expires_at,
    }
}

fn record_to_authorized_status(record: CreatorAuthorityRecord) -> (status: CreatorAuthorityStatus)
    ensures
        status == authorized_status(record),
{
    CreatorAuthorityStatus {
        creator: record.creator,
        auth_kind: record.auth_kind,
        authorized: true,
        granted_scopes: record.granted_scopes,
        session_expires_at: record.session_expires_at,
    }
}

/// What is recorded of a check: the homeserver's own answer. Transport failures and local secret
/// errors say nothing about the authority, so they leave the stored validity alone.
pub open spec fn recorded_outcome(checked: Result<(), ApplicationError>) -> Option<
    CreatorAuthorityCheckOutcome,
> {
    match checked {
        Ok(_) => Some(CreatorAuthorityCheckOutcome::Honored),
        Err(ApplicationError::CreatorAuthorityRefused) => Some(
            CreatorAuthorityCheckOutcome::Refused,
        ),
        Err(_) => None,
    }
}

/// The answer that a check of `record` leads to.
pub open spec fn checked_result(
    record: CreatorAuthorityRecord,
    checked: Result<(), ApplicationError>,
) -> Result<CreatorAuthorityStatus, ApplicationError> {
    match checked {
        Ok(_) => Ok(authorized_status(record)),
        Err(error) => Err(error),
    }
}

/// What follows a check of `record`.
pub open spec fn after_check(
    creator: CreatorPubky,
    record: CreatorAuthorityRecord,
    checked: Result<(), ApplicationError>,
) -> RevalidateCreatorAuthorityState {
    match recorded_outcome(checked) {
        Some(outcome) => RevalidateCreatorAuthorityState::RecordCheck {
            creator,
            outcome,
            result: checked_result(record, checked),
        },
        None => RevalidateCreatorAuthorityState::Finished {
            result: checked_result(record, checked),
        },
    }
}

/// What follows `state` when `event` is reported. An event that the state does not wait for
/// changes nothing.
pub open spec fn revalidate_step(
    state: RevalidateCreatorAuthorityState,
    event: RevalidateCreatorAuthorityEvent,
) -> RevalidateCreatorAuthorityState {
    match (state, event) {
        (
            RevalidateCreatorAuthorityState::LoadAuthority { creator },
            RevalidateCreatorAuthorityEvent::AuthorityLoaded { loaded },
        ) => match loaded {
            Err(error) => RevalidateCreatorAuthorityState::Finished { result: Err(error) },
            Ok(None) => RevalidateCreatorAuthorityState::Finished {
                result: Err(ApplicationError::CreatorAuthorityUnavailable),
            },
            Ok(Some(record)) => match record.auth_kind {
                CreatorAuthorityAuthKind::LegacyCookie =>
                    RevalidateCreatorAuthorityState::RevalidateCookie { creator, record },
                CreatorAuthorityAuthKind::Grant =>
                    RevalidateCreatorAuthorityState::RevalidateGrant { creator, record },
            },
        },
        (
            RevalidateCreatorAuthorityState::RevalidateCookie { creator, record },
            RevalidateCreatorAuthorityEvent::SecretChecked { checked },
        ) => after_check(creator, record, checked),
        (
            RevalidateCreatorAuthorityState::RevalidateGrant { creator, record },
            RevalidateCreatorAuthorityEvent::SecretChecked { checked },
        ) => after_check(creator, record, checked),
        (
            RevalidateCreatorAuthorityState::RecordCheck { result, .. },
            RevalidateCreatorAuthorityEvent::CheckRecorded { recorded },
        ) => match recorded {
            Err(error) => RevalidateCreatorAuthorityState::Finished { result: Err(error) },
            Ok(_) => RevalidateCreatorAuthorityState::Finished { result },
        },
        (_, _) => state,
    }
}

/// Where revalidating the authority of `creator` begins.
pub open spec fn revalidate_begins(creator: CreatorPubky) -> RevalidateCreatorAuthorityState {
    RevalidateCreatorAuthorityState::LoadAuthority { creator }
}

impl RevalidateCreatorAuthorityState {
    /// Begins to revalidate the authority of `creator`.
    pub fn new(creator: CreatorPubky) -> (state: Self)
        ensures
            state == revalidate_begins(creator),
    {
        RevalidateCreatorAuthorityState::LoadAuthority { creator }
    }
}

/// Decides what a check of `record` leads to.
fn settle_check(
    creator: CreatorPubky,
    record: CreatorAuthorityRecord,
    checked: Result<(), ApplicationError>,
) -> (next: RevalidateCreatorAuthorityState)
    ensures
        next == after_check(creator, record, checked),
{
    match checked {
        Ok(_) => RevalidateCreatorAuthorityState::RecordCheck {
            creator,
            outcome: CreatorAuthorityCheckOutcome::Honored,
            result: Ok(record_to_authorized_status(record)),
        },
        Err(ApplicationError::CreatorAuthorityRefused) =>
            RevalidateCreatorAuthorityState::RecordCheck {
            creator,
            outcome: CreatorAuthorityCheckOutcome::Refused,
            result: Err(ApplicationError::CreatorAuthorityRefused),
        },
        Err(error) => RevalidateCreatorAuthorityState::Finished { result: Err(error) },
    }
}

/// Revalidates a stored creator authority, one answer at a time.
pub fn revalidate_creator_authority(
    state: RevalidateCreatorAuthorityState,
    event: RevalidateCreatorAuthorityEvent,
) -> (next: RevalidateCreatorAuthorityState)
    ensures
        next == revalidate_step(state, event),
{
    match (state, event) {
        (
            RevalidateCreatorAuthorityState::LoadAuthority { creator },
            RevalidateCreatorAuthorityEvent::AuthorityLoaded { loaded },
        ) => match loaded {
            Err(error) => RevalidateCreatorAuthorityState::Finished { result: Err(error) },
            Ok(None) => RevalidateCreatorAuthorityState::Finished {
                result: Err(ApplicationError::CreatorAuthorityUnavailable),
            },
            Ok(Some(record)) => match record.auth_kind {
                CreatorAuthorityAuthKind::LegacyCookie =>
                    RevalidateCreatorAuthorityState::RevalidateCookie { creator, record },
                CreatorAuthorityAuthKind::Grant =>
                    RevalidateCreatorAuthorityState::RevalidateGrant { creator, record },
            },
        },
        (
            RevalidateCreatorAuthorityState::RevalidateCookie { creator, record },
            RevalidateCreatorAuthorityEvent::SecretChecked { checked },
        ) => settle_check(creator, record, checked),
        (
            RevalidateCreatorAuthorityState::RevalidateGrant { creator, record },
            RevalidateCreatorAuthorityEvent::SecretChecked { checked },
        ) => settle_check(creator, record, checked),
        (
            RevalidateCreatorAuthorityState::RecordCheck { result, .. },
            RevalidateCreatorAuthorityEvent::CheckRecorded { recorded },
        ) => match recorded {
            Err(error) => RevalidateCreatorAuthorityState::Finished { result: Err(error) },
            Ok(_) => RevalidateCreatorAuthorityState::Finished { result },
        },
        (state, _) => state,
    }
}

/// Everything that the outside can answer while one authority is revalidated.
pub struct RevalidateAnswers {
    /// What the lookup of the authority finds.
    pub loaded: Result<Option<CreatorAuthorityRecord>, ApplicationError>,
    /// What the check of its secret says.
    pub checked: Result<(), ApplicationError>,
    /// How recording the homeserver's answer ends.
    pub recorded: Result<(), ApplicationError>,
}

impl RevalidateAnswers {
    /// The answer to what `state` asks for.
    pub open spec fn to(
        self,
        state: RevalidateCreatorAuthorityState,
    ) -> RevalidateCreatorAuthorityEvent {
        match state {
            RevalidateCreatorAuthorityState::LoadAuthority { .. } =>
                RevalidateCreatorAuthorityEvent::AuthorityLoaded { loaded: self.loaded },
            RevalidateCreatorAuthorityState::RevalidateCookie { .. } =>
                RevalidateCreatorAuthorityEvent::SecretChecked { checked: self.checked },
            RevalidateCreatorAuthorityState::RevalidateGrant { .. } =>
                RevalidateCreatorAuthorityEvent::SecretChecked { checked: self.checked },
            _ => RevalidateCreatorAuthorityEvent::CheckRecorded { recorded: self.recorded },
        }
    }

    /// The state after `steps` answers, beginning with `creator`.
    pub open spec fn state_after(
        self,
        creator: CreatorPubky,
        steps: nat,
    ) -> RevalidateCreatorAuthorityState
        decreases steps,
    {
        if steps == 0 {
            revalidate_begins(creator)
        } else {
            let before = self.state_after(creator, (steps - 1) as nat);
            revalidate_step(before, self.to(before))
        }
    }
}

/// How revalidating an authority ends, for every answer that the outside can give.
pub open spec fn revalidate_result(answers: RevalidateAnswers) -> Result<
    CreatorAuthorityStatus,
    ApplicationError,
> {
    match answers.loaded {
        Err(error) => Err(error),
        Ok(None) => Err(ApplicationError::CreatorAuthorityUnavailable),
        Ok(Some(record)) => if recorded_outcome(answers.checked) is Some && answers.recorded is Err {
            Err(answers.recorded->Err_0)
        } else {
            checked_result(record, answers.checked)
        },
    }
}

/// Revalidating ends after at most three answers: a missing authority is unavailable, a failed
/// check is the answer, and a valid authority answers with its secret-free status. Failing to
/// record the homeserver's answer takes the place of that answer.
pub proof fn law_revalidate_run_ends(
    creator: CreatorPubky,
    answers: RevalidateAnswers,
    steps: nat,
)
    requires
        steps >= 3,
    ensures
        answers.state_after(creator, steps) == (RevalidateCreatorAuthorityState::Finished {
            result: revalidate_result(answers),
        }),
    decreases steps,
{
    if steps == 3 {
        reveal_with_fuel(RevalidateAnswers::state_after, 4);
    } else {
        law_revalidate_run_ends(creator, answers, (steps - 1) as nat);
    }
}

/// Only the homeserver's own answer is ever recorded, for the creator that was asked about: an
/// honored check as honored, a refused one as refused, and nothing for an authority that is
/// missing or a check that says nothing.
pub proof fn law_only_homeserver_answers_are_recorded(
    creator: CreatorPubky,
    answers: RevalidateAnswers,
    steps: nat,
)
    ensures
        answers.state_after(creator, steps) matches RevalidateCreatorAuthorityState::RecordCheck {
            creator: asked,
            outcome,
            ..
        } ==> {
            &&& steps == 2
            &&& asked == creator
            &&& answers.loaded matches Ok(Some(_))
            &&& recorded_outcome(answers.checked) == Some(outcome)
        },
        steps == 2 && answers.loaded is Ok && answers.loaded->Ok_0 is Some && recorded_outcome(
            answers.checked,
        ) is Some ==> answers.state_after(creator, steps) is RecordCheck,
{
    reveal_with_fuel(RevalidateAnswers::state_after, 4);
    if steps >= 3 {
        law_revalidate_run_ends(creator, answers, steps);
    }
}

/// A secret goes only to the revalidator of its own kind: a cookie secret is never checked as a
/// grant nor a grant as a cookie, and without a stored authority nothing is checked.
pub proof fn law_secret_goes_to_its_own_revalidator(
    creator: CreatorPubky,
    answers: RevalidateAnswers,
    steps: nat,
)
    ensures
        answers.state_after(creator, steps)
            matches RevalidateCreatorAuthorityState::RevalidateCookie { creator: asked, record } ==> {
            &&& steps == 1
            &&& asked == creator
            &&& answers.loaded == Ok::<_, ApplicationError>(Some(record))
            &&& record.auth_kind == CreatorAuthorityAuthKind::LegacyCookie
        },
        answers.state_after(creator, steps)
            matches RevalidateCreatorAuthorityState::RevalidateGrant { creator: asked, record } ==> {
            &&& steps == 1
            &&& asked == creator
            &&& answers.loaded == Ok::<_, ApplicationError>(Some(record))
            &&& record.auth_kind == CreatorAuthorityAuthKind::Grant
        },
{
    reveal_with_fuel(RevalidateAnswers::state_after, 4);
    if steps >= 3 {
        law_revalidate_run_ends(creator, answers, steps);
    }
}

/// The status of an authority does not depend on its secret.
pub proof fn law_status_is_secret_free(left: CreatorAuthorityRecord, right: CreatorAuthorityRecord)
    requires
        left == (CreatorAuthorityRecord { secret: left.secret, ..right }),
    ensures
        authorized_status(left) == authorized_status(right),
{
}

/// Revalidating succeeds exactly when an authority is stored, its secret is honored and that can
/// be recorded. The status then says that the authority may be used, and tells the creator, the
/// kind, the scopes and the expiry of the stored record.
pub proof fn law_honored_authority_is_authorized(
    creator: CreatorPubky,
    answers: RevalidateAnswers,
    steps: nat,
)
    requires
        steps >= 3,
    ensures
        answers.state_after(creator, steps) is Finished,
        answers.state_after(creator, steps)->Finished_result is Ok <==> {
            &&& answers.loaded is Ok && answers.loaded->Ok_0 is Some
            &&& answers.checked is Ok
            &&& answers.recorded is Ok
        },
        answers.state_after(creator, steps)->Finished_result is Ok ==> {
            let status = answers.state_after(creator, steps)->Finished_result->Ok_0;
            let record = answers.loaded->Ok_0->0;
            &&& status.authorized
            &&& status.creator == record.creator
            &&& status.auth_kind == record.auth_kind
            &&& status.granted_scopes == record.granted_scopes
            &&& status.session_expires_at == record.session_expires_at
        },
{
    law_revalidate_run_ends(creator, answers, steps);
}

/// Revalidating fails with the first thing that went wrong: the lookup, a missing authority, the
/// check, or recording what the homeserver said, which takes the place of the check's own answer.
pub proof fn law_revalidate_tells_the_first_failure(
    creator: CreatorPubky,
    answers: RevalidateAnswers,
    steps: nat,
)
    requires
        steps >= 3,
        answers.state_after(creator, steps) is Finished,
        answers.state_after(creator, steps)->Finished_result is Err,
    ensures
        match answers.loaded {
            Err(error) => answers.state_after(creator, steps)->Finished_result->Err_0 == error,
            Ok(None) => answers.state_after(creator, steps)->Finished_result->Err_0
                is CreatorAuthorityUnavailable,
            Ok(Some(_)) => {
                let told = answers.state_after(creator, steps)->Finished_result->Err_0;
                &&& answers.checked is Ok ==> answers.recorded is Err && told
                    == answers.recorded->Err_0
                &&& answers.checked is Err && answers.checked->Err_0 is CreatorAuthorityRefused
                    && answers.recorded is Err ==> told == answers.recorded->Err_0
                &&& answers.checked is Err && answers.checked->Err_0 is CreatorAuthorityRefused
                    && answers.recorded is Ok ==> told is CreatorAuthorityRefused
                &&& answers.checked is Err && !(answers.checked->Err_0 is CreatorAuthorityRefused)
                    ==> told == answers.checked->Err_0
            },
        },
{
    law_revalidate_run_ends(creator, answers, steps);
}

/// An honored check is recorded as honored and a refused one as refused, for the creator that was
/// asked about. Every other failure of a check is recorded as nothing at all.
pub proof fn law_honored_and_refused_checks_are_recorded(
    creator: CreatorPubky,
    answers: RevalidateAnswers,
    steps: nat,
)
    ensures
        answers.state_after(creator, steps) is RecordCheck <==> {
            &&& steps == 2
            &&& answers.loaded is Ok && answers.loaded->Ok_0 is Some
            &&& answers.checked is Ok || answers.checked->Err_0 is CreatorAuthorityRefused
        },
        answers.state_after(creator, steps) is RecordCheck ==> {
            &&& answers.state_after(creator, steps)->RecordCheck_creator == creator
            &&& answers.state_after(creator, steps)->outcome
                == CreatorAuthorityCheckOutcome::Honored <==> answers.checked is Ok
        },
{
    reveal_with_fuel(RevalidateAnswers::state_after, 4);
    if steps >= 3 {
        law_revalidate_run_ends(creator, answers, steps);
    }
}

/// A stored record is checked by the revalidator of its own kind, for the creator that was asked
/// about, and with the record's own secret.
pub proof fn law_record_is_checked_by_its_kind(
    creator: CreatorPubky,
    answers: RevalidateAnswers,
    record: CreatorAuthorityRecord,
)
    requires
        answers.loaded == Ok::<_, ApplicationError>(Some(record)),
    ensures
        answers.state_after(creator, 0) is LoadAuthority,
        answers.state_after(creator, 0)->LoadAuthority_creator == creator,
        record.auth_kind == CreatorAuthorityAuthKind::LegacyCookie <==> answers.state_after(
            creator,
            1,
        ) is RevalidateCookie,
        record.auth_kind == CreatorAuthorityAuthKind::Grant <==> answers.state_after(creator, 1)
            is RevalidateGrant,
        answers.state_after(creator, 1) matches RevalidateCreatorAuthorityState::RevalidateCookie {
            creator: asked,
            record: checked,
        } ==> asked == creator && checked == record,
        answers.state_after(creator, 1) matches RevalidateCreatorAuthorityState::RevalidateGrant {
            creator: asked,
            record: checked,
        } ==> asked == creator && checked == record,
{
    reveal_with_fuel(RevalidateAnswers::state_after, 4);
}

/// An answer that was not asked for changes nothing, and an answered revalidation stays answered.
pub proof fn law_revalidate_ignores_what_it_did_not_ask_for(
    state: RevalidateCreatorAuthorityState,
    event: RevalidateCreatorAuthorityEvent,
)
    requires
        !(state is LoadAuthority && event is AuthorityLoaded),
        !(state is RevalidateCookie && event is SecretChecked),
        !(state is RevalidateGrant && event is SecretChecked),
        !(state is RecordCheck && event is CheckRecorded),
    ensures
        revalidate_step(state, event) == state,
{
}

/// What a failed restore says: the statuses 401, 403, 404 and 410 say that the authority is
/// refused; 408, 429, every status from 500 to 599, and a homeserver that cannot be reached or
/// resolved say nothing; every other status and every local failure is neither.
pub proof fn law_restore_failures_are_told_apart(failure: HomeserverRestoreFailure)
    ensures
        match failure {
            HomeserverRestoreFailure::Server { status } => {
                &&& is_refusal(failure) <==> set![401u16, 403u16, 404u16, 410u16].contains(status)
                &&& is_unknown(failure) <==> set![408u16, 429u16].contains(status) || status / 100
                    == 5
            },
            HomeserverRestoreFailure::Transport => is_unknown(failure) && !is_refusal(failure),
            HomeserverRestoreFailure::Pkarr => is_unknown(failure) && !is_refusal(failure),
            HomeserverRestoreFailure::Local => !is_unknown(failure) && !is_refusal(failure),
        },
{
}

/// A cookie session that is restored passes the check. One that is not fails it: as refused only
/// where the homeserver itself refused, as unavailable where nothing is known, and as a secret
/// error otherwise.
pub proof fn law_cookie_check_follows_the_homeserver(
    restored: Result<(), HomeserverRestoreFailure>,
    checked: Result<(), ApplicationError>,
)
    requires
        is_cookie_check(restored, checked),
    ensures
        checked is Ok <==> restored is Ok,
        checked is Err ==> {
            let status = restored->Err_0->Server_status;
            &&& checked->Err_0 is CreatorAuthorityRefused <==> restored->Err_0 is Server && (status
                == 401 || status == 403 || status == 404 || status == 410)
            &&& checked->Err_0 is CreatorAuthorityCheckUnavailable <==> {
                ||| restored->Err_0 is Transport
                ||| restored->Err_0 is Pkarr
                ||| restored->Err_0 is Server && (status == 408 || status == 429 || 500 <= status
                    < 600)
            }
            &&& {
                ||| checked->Err_0 is CreatorAuthorityRefused
                ||| checked->Err_0 is CreatorAuthorityCheckUnavailable
                ||| checked->Err_0@ == (ErrorView::CreatorAuthoritySecret {
                    message: "failed to restore legacy creator authority secret"@,
                })
            }
        },
{
}

/// Where grant keys are unavailable, a grant record is never honored and never refused: its check
/// is an answer that nothing is recorded of.
pub proof fn law_unavailable_grants_are_neither_honored_nor_refused(
    creator: CreatorPubky,
    answers: RevalidateAnswers,
    steps: nat,
)
    requires
        is_grant_unavailable(answers.checked),
    ensures
        answers.checked is Err && answers.checked->Err_0 is CreatorAuthorityUnavailable,
        !(answers.state_after(creator, steps) is RecordCheck),
{
    law_honored_and_refused_checks_are_recorded(creator, answers, steps);
}

} // verus!
