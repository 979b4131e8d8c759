//! Revalidating creator authority and telling its status, driven against stand-ins for the
//! outside.

use creator_authority::creator_authority::{
    CreatorAuthorityAuthKind, CreatorAuthorityCheckOutcome, CreatorAuthorityRecord,
    CreatorAuthoritySecret, CreatorAuthorityValidity,
};
use creator_authority::error::ApplicationError;
use creator_authority::frontend_session::{FrontendSessionRecord, FrontendSessionToken};
use creator_authority::get_creator_authority_status::{
    get_creator_authority_status, get_public_creator_authority_status, CreatorAuthorityStatusView,
    GetCreatorAuthorityStatusEvent, GetCreatorAuthorityStatusRequest,
    GetCreatorAuthorityStatusState, PublicCreatorAuthorityStatusView,
};
use creator_authority::keys::CreatorPubky;
use creator_authority::legacy_creator_authority::{
    classify_homeserver_restore_error, legacy_cookie_check, revalidate_creator_authority,
    CreatorAuthorityStatus, GrantAuthorityUnavailable, HomeserverRestoreFailure,
    LegacyCookieCreatorAuthorityManager, RevalidateCreatorAuthorityEvent,
    RevalidateCreatorAuthorityState,
};
use creator_authority::timestamp::Timestamp;
use pubky::StatusCode;

const HOUR: u32 = 60 * 60;
const DAY: u32 = 24 * HOUR;

fn at(second: i64) -> Timestamp {
    Timestamp::from_unix_timestamp(second).unwrap()
}

fn now() -> Timestamp {
    at(1_700_000_000)
}

fn creator() -> CreatorPubky {
    CreatorPubky::parse("pubkytkrq8zmwb8a3m9k15csu3q17qmfgqnp9dskbrg9uq1rydpyxp7qy").unwrap()
}

fn scopes() -> Vec<String> {
    vec![
        "/pub/locks.app/:rw".to_owned(),
        "/priv/locks.app/:rw".to_owned(),
    ]
}

fn cookie_record() -> CreatorAuthorityRecord {
    CreatorAuthorityRecord {
        creator: creator(),
        auth_kind: CreatorAuthorityAuthKind::LegacyCookie,
        granted_scopes: scopes(),
        secret: CreatorAuthoritySecret::new("creator-authority-secret"),
        session_expires_at: None,
        last_revalidated_at: None,
    }
}

fn expired_grant_record() -> CreatorAuthorityRecord {
    CreatorAuthorityRecord {
        auth_kind: CreatorAuthorityAuthKind::Grant,
        session_expires_at: Some(at(1_700_000_000 - 1)),
        ..cookie_record()
    }
}

fn session_record(now: Timestamp) -> FrontendSessionRecord {
    FrontendSessionRecord {
        token: FrontendSessionToken::new("frontend-session-token"),
        creator: creator(),
        created_at: now,
        expires_at: now.plus_seconds(12 * HOUR),
    }
}

fn secret_error(message: &str) -> ApplicationError {
    ApplicationError::CreatorAuthoritySecret { message: message.to_owned() }
}

/// Stands in for the authority store, the homeserver and the session store.
struct Outside {
    record: Option<CreatorAuthorityRecord>,
    refused_at: Option<Timestamp>,
    undecryptable: bool,
    cookie_answer: Result<(), ApplicationError>,
    grant_answer: Option<Result<(), ApplicationError>>,
    record_error: Option<ApplicationError>,
    session: Option<FrontendSessionRecord>,
    secret_reads: usize,
    validity_reads: usize,
    checks: Vec<CreatorAuthorityCheckOutcome>,
    cookie_secrets: Vec<String>,
    grant_secrets: Vec<(CreatorPubky, String)>,
}

impl Outside {
    fn new(record: Option<CreatorAuthorityRecord>, answer: Result<(), ApplicationError>) -> Self {
        Outside {
            record,
            refused_at: None,
            undecryptable: false,
            cookie_answer: answer.clone(),
            grant_answer: Some(answer),
            record_error: None,
            session: Some(session_record(now())),
            secret_reads: 0,
            validity_reads: 0,
            checks: Vec::new(),
            cookie_secrets: Vec::new(),
            grant_secrets: Vec::new(),
        }
    }

    fn honored(record: Option<CreatorAuthorityRecord>) -> Self {
        Outside::new(record, Ok(()))
    }

    fn calls(&self) -> usize {
        self.cookie_secrets.len() + self.grant_secrets.len()
    }

    fn load(&mut self) -> Result<Option<CreatorAuthorityRecord>, ApplicationError> {
        self.secret_reads += 1;
        if self.undecryptable && self.record.is_some() {
            return Err(secret_error("failed to decrypt creator authority secret"));
        }
        Ok(self.record.clone())
    }

    fn validity(&mut self) -> Result<Option<CreatorAuthorityValidity>, ApplicationError> {
        self.validity_reads += 1;
        let refused_at = self.refused_at;
        Ok(self
            .record
            .as_ref()
            .map(|record| CreatorAuthorityValidity::from_record(record, refused_at)))
    }

    fn record_check(
        &mut self,
        outcome: CreatorAuthorityCheckOutcome,
    ) -> Result<(), ApplicationError> {
        if let Some(error) = self.record_error.clone() {
            return Err(error);
        }
        self.checks.push(outcome);
        match outcome {
            CreatorAuthorityCheckOutcome::Honored => {
                self.refused_at = None;
                if let Some(record) = self.record.as_mut() {
                    record.last_revalidated_at = Some(now());
                }
            }
            CreatorAuthorityCheckOutcome::Refused => self.refused_at = Some(now()),
        }
        Ok(())
    }

    fn require(
        &mut self,
        creator: &CreatorPubky,
    ) -> Result<CreatorAuthorityStatus, ApplicationError> {
        let mut state = RevalidateCreatorAuthorityState::new(creator.clone());
        loop {
            let event = match &state {
                RevalidateCreatorAuthorityState::LoadAuthority { .. } => {
                    RevalidateCreatorAuthorityEvent::AuthorityLoaded { loaded: self.load() }
                }
                RevalidateCreatorAuthorityState::RevalidateCookie { record, .. } => {
                    self.cookie_secrets
                        .push(record.secret.expose_secret().to_owned());
                    RevalidateCreatorAuthorityEvent::SecretChecked {
                        checked: self.cookie_answer.clone(),
                    }
                }
                RevalidateCreatorAuthorityState::RevalidateGrant { creator, record } => {
                    let checked = match self.grant_answer.clone() {
                        Some(answer) => {
                            self.grant_secrets
                                .push((creator.clone(), record.secret.expose_secret().to_owned()));
                            answer
                        }
                        None => GrantAuthorityUnavailable
                            .revalidate_grant_credential(creator, &record.secret),
                    };
                    RevalidateCreatorAuthorityEvent::SecretChecked { checked }
                }
                RevalidateCreatorAuthorityState::RecordCheck { outcome, .. } => {
                    RevalidateCreatorAuthorityEvent::CheckRecorded {
                        recorded: self.record_check(*outcome),
                    }
                }
                RevalidateCreatorAuthorityState::Finished { .. } => break,
            };
            state = revalidate_creator_authority(state, event);
        }
        match state {
            RevalidateCreatorAuthorityState::Finished { result } => result,
            _ => unreachable!(),
        }
    }

    fn status(&mut self, token: &str) -> Result<CreatorAuthorityStatusView, ApplicationError> {
        let mut state = GetCreatorAuthorityStatusState::new(
            GetCreatorAuthorityStatusRequest { session_token: FrontendSessionToken::new(token) },
            now(),
        );
        loop {
            let event = match &state {
                GetCreatorAuthorityStatusState::LoadSession { session_token, .. } => {
                    assert_eq!(session_token.expose_token(), token);
                    GetCreatorAuthorityStatusEvent::SessionLoaded {
                        loaded: Ok(self.session.clone()),
                    }
                }
                GetCreatorAuthorityStatusState::Revalidate { creator, .. } => {
                    let creator = creator.clone();
                    GetCreatorAuthorityStatusEvent::Revalidated { result: self.require(&creator) }
                }
                GetCreatorAuthorityStatusState::LoadValidity { .. } => {
                    GetCreatorAuthorityStatusEvent::ValidityLoaded { loaded: self.validity() }
                }
                GetCreatorAuthorityStatusState::Finished { .. } => break,
            };
            state = get_creator_authority_status(state, event);
        }
        match state {
            GetCreatorAuthorityStatusState::Finished { result } => result,
            _ => unreachable!(),
        }
    }

    fn authenticated(&mut self) -> Result<CreatorAuthorityStatusView, ApplicationError> {
        self.status("frontend-session-token")
    }

    fn public(&mut self) -> Result<PublicCreatorAuthorityStatusView, ApplicationError> {
        let loaded = self.validity();
        get_public_creator_authority_status(creator(), now(), loaded)
    }
}

#[test]
fn authenticated_status_requires_a_live_frontend_session() {
    let mut outside = Outside::honored(None);
    outside.session = None;
    assert!(outside.status("missing-token") == Err(ApplicationError::FrontendSessionUnavailable));

    outside.session = Some(FrontendSessionRecord {
        expires_at: now(),
        ..session_record(at(1_700_000_000 - 12 * i64::from(HOUR)))
    });
    assert!(outside.status("expired-token") == Err(ApplicationError::FrontendSessionExpired));
    assert_eq!(outside.calls(), 0);
}

#[test]
fn authenticated_status_is_not_authorized_without_a_stored_record() {
    let status = Outside::honored(None).authenticated().unwrap();

    assert_eq!(status.creator, creator());
    assert!(!status.authorized);
    assert_eq!(status.auth_kind, None);
    assert!(status.granted_scopes.is_empty());
    assert!(status.session_expires_at == None);
}

#[test]
fn authenticated_status_revalidates_and_records_an_honored_check() {
    let session_expires_at = now().plus_seconds(30 * DAY);
    let mut outside = Outside::honored(Some(CreatorAuthorityRecord {
        session_expires_at: Some(session_expires_at),
        ..cookie_record()
    }));

    let status = outside.authenticated().unwrap();

    assert!(status.authorized);
    assert_eq!(
        status.auth_kind,
        Some(CreatorAuthorityAuthKind::LegacyCookie)
    );
    assert_eq!(
        status.granted_scopes,
        vec!["/pub/locks.app/:rw", "/priv/locks.app/:rw"]
    );
    assert!(status.session_expires_at == Some(session_expires_at));
    assert_eq!(outside.calls(), 1);
    assert_eq!(outside.checks, vec![CreatorAuthorityCheckOutcome::Honored]);
    let debug = status.debug_text();
    assert!(!debug.contains("creator-authority-secret"));
    assert!(!debug.contains("frontend-session-token"));
}

#[test]
fn authenticated_status_reports_a_revoked_cookie_and_the_public_route_agrees() {
    let mut outside = Outside::new(
        Some(cookie_record()),
        Err(ApplicationError::CreatorAuthorityRefused),
    );

    let status = outside.authenticated().unwrap();

    assert!(!status.authorized);
    assert_eq!(status.auth_kind, None);
    assert_eq!(outside.checks, vec![CreatorAuthorityCheckOutcome::Refused]);
    assert!(!outside.public().unwrap().authorized);
}

#[test]
fn authenticated_status_keeps_the_stored_answer_when_the_homeserver_is_unreachable() {
    let mut outside = Outside::new(
        Some(cookie_record()),
        Err(ApplicationError::CreatorAuthorityCheckUnavailable),
    );

    let status = outside.authenticated().unwrap();

    assert!(status.authorized);
    assert!(outside.checks.is_empty());
}

#[test]
fn authenticated_status_surfaces_a_secret_that_cannot_be_decrypted() {
    let mut outside = Outside::honored(Some(cookie_record()));
    outside.undecryptable = true;

    let error = outside.authenticated().err().unwrap();

    assert!(matches!(
        error,
        ApplicationError::CreatorAuthoritySecret { .. }
    ));
    assert_eq!(outside.calls(), 0);
    assert!(outside.checks.is_empty());
}

#[test]
fn authenticated_status_reports_an_expired_grant_even_if_the_homeserver_answers() {
    let status = Outside::honored(Some(expired_grant_record()))
        .authenticated()
        .unwrap();

    assert!(!status.authorized);
}

#[test]
fn public_status_reads_only_stored_validity_for_present_and_absent_rows() {
    let mut present = Outside::honored(Some(cookie_record()));
    let mut absent = Outside::honored(None);

    let connected = present.public().unwrap();
    let unknown = absent.public().unwrap();

    assert_eq!(connected.creator, creator());
    assert!(connected.authorized);
    assert!(!unknown.authorized);
    for store in [&present, &absent] {
        assert_eq!(store.secret_reads, 0);
        assert_eq!(store.validity_reads, 1);
        assert!(store.checks.is_empty());
    }
    assert!(!format!("{connected:?}").contains("creator-authority-secret"));
}

#[test]
fn public_status_reports_a_recorded_refusal_and_an_expired_grant_as_not_authorized() {
    let mut refused = Outside::honored(Some(cookie_record()));
    refused
        .record_check(CreatorAuthorityCheckOutcome::Refused)
        .unwrap();
    let expired = Outside::honored(Some(expired_grant_record()));

    for mut store in [refused, expired] {
        assert!(!store.public().unwrap().authorized);
    }
}

#[test]
fn public_status_is_unaffected_by_a_secret_it_never_reads() {
    let mut outside = Outside::honored(Some(cookie_record()));
    outside.undecryptable = true;

    assert!(outside.public().unwrap().authorized);
    assert_eq!(outside.secret_reads, 0);
}

#[test]
fn public_status_passes_a_storage_failure_on() {
    let error = ApplicationError::Storage { message: "down".to_owned() };
    assert_eq!(
        get_public_creator_authority_status(creator(), now(), Err(error.clone())),
        Err(error)
    );
}

#[test]
fn missing_authority_returns_unavailable_without_revalidating() {
    let mut outside = Outside::honored(None);

    assert!(outside.require(&creator()) == Err(ApplicationError::CreatorAuthorityUnavailable));
    assert_eq!(outside.cookie_secrets, Vec::<String>::new());
}

fn manager_record(secret: &str) -> CreatorAuthorityRecord {
    CreatorAuthorityRecord {
        creator: creator(),
        auth_kind: CreatorAuthorityAuthKind::LegacyCookie,
        granted_scopes: scopes(),
        secret: CreatorAuthoritySecret::new(secret),
        // 2026-05-29 12:15:00 UTC and 12:00:00 UTC
        session_expires_at: Some(at(1_780_056_900)),
        last_revalidated_at: Some(at(1_780_056_000)),
    }
}

#[test]
fn grant_record_without_grant_revalidator_returns_unavailable_without_revalidating() {
    let mut outside = Outside::honored(Some(CreatorAuthorityRecord {
        auth_kind: CreatorAuthorityAuthKind::Grant,
        ..manager_record("grant-credential-secret")
    }));
    outside.grant_answer = None;

    assert!(outside.require(&creator()) == Err(ApplicationError::CreatorAuthorityUnavailable));
    assert_eq!(outside.cookie_secrets, Vec::<String>::new());
    assert!(outside.checks.is_empty());
}

#[test]
fn grant_record_revalidates_through_grant_revalidator_not_cookie_slot() {
    let mut outside = Outside::honored(Some(CreatorAuthorityRecord {
        auth_kind: CreatorAuthorityAuthKind::Grant,
        ..manager_record("grant-restore-state")
    }));

    let status = outside.require(&creator()).unwrap();

    assert_eq!(status.auth_kind, CreatorAuthorityAuthKind::Grant);
    assert!(status.authorized);
    assert_eq!(outside.cookie_secrets, Vec::<String>::new());
    assert_eq!(
        outside.grant_secrets,
        vec![(creator(), "grant-restore-state".to_owned())]
    );
    assert!(!status.debug_text().contains("grant-restore-state"));
}

#[test]
fn failed_grant_revalidation_returns_error_without_leaking_state() {
    let mut outside = Outside::new(
        Some(CreatorAuthorityRecord {
            auth_kind: CreatorAuthorityAuthKind::Grant,
            ..manager_record("grant-restore-state")
        }),
        Err(ApplicationError::CreatorAuthorityUnavailable),
    );

    let error = outside.require(&creator()).err().unwrap();

    assert_eq!(error, ApplicationError::CreatorAuthorityUnavailable);
    assert!(!format!("{error:?}").contains("grant-restore-state"));
}

#[test]
fn valid_legacy_record_revalidates_secret_and_returns_secret_free_status() {
    let mut outside = Outside::honored(Some(manager_record("legacy-cookie-session-secret")));

    let status = outside.require(&creator()).unwrap();

    assert!(
        status
            == CreatorAuthorityStatus {
            creator: creator(),
            auth_kind: CreatorAuthorityAuthKind::LegacyCookie,
            authorized: true,
            granted_scopes: vec![
                "/pub/locks.app/:rw".to_owned(),
                "/priv/locks.app/:rw".to_owned(),
            ],
            session_expires_at: Some(at(1_780_056_900)),
        }
    );
    assert_eq!(
        status.session_expires_at.unwrap().debug_text(),
        "2026-05-29 12:15:00.0 +00:00:00"
    );
    assert_eq!(
        outside.cookie_secrets,
        vec!["legacy-cookie-session-secret".to_owned()]
    );
    assert!(!status.debug_text().contains("legacy-cookie-session-secret"));
}

#[test]
fn failed_legacy_revalidation_returns_unavailable_without_leaking_secret() {
    let mut outside = Outside::new(
        Some(manager_record("legacy-cookie-session-secret")),
        Err(ApplicationError::CreatorAuthorityUnavailable),
    );

    let error = outside.require(&creator()).err().unwrap();

    assert_eq!(error, ApplicationError::CreatorAuthorityUnavailable);
    assert!(!format!("{error:?}").contains("legacy-cookie-session-secret"));
}

#[test]
fn manager_records_the_homeserver_answer_but_never_an_unreachable_one() {
    for (answer, recorded) in [
        (Ok(()), vec![CreatorAuthorityCheckOutcome::Honored]),
        (
            Err(ApplicationError::CreatorAuthorityRefused),
            vec![CreatorAuthorityCheckOutcome::Refused],
        ),
        (
            Err(ApplicationError::CreatorAuthorityCheckUnavailable),
            vec![],
        ),
        (
            Err(secret_error(
                "failed to restore legacy creator authority secret",
            )),
            vec![],
        ),
    ] {
        let expected_error = answer.clone().err();
        let mut outside = Outside::new(
            Some(manager_record("legacy-cookie-session-secret")),
            answer,
        );

        let result = outside.require(&creator());

        assert_eq!(result.err(), expected_error);
        assert_eq!(outside.checks, recorded);
    }
}

#[test]
fn failure_to_record_takes_the_place_of_the_homeserver_answer() {
    for answer in [Ok(()), Err(ApplicationError::CreatorAuthorityRefused)] {
        let mut outside = Outside::new(Some(cookie_record()), answer);
        outside.record_error = Some(ApplicationError::Storage { message: "down".to_owned() });
        assert!(
            outside.require(&creator())
                == Err(ApplicationError::Storage { message: "down".to_owned() })
        );
    }
}

#[test]
fn homeserver_status_classifies_refusal_apart_from_an_unreachable_homeserver() {
    let server = |status: StatusCode| HomeserverRestoreFailure::Server { status: status.as_u16() };
    let local = || secret_error("local");

    for status in [
        StatusCode::UNAUTHORIZED,
        StatusCode::FORBIDDEN,
        StatusCode::NOT_FOUND,
        StatusCode::GONE,
    ] {
        assert_eq!(
            classify_homeserver_restore_error(&server(status), local),
            ApplicationError::CreatorAuthorityRefused,
            "{status}"
        );
    }
    for status in [
        StatusCode::REQUEST_TIMEOUT,
        StatusCode::TOO_MANY_REQUESTS,
        StatusCode::INTERNAL_SERVER_ERROR,
        StatusCode::BAD_GATEWAY,
        StatusCode::SERVICE_UNAVAILABLE,
    ] {
        assert_eq!(
            classify_homeserver_restore_error(&server(status), local),
            ApplicationError::CreatorAuthorityCheckUnavailable,
            "{status}"
        );
    }
    assert_eq!(
        classify_homeserver_restore_error(&server(StatusCode::BAD_REQUEST), local),
        local()
    );
    assert_eq!(
        classify_homeserver_restore_error(&HomeserverRestoreFailure::Local, local),
        local()
    );
}

#[test]
fn every_server_error_status_and_no_other_is_inconclusive() {
    for code in 100..=999u16 {
        let status = StatusCode::from_u16(code).unwrap();
        let error = classify_homeserver_restore_error(
            &HomeserverRestoreFailure::Server { status: code },
            || secret_error("local"),
        );
        let expected = match code {
            401 | 403 | 404 | 410 => ApplicationError::CreatorAuthorityRefused,
            408 | 429 => ApplicationError::CreatorAuthorityCheckUnavailable,
            _ if status.is_server_error() => ApplicationError::CreatorAuthorityCheckUnavailable,
            _ => secret_error("local"),
        };
        assert_eq!(error, expected, "{code}");
    }
    for failure in [
        HomeserverRestoreFailure::Transport,
        HomeserverRestoreFailure::Pkarr,
    ] {
        assert_eq!(
            classify_homeserver_restore_error(&failure, || secret_error("local")),
            ApplicationError::CreatorAuthorityCheckUnavailable
        );
    }
}

#[test]
fn legacy_cookie_check_names_the_failed_restore() {
    assert_eq!(legacy_cookie_check(Ok(())), Ok(()));
    assert_eq!(
        legacy_cookie_check(Err(HomeserverRestoreFailure::Server { status: 403 })),
        Err(ApplicationError::CreatorAuthorityRefused)
    );
    assert_eq!(
        legacy_cookie_check(Err(HomeserverRestoreFailure::Local)),
        Err(secret_error(
            "failed to restore legacy creator authority secret"
        ))
    );
}

#[test]
fn manager_hands_back_what_it_was_made_of() {
    let manager = LegacyCookieCreatorAuthorityManager::new("store", "cookie");
    assert_eq!(*manager.store(), "store");
    assert_eq!(*manager.revalidator(), "cookie");
    assert_eq!(
        manager
            .grant_revalidator()
            .revalidate_grant_credential(&creator(), &CreatorAuthoritySecret::new("s")),
        Err(ApplicationError::CreatorAuthorityUnavailable)
    );
    let manager = manager.with_grant_revalidator("grant");
    assert_eq!(*manager.store(), "store");
    assert_eq!(*manager.revalidator(), "cookie");
    assert_eq!(*manager.grant_revalidator(), "grant");
}
