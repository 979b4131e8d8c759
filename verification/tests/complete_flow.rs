//! Completing a creator connect flow, driven against stand-ins for the outside.

use creator_authority::complete_creator_connect_flow::{
    complete_creator_connect_flow, CompleteCreatorConnectFlowEvent,
    CompleteCreatorConnectFlowRequest, CompleteCreatorConnectFlowResponse,
    CompleteCreatorConnectFlowState,
};
use creator_authority::creator_authority::{
    CreatorAuthorityAuthKind, CreatorAuthorityRecord, CreatorAuthoritySecret,
    CreatorConnectAuthorizationUrl, CreatorConnectFlowId, GrantCreatorConnectFlowApproval,
    GrantPopKeyId, LegacyCreatorConnectFlowApproval, PendingCreatorConnectFlowRecord,
};
use creator_authority::error::ApplicationError;
use creator_authority::frontend_session::{FrontendSessionCode, FrontendSessionCodeRecord};
use creator_authority::keys::CreatorPubky;
use creator_authority::timestamp::Timestamp;

const GRANT_STATE: &str = "{\"delegated-grant-restore-state\":true}";
const MINUTE: u32 = 60;
const DAY: u32 = 24 * 60 * 60;

fn at(second: i64) -> Timestamp {
    Timestamp::from_unix_timestamp(second).unwrap()
}

fn creator() -> CreatorPubky {
    CreatorPubky::parse("pubkytkrq8zmwb8a3m9k15csu3q17qmfgqnp9dskbrg9uq1rydpyxp7qy").unwrap()
}

fn pending_flow(now: Timestamp) -> PendingCreatorConnectFlowRecord {
    PendingCreatorConnectFlowRecord {
        flow_id: CreatorConnectFlowId::new("flow-123"),
        return_to: "https://pubky.app/locks/connected".to_owned(),
        state: "opaque-state".to_owned(),
        authorization_url: CreatorConnectAuthorizationUrl::new("pubkyauth://secret-flow-url"),
        grant_authorization_url: None,
        requested_scopes: vec![
            "/pub/locks.app/:rw".to_owned(),
            "/priv/locks.app/:rw".to_owned(),
        ],
        created_at: now,
        expires_at: now.plus_seconds(5 * MINUTE),
    }
}

fn grant_pending_flow(now: Timestamp) -> PendingCreatorConnectFlowRecord {
    PendingCreatorConnectFlowRecord {
        grant_authorization_url: Some(CreatorConnectAuthorizationUrl::new(
            "pubkyauth://signin_grant?secret-grant-url",
        )),
        ..pending_flow(now)
    }
}

fn cookie_error() -> ApplicationError {
    ApplicationError::CreatorAuthoritySecret {
        message: "legacy creator connect flow approval failed or expired".to_owned(),
    }
}

fn storage(message: &str) -> ApplicationError {
    ApplicationError::Storage { message: message.to_owned() }
}

#[derive(Clone, Copy, PartialEq)]
enum Outcome {
    Approve,
    Fail,
    Pending,
}

fn cookie_approval(outcome: Outcome) -> Result<LegacyCreatorConnectFlowApproval, ApplicationError> {
    match outcome {
        Outcome::Approve => Ok(LegacyCreatorConnectFlowApproval {
            creator: creator(),
            session_secret: CreatorAuthoritySecret::new("legacy-cookie-session-secret"),
        }),
        Outcome::Fail => Err(cookie_error()),
        Outcome::Pending => panic!("waits for a cookie approval that never comes"),
    }
}

fn grant_approval(outcome: Outcome) -> Result<GrantCreatorConnectFlowApproval, ApplicationError> {
    match outcome {
        Outcome::Approve => Ok(GrantCreatorConnectFlowApproval {
            creator: creator(),
            grant_state: CreatorAuthoritySecret::new(GRANT_STATE),
            granted_scopes: vec![
                "/priv/locks.app/:rw".to_owned(),
                "/pub/locks.app/:rw".to_owned(),
            ],
            grant_expires_at: at(1_700_000_000).plus_seconds(30 * DAY),
        }),
        Outcome::Fail => Err(ApplicationError::CreatorAuthoritySecret {
            message: "grant creator connect flow approval failed or expired".to_owned(),
        }),
        Outcome::Pending => panic!("waits for a grant approval that never comes"),
    }
}

/// What a grant approval is waited for with.
type GrantWait = (String, GrantPopKeyId, Vec<String>);

fn grant_wait(
    flow: &PendingCreatorConnectFlowRecord,
    url: &CreatorConnectAuthorizationUrl,
    pop_key_id: &GrantPopKeyId,
) -> GrantWait {
    (
        url.expose_url().to_owned(),
        pop_key_id.clone(),
        flow.requested_scopes.clone(),
    )
}

/// Stands in for the stores and the two connect-flow clients.
struct Outside {
    flow: Option<PendingCreatorConnectFlowRecord>,
    authority: Option<CreatorAuthorityRecord>,
    code: Option<FrontendSessionCodeRecord>,
    cookie: Outcome,
    grant: Option<Outcome>,
    cookie_first: bool,
    grant_awaited: Vec<GrantWait>,
    load_error: Option<ApplicationError>,
    delete_error: Option<ApplicationError>,
    authority_error: Option<ApplicationError>,
    code_error: Option<ApplicationError>,
}

impl Outside {
    fn new(
        flow: Option<PendingCreatorConnectFlowRecord>,
        cookie: Outcome,
        grant: Option<Outcome>,
        cookie_first: bool,
    ) -> Self {
        Outside {
            flow,
            authority: None,
            code: None,
            cookie,
            grant,
            cookie_first,
            grant_awaited: Vec::new(),
            load_error: None,
            delete_error: None,
            authority_error: None,
            code_error: None,
        }
    }

    fn delete(&mut self, flow_id: &CreatorConnectFlowId) -> Result<(), ApplicationError> {
        assert_eq!(flow_id.as_str(), "flow-123");
        match self.delete_error.clone() {
            Some(error) => Err(error),
            None => {
                self.flow = None;
                Ok(())
            }
        }
    }

    fn complete(
        &mut self,
        flow_id: &str,
        now: Timestamp,
    ) -> Result<CompleteCreatorConnectFlowResponse, ApplicationError> {
        let mut state = CompleteCreatorConnectFlowState::new(
            CompleteCreatorConnectFlowRequest { flow_id: CreatorConnectFlowId::new(flow_id) },
            now,
            self.grant.is_some(),
        );
        loop {
            let event = match &state {
                CompleteCreatorConnectFlowState::LoadPendingFlow { .. } => {
                    CompleteCreatorConnectFlowEvent::PendingFlowLoaded {
                        loaded: match self.load_error.clone() {
                            Some(error) => Err(error),
                            None => Ok(self.flow.clone()),
                        },
                    }
                }
                CompleteCreatorConnectFlowState::DeleteExpiredFlow { flow_id } => {
                    CompleteCreatorConnectFlowEvent::PendingFlowDeleted {
                        deleted: self.delete(flow_id),
                    }
                }
                CompleteCreatorConnectFlowState::AwaitCookieApproval { .. } => {
                    CompleteCreatorConnectFlowEvent::CookieSettled {
                        approval: cookie_approval(self.cookie),
                    }
                }
                CompleteCreatorConnectFlowState::AwaitEitherApproval {
                    flow,
                    grant_authorization_url,
                    pop_key_id,
                } => {
                    self.grant_awaited
                        .push(grant_wait(&flow.pending, grant_authorization_url, pop_key_id));
                    let grant = self.grant.unwrap();
                    if (self.cookie_first || grant == Outcome::Pending)
                        && self.cookie != Outcome::Pending
                    {
                        CompleteCreatorConnectFlowEvent::CookieSettled {
                            approval: cookie_approval(self.cookie),
                        }
                    } else {
                        CompleteCreatorConnectFlowEvent::GrantSettled {
                            approval: grant_approval(grant),
                        }
                    }
                }
                CompleteCreatorConnectFlowState::AwaitGrantApproval {
                    flow,
                    grant_authorization_url,
                    pop_key_id,
                    ..
                } => {
                    // The wait that began beside the cookie approval goes on.
                    assert_eq!(
                        self.grant_awaited.last(),
                        Some(&grant_wait(&flow.pending, grant_authorization_url, pop_key_id))
                    );
                    CompleteCreatorConnectFlowEvent::GrantSettled {
                        approval: grant_approval(self.grant.unwrap()),
                    }
                }
                CompleteCreatorConnectFlowState::StoreAuthority { authority, .. } => {
                    CompleteCreatorConnectFlowEvent::AuthorityStored {
                        stored: match self.authority_error.clone() {
                            Some(error) => Err(error),
                            None => {
                                self.authority = Some(authority.clone());
                                Ok(())
                            }
                        },
                    }
                }
                CompleteCreatorConnectFlowState::GenerateCode { .. } => {
                    CompleteCreatorConnectFlowEvent::CodeGenerated {
                        code: FrontendSessionCode::new("one-time-code"),
                    }
                }
                CompleteCreatorConnectFlowState::StoreCode { code, .. } => {
                    CompleteCreatorConnectFlowEvent::CodeStored {
                        stored: match self.code_error.clone() {
                            Some(error) => Err(error),
                            None => {
                                self.code = Some(code.clone());
                                Ok(())
                            }
                        },
                    }
                }
                CompleteCreatorConnectFlowState::DeleteCompletedFlow { flow_id, .. } => {
                    CompleteCreatorConnectFlowEvent::PendingFlowDeleted {
                        deleted: self.delete(flow_id),
                    }
                }
                CompleteCreatorConnectFlowState::Finished { .. } => break,
            };
            state = complete_creator_connect_flow(state, event);
        }
        match state {
            CompleteCreatorConnectFlowState::Finished { result } => result,
            _ => unreachable!(),
        }
    }
}

#[test]
fn grant_connect_stores_grant_record_while_cookie_flow_is_pending() {
    let now = at(1_700_000_000);
    let mut outside = Outside::new(
        Some(grant_pending_flow(now)),
        Outcome::Pending,
        Some(Outcome::Approve),
        true,
    );

    let response = outside.complete("flow-123", now).unwrap();

    assert_eq!(response.creator, creator());
    assert_eq!(response.code.expose_code(), "one-time-code");
    let authority = outside.authority.as_ref().expect("grant authority stored");
    assert_eq!(authority.auth_kind, CreatorAuthorityAuthKind::Grant);
    assert_eq!(authority.secret.expose_secret(), GRANT_STATE);
    assert_eq!(
        authority.granted_scopes,
        vec!["/priv/locks.app/:rw", "/pub/locks.app/:rw"]
    );
    assert!(authority.session_expires_at == Some(now.plus_seconds(30 * DAY)));
    assert!(authority.last_revalidated_at == Some(now));
    assert!(outside.flow.is_none(), "pending flow deleted");
    assert_eq!(
        outside.grant_awaited,
        vec![(
            "pubkyauth://signin_grant?secret-grant-url".to_owned(),
            GrantPopKeyId::for_connect_flow(&CreatorConnectFlowId::new("flow-123")),
            vec![
                "/pub/locks.app/:rw".to_owned(),
                "/priv/locks.app/:rw".to_owned()
            ],
        )]
    );
}

#[test]
fn grant_record_never_passes_through_cookie_slot() {
    let now = at(1_700_000_000);
    for cookie_first in [true, false] {
        let mut outside = Outside::new(
            Some(grant_pending_flow(now)),
            Outcome::Fail,
            Some(Outcome::Approve),
            cookie_first,
        );
        outside.complete("flow-123", now).unwrap();
        let grant_record = outside.authority.unwrap();
        assert_eq!(grant_record.auth_kind, CreatorAuthorityAuthKind::Grant);
        assert_ne!(
            grant_record.secret.expose_secret(),
            "legacy-cookie-session-secret"
        );
    }

    let mut outside = Outside::new(
        Some(grant_pending_flow(now)),
        Outcome::Approve,
        Some(Outcome::Pending),
        true,
    );
    outside.complete("flow-123", now).unwrap();
    let cookie_record = outside.authority.unwrap();
    assert_eq!(
        cookie_record.auth_kind,
        CreatorAuthorityAuthKind::LegacyCookie
    );
    assert_eq!(
        cookie_record.secret.expose_secret(),
        "legacy-cookie-session-secret"
    );
    assert!(cookie_record.session_expires_at == None);
}

#[test]
fn failed_grant_approval_still_completes_with_cookie_approval() {
    let now = at(1_700_000_000);
    for cookie_first in [true, false] {
        let mut outside = Outside::new(
            Some(grant_pending_flow(now)),
            Outcome::Approve,
            Some(Outcome::Fail),
            cookie_first,
        );

        outside.complete("flow-123", now).unwrap();

        assert_eq!(
            outside.authority.unwrap().auth_kind,
            CreatorAuthorityAuthKind::LegacyCookie
        );
    }
}

#[test]
fn both_failed_approvals_return_the_cookie_error_and_store_nothing() {
    let now = at(1_700_000_000);
    for cookie_first in [true, false] {
        let mut outside = Outside::new(
            Some(grant_pending_flow(now)),
            Outcome::Fail,
            Some(Outcome::Fail),
            cookie_first,
        );

        let error = outside.complete("flow-123", now).err().unwrap();

        assert_eq!(error, cookie_error());
        assert!(outside.authority.is_none());
        assert!(outside.code.is_none());
        assert!(outside.flow.is_some(), "pending flow kept for retry");
    }
}

#[test]
fn first_of_two_approvals_decides() {
    let now = at(1_700_000_000);
    for (cookie_first, kind) in [
        (true, CreatorAuthorityAuthKind::LegacyCookie),
        (false, CreatorAuthorityAuthKind::Grant),
    ] {
        let mut outside = Outside::new(
            Some(grant_pending_flow(now)),
            Outcome::Approve,
            Some(Outcome::Approve),
            cookie_first,
        );
        outside.complete("flow-123", now).unwrap();
        assert_eq!(outside.authority.unwrap().auth_kind, kind);
    }
}

#[test]
fn flow_without_grant_url_never_awaits_grant_approval() {
    let now = at(1_700_000_000);
    let mut outside = Outside::new(
        Some(pending_flow(now)),
        Outcome::Approve,
        Some(Outcome::Approve),
        false,
    );

    outside.complete("flow-123", now).unwrap();

    assert!(outside.grant_awaited.is_empty());
    assert_eq!(
        outside.authority.unwrap().auth_kind,
        CreatorAuthorityAuthKind::LegacyCookie
    );
}

#[test]
fn grant_approval_is_awaited_once_however_the_cookie_approval_ends() {
    let now = at(1_700_000_000);
    for cookie in [Outcome::Approve, Outcome::Fail] {
        for cookie_first in [true, false] {
            let mut outside = Outside::new(
                Some(grant_pending_flow(now)),
                cookie,
                Some(Outcome::Approve),
                cookie_first,
            );
            outside.complete("flow-123", now).unwrap();
            assert_eq!(outside.grant_awaited.len(), 1);
        }
    }
}

#[test]
fn code_expiry_is_told_at_the_offset_of_the_clock() {
    let now =
        Timestamp::from_unix_nanos_at_offset(1_700_000_000_000_000_000, -3 * 3_600).unwrap();
    let mut outside = Outside::new(Some(pending_flow(now)), Outcome::Approve, None, true);
    let response = outside.complete("flow-123", now).unwrap();
    assert_eq!(response.code_expires_at.unix_nanos(), 1_700_000_300_000_000_000);
    assert_eq!(response.code_expires_at.offset_seconds(), -3 * 3_600);
}

#[test]
fn grant_url_without_grant_connect_never_awaits_grant_approval() {
    let now = at(1_700_000_000);
    let mut outside = Outside::new(Some(grant_pending_flow(now)), Outcome::Approve, None, false);

    outside.complete("flow-123", now).unwrap();

    assert!(outside.grant_awaited.is_empty());
}

#[test]
fn complete_creator_connect_flow_stores_authority_issues_code_and_deletes_pending_flow() {
    let now = at(1_700_000_000);
    let mut outside = Outside::new(Some(pending_flow(now)), Outcome::Approve, None, true);

    let response = outside.complete("flow-123", now).unwrap();

    assert_eq!(response.creator, creator());
    assert_eq!(response.state, "opaque-state");
    assert_eq!(response.return_to, "https://pubky.app/locks/connected");
    assert_eq!(response.code.expose_code(), "one-time-code");
    assert!(
        response.code_expires_at.unix_nanos() <= now.plus_seconds(5 * MINUTE).unix_nanos()
    );
    assert!(response.code_expires_at == now.plus_seconds(5 * MINUTE));
    assert!(!response.debug_text().contains("legacy-cookie-session-secret"));

    assert!(
        outside.flow.is_none(),
        "pending flow deleted after completion"
    );

    let authority = outside.authority.expect("creator authority stored");
    assert_eq!(authority.creator, creator());
    assert_eq!(authority.auth_kind, CreatorAuthorityAuthKind::LegacyCookie);
    assert_eq!(
        authority.secret.expose_secret(),
        "legacy-cookie-session-secret"
    );
    assert_eq!(
        authority.granted_scopes,
        vec!["/pub/locks.app/:rw", "/priv/locks.app/:rw"]
    );

    let code = outside.code.expect("frontend session code stored");
    assert_eq!(code.code.expose_code(), "one-time-code");
    assert_eq!(code.creator, creator());
    assert_eq!(code.state, "opaque-state");
    assert_eq!(code.return_to, "https://pubky.app/locks/connected");
    assert!(code.created_at == now);
    assert!(code.expires_at == response.code_expires_at);
    assert!(code.consumed_at == None);
}

#[test]
fn complete_creator_connect_flow_maps_missing_and_expired_flows_to_lifecycle_errors() {
    let now = at(1_700_000_000);
    let mut missing = Outside::new(None, Outcome::Approve, None, true);
    assert_eq!(
        missing.complete("missing", now).err(),
        Some(ApplicationError::CreatorConnectFlowUnavailable)
    );

    let expired_flow = PendingCreatorConnectFlowRecord {
        expires_at: now,
        ..pending_flow(at(1_700_000_000 - 10 * i64::from(MINUTE)))
    };
    let mut expired = Outside::new(Some(expired_flow), Outcome::Approve, None, true);
    assert_eq!(
        expired.complete("flow-123", now).err(),
        Some(ApplicationError::CreatorConnectFlowExpired)
    );
    assert!(expired.flow.is_none(), "expired flow cleaned up");
    assert!(expired.authority.is_none());
}

#[test]
fn each_completion_failure_is_the_answer_and_keeps_the_pending_flow() {
    let now = at(1_700_000_000);
    let outside = || Outside::new(Some(pending_flow(now)), Outcome::Approve, None, true);

    let mut load = Outside { load_error: Some(storage("load")), ..outside() };
    assert_eq!(load.complete("flow-123", now).err(), Some(storage("load")));

    let mut authority = Outside { authority_error: Some(storage("authority")), ..outside() };
    assert_eq!(
        authority.complete("flow-123", now).err(),
        Some(storage("authority"))
    );
    assert!(authority.code.is_none());
    assert!(authority.flow.is_some());

    let mut code = Outside { code_error: Some(storage("code")), ..outside() };
    assert_eq!(code.complete("flow-123", now).err(), Some(storage("code")));
    assert!(code.authority.is_some());
    assert!(code.flow.is_some());

    let mut delete = Outside { delete_error: Some(storage("delete")), ..outside() };
    assert_eq!(delete.complete("flow-123", now).err(), Some(storage("delete")));
    assert!(delete.code.is_some());

    let mut expired = Outside { delete_error: Some(storage("delete")), ..outside() };
    assert_eq!(
        expired
            .complete("flow-123", now.plus_seconds(5 * MINUTE))
            .err(),
        Some(storage("delete"))
    );
}
