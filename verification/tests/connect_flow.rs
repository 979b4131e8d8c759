//! A connect flow from its start, through storage, to its completion.

use creator_authority::complete_creator_connect_flow::{
    complete_creator_connect_flow, CompleteCreatorConnectFlowEvent,
    CompleteCreatorConnectFlowRequest, CompleteCreatorConnectFlowState,
};
use creator_authority::creator_authority::{
    CreatorAuthorityAuthKind, CreatorAuthorityCheckOutcome, CreatorAuthorityRecord,
    CreatorAuthoritySecret, CreatorAuthorityValidity, CreatorConnectAuthorizationUrl,
    CreatorConnectFlowId, GrantPopKeyId, LegacyCreatorConnectFlowApproval,
    PendingCreatorConnectFlowRecord,
};
use creator_authority::creator_connect_flows::{
    get_pending_creator_connect_flow, InsertPendingFlowState, SelectedFlow,
};
use creator_authority::error::ApplicationError;
use creator_authority::frontend_session::{
    FrontendSessionCode, FrontendSessionRecord, FrontendSessionToken,
};
use creator_authority::get_creator_authority_status::{
    get_creator_authority_status, get_public_creator_authority_status,
    GetCreatorAuthorityStatusEvent, GetCreatorAuthorityStatusRequest,
    GetCreatorAuthorityStatusState,
};
use creator_authority::keys::CreatorPubky;
use creator_authority::start_creator_connect_flow::{
    start_creator_connect_flow, StartCreatorConnectFlowEvent, StartCreatorConnectFlowRequest,
    StartCreatorConnectFlowState,
};
use creator_authority::timestamp::Timestamp;

fn at(second: i64) -> Timestamp {
    Timestamp::from_unix_timestamp(second).unwrap()
}

fn creator() -> CreatorPubky {
    CreatorPubky::parse("pubkytkrq8zmwb8a3m9k15csu3q17qmfgqnp9dskbrg9uq1rydpyxp7qy").unwrap()
}

/// Starts a flow at `now` and returns the key of its grant flow and what is stored.
fn started(now: Timestamp) -> (GrantPopKeyId, PendingCreatorConnectFlowRecord) {
    let state = StartCreatorConnectFlowState::new(
        StartCreatorConnectFlowRequest {
            return_to: "https://pubky.app/locks/connected".to_owned(),
            state: "opaque-state".to_owned(),
        },
        true,
    );
    let state = start_creator_connect_flow(
        state,
        StartCreatorConnectFlowEvent::Prepared {
            now,
            flow_id: CreatorConnectFlowId::new("flow-123"),
        },
    );
    let state = start_creator_connect_flow(
        state,
        StartCreatorConnectFlowEvent::LegacyFlowStarted {
            started: Ok(CreatorConnectAuthorizationUrl::new("pubkyauth://cookie")),
        },
    );
    let pop_key_id = match &state {
        StartCreatorConnectFlowState::StartGrantFlow { pop_key_id, .. } => pop_key_id.clone(),
        _ => panic!("the grant flow is started beside the cookie flow"),
    };
    let state = start_creator_connect_flow(
        state,
        StartCreatorConnectFlowEvent::GrantFlowStarted {
            started: Ok(CreatorConnectAuthorizationUrl::new("pubkyauth://grant")),
        },
    );
    match state {
        StartCreatorConnectFlowState::StorePendingFlow { record } => (pop_key_id, record),
        _ => panic!("both flows have started"),
    }
}

/// Stores a flow as rows and selects it again.
fn stored_and_found(record: PendingCreatorConnectFlowRecord) -> PendingCreatorConnectFlowRecord {
    let (row, companion) = match InsertPendingFlowState::new(record) {
        InsertPendingFlowState::Begin { row, companion } => (row, companion),
        _ => panic!("the id is not reserved"),
    };
    let selected = SelectedFlow {
        flow_id: Ok(row.flow_id),
        return_to: Ok(row.return_to),
        state: Ok(row.state),
        authorization_url: Ok(row.authorization_url),
        grant_authorization_url: Ok(companion.map(|row| row.authorization_url)),
        requested_scopes: Ok(row.requested_scopes),
        created_at: Ok(row.created_at),
        expires_at: Ok(row.expires_at),
    };
    get_pending_creator_connect_flow(Ok(Some(selected)))
        .ok()
        .unwrap()
        .unwrap()
}

fn loaded(
    found: PendingCreatorConnectFlowRecord,
    now: Timestamp,
) -> CompleteCreatorConnectFlowState {
    complete_creator_connect_flow(
        CompleteCreatorConnectFlowState::new(
            CompleteCreatorConnectFlowRequest { flow_id: CreatorConnectFlowId::new("flow-123") },
            now,
            true,
        ),
        CompleteCreatorConnectFlowEvent::PendingFlowLoaded { loaded: Ok(Some(found)) },
    )
}

#[test]
fn grant_approval_is_awaited_as_the_grant_flow_was_started() {
    let (started_with, record) = started(at(1_000));
    let found = stored_and_found(record.clone());
    assert!(found == record);
    match loaded(found, at(1_001)) {
        CompleteCreatorConnectFlowState::AwaitEitherApproval {
            flow,
            grant_authorization_url,
            pop_key_id,
        } => {
            assert_eq!(pop_key_id, started_with);
            assert_eq!(grant_authorization_url.expose_url(), "pubkyauth://grant");
            assert_eq!(flow.pending.requested_scopes, record.requested_scopes);
        }
        _ => panic!("both approvals are waited for"),
    }
}

#[test]
fn started_flow_expires_after_five_minutes_to_the_nanosecond() {
    let (_, record) = started(at(1_000));
    let end = at(1_300).unix_nanos();
    let just_before = Timestamp::from_unix_nanos(end - 1).unwrap();
    assert!(matches!(
        loaded(record.clone(), just_before),
        CompleteCreatorConnectFlowState::AwaitEitherApproval { .. }
    ));
    assert!(matches!(
        loaded(record, at(1_300)),
        CompleteCreatorConnectFlowState::DeleteExpiredFlow { .. }
    ));
}

#[test]
fn flow_from_the_table_expires_at_the_microsecond_that_the_table_keeps() {
    let nanos = |nanos: i128| Timestamp::from_unix_nanos(nanos).unwrap();
    let start: i128 = 1_780_056_000_000_000_789;
    let (_, record) = started(nanos(start));
    let kept = start + 300_000_000_000 - 789;
    let found = PendingCreatorConnectFlowRecord { expires_at: nanos(kept), ..record };
    assert!(matches!(
        loaded(found.clone(), nanos(kept - 1)),
        CompleteCreatorConnectFlowState::AwaitEitherApproval { .. }
    ));
    assert!(matches!(
        loaded(found, nanos(kept)),
        CompleteCreatorConnectFlowState::DeleteExpiredFlow { .. }
    ));
}

#[test]
fn frontend_gets_its_state_and_target_back() {
    let (_, record) = started(at(1_000));
    let state = loaded(stored_and_found(record), at(1_010));
    let state = complete_creator_connect_flow(
        state,
        CompleteCreatorConnectFlowEvent::CookieSettled {
            approval: Ok(LegacyCreatorConnectFlowApproval {
                creator: creator(),
                session_secret: CreatorAuthoritySecret::new("cookie"),
            }),
        },
    );
    let state = complete_creator_connect_flow(
        state,
        CompleteCreatorConnectFlowEvent::AuthorityStored { stored: Ok(()) },
    );
    let state = complete_creator_connect_flow(
        state,
        CompleteCreatorConnectFlowEvent::CodeGenerated { code: FrontendSessionCode::new("code") },
    );
    let state = complete_creator_connect_flow(
        state,
        CompleteCreatorConnectFlowEvent::CodeStored { stored: Ok(()) },
    );
    let state = complete_creator_connect_flow(
        state,
        CompleteCreatorConnectFlowEvent::PendingFlowDeleted { deleted: Ok(()) },
    );
    match state {
        CompleteCreatorConnectFlowState::Finished { result: Ok(response) } => {
            assert_eq!(response.state, "opaque-state");
            assert_eq!(response.return_to, "https://pubky.app/locks/connected");
            assert!(response.code_expires_at == at(1_310));
        }
        _ => panic!("every answer was a success"),
    }
}

fn validity() -> CreatorAuthorityValidity {
    let record = CreatorAuthorityRecord {
        creator: creator(),
        auth_kind: CreatorAuthorityAuthKind::Grant,
        granted_scopes: vec!["/pub/locks.app/:rw".to_owned()],
        secret: CreatorAuthoritySecret::new("secret"),
        session_expires_at: Some(at(2_000)),
        last_revalidated_at: None,
    };
    CreatorAuthorityValidity::from_record(&record, None)
}

#[test]
fn stored_answer_stays_whichever_way_the_homeserver_failed_to_confirm() {
    let failures = [
        ApplicationError::CreatorAuthorityUnavailable,
        ApplicationError::CreatorAuthorityRefused,
        ApplicationError::CreatorAuthorityCheckUnavailable,
    ];
    let views: Vec<_> = failures
        .into_iter()
        .map(|failure| {
            let state = GetCreatorAuthorityStatusState::new(
                GetCreatorAuthorityStatusRequest {
                    session_token: FrontendSessionToken::new("token"),
                },
                at(1_000),
            );
            let state = get_creator_authority_status(
                state,
                GetCreatorAuthorityStatusEvent::SessionLoaded {
                    loaded: Ok(Some(FrontendSessionRecord {
                        token: FrontendSessionToken::new("token"),
                        creator: creator(),
                        created_at: at(0),
                        expires_at: at(1_001),
                    })),
                },
            );
            let state = get_creator_authority_status(
                state,
                GetCreatorAuthorityStatusEvent::Revalidated { result: Err(failure) },
            );
            match get_creator_authority_status(
                state,
                GetCreatorAuthorityStatusEvent::ValidityLoaded { loaded: Ok(Some(validity())) },
            ) {
                GetCreatorAuthorityStatusState::Finished { result } => result.unwrap(),
                _ => panic!("the validity was the last answer"),
            }
        })
        .collect();
    assert!(views[0].authorized);
    assert!(views[0] == views[1]);
    assert!(views[1] == views[2]);
    let public = get_public_creator_authority_status(creator(), at(1_000), Ok(Some(validity())));
    assert_eq!(public.unwrap().authorized, views[0].authorized);
}

#[test]
fn unusable_authority_stays_unusable_until_a_later_check_succeeds() {
    let mut stored = validity();
    assert!(stored.is_usable_at(at(1_999)));
    assert!(!stored.is_usable_at(at(2_000)));
    assert!(!stored.is_usable_at(at(3_000)));
    for (outcome, usable) in [
        (CreatorAuthorityCheckOutcome::Refused, false),
        (CreatorAuthorityCheckOutcome::Honored, true),
    ] {
        match outcome {
            CreatorAuthorityCheckOutcome::Refused => stored.refused_at = Some(at(900)),
            CreatorAuthorityCheckOutcome::Honored => stored.refused_at = None,
        }
        assert_eq!(stored.is_usable_at(at(1_000)), usable);
    }
}
