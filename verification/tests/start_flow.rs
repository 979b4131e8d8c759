//! Starting a creator connect flow, driven against stand-ins for the outside.

use creator_authority::creator_authority::{
    CreatorConnectAuthorizationUrl, CreatorConnectFlowId, GrantPopKeyId,
    PendingCreatorConnectFlowRecord,
};
use creator_authority::error::ApplicationError;
use creator_authority::start_creator_connect_flow::{
    default_requested_scopes, start_creator_connect_flow, validate_start_request,
    StartCreatorConnectFlowEvent, StartCreatorConnectFlowRequest, StartCreatorConnectFlowResponse,
    StartCreatorConnectFlowState,
};
use creator_authority::timestamp::Timestamp;

const MINUTE: i128 = 60_000_000_000;

fn at(second: i64) -> Timestamp {
    Timestamp::from_unix_timestamp(second).unwrap()
}

fn request(return_to: &str, state: &str) -> StartCreatorConnectFlowRequest {
    StartCreatorConnectFlowRequest {
        return_to: return_to.to_owned(),
        state: state.to_owned(),
    }
}

fn storage(message: &str) -> ApplicationError {
    ApplicationError::Storage { message: message.to_owned() }
}

/// What the outside was asked for while a flow was started.
#[derive(Default)]
struct Outside {
    legacy_error: Option<ApplicationError>,
    grant_error: Option<ApplicationError>,
    store_error: Option<ApplicationError>,
    legacy_started: Vec<Vec<String>>,
    grant_started: Vec<(Vec<String>, GrantPopKeyId)>,
    stored: Option<PendingCreatorConnectFlowRecord>,
}

impl Outside {
    fn start(
        &mut self,
        request: StartCreatorConnectFlowRequest,
        grant_connect: bool,
        now: Timestamp,
    ) -> Result<StartCreatorConnectFlowResponse, ApplicationError> {
        let mut state = StartCreatorConnectFlowState::new(request, grant_connect);
        loop {
            let event = match &state {
                StartCreatorConnectFlowState::Prepare { .. } => {
                    StartCreatorConnectFlowEvent::Prepared {
                        now,
                        flow_id: CreatorConnectFlowId::new("flow-123"),
                    }
                }
                StartCreatorConnectFlowState::StartLegacyFlow { draft, .. } => {
                    self.legacy_started.push(draft.requested_scopes.clone());
                    StartCreatorConnectFlowEvent::LegacyFlowStarted {
                        started: match self.legacy_error.clone() {
                            Some(error) => Err(error),
                            None => Ok(CreatorConnectAuthorizationUrl::new(
                                "pubkyauth://secret-flow-url",
                            )),
                        },
                    }
                }
                StartCreatorConnectFlowState::StartGrantFlow { draft, pop_key_id, .. } => {
                    self.grant_started
                        .push((draft.requested_scopes.clone(), pop_key_id.clone()));
                    StartCreatorConnectFlowEvent::GrantFlowStarted {
                        started: match self.grant_error.clone() {
                            Some(error) => Err(error),
                            None => Ok(CreatorConnectAuthorizationUrl::new(
                                "pubkyauth://signin_grant?secret-grant-url",
                            )),
                        },
                    }
                }
                StartCreatorConnectFlowState::StorePendingFlow { record } => {
                    let stored = match self.store_error.clone() {
                        Some(error) => Err(error),
                        None => {
                            self.stored = Some(record.clone());
                            Ok(())
                        }
                    };
                    StartCreatorConnectFlowEvent::PendingFlowStored { stored }
                }
                StartCreatorConnectFlowState::Finished { .. } => break,
            };
            state = start_creator_connect_flow(state, event);
        }
        match state {
            StartCreatorConnectFlowState::Finished { result } => result,
            _ => unreachable!(),
        }
    }
}

fn scopes() -> Vec<String> {
    vec![
        "/pub/locks.app/:rw".to_owned(),
        "/priv/locks.app/:rw".to_owned(),
    ]
}

#[test]
fn start_creator_connect_flow_stores_pending_flow_and_returns_safe_response() {
    let now = at(1_700_000_000);
    let mut outside = Outside::default();

    let response = outside
        .start(
            request("https://pubky.app/locks/connected", "opaque-state"),
            false,
            now,
        )
        .unwrap();

    assert!(response.flow_id == CreatorConnectFlowId::new("flow-123"));
    assert_eq!(
        response.authorization_url.expose_url(),
        "pubkyauth://secret-flow-url"
    );
    assert_eq!(response.state, "opaque-state");
    assert!(response.expires_at.unix_nanos() <= now.unix_nanos() + 5 * MINUTE);
    assert_eq!(response.expires_at.unix_nanos(), now.unix_nanos() + 5 * MINUTE);
    assert!(!response.debug_text().contains("secret-flow-url"));

    let stored = outside.stored.expect("pending flow stored");
    assert!(stored.flow_id == response.flow_id);
    assert_eq!(stored.return_to, "https://pubky.app/locks/connected");
    assert_eq!(stored.state, "opaque-state");
    assert_eq!(
        stored.authorization_url.expose_url(),
        "pubkyauth://secret-flow-url"
    );
    assert!(stored.created_at == now);
    assert!(stored.expires_at == response.expires_at);
    assert_eq!(
        stored.requested_scopes,
        vec!["/pub/locks.app/:rw", "/priv/locks.app/:rw"]
    );
    assert!(response.grant_authorization_url.is_none());
    assert!(stored.grant_authorization_url.is_none());
    assert!(outside.grant_started.is_empty());
}

#[test]
fn start_creator_connect_flow_grant_and_cookie_connect_request_identical_caps() {
    let now = at(1_700_000_000);
    let mut outside = Outside::default();

    let response = outside
        .start(
            request("https://pubky.app/locks/connected", "opaque-state"),
            true,
            now,
        )
        .unwrap();

    let stored = outside.stored.expect("pending flow stored");
    assert_eq!(
        stored.authorization_url.expose_url(),
        "pubkyauth://secret-flow-url"
    );
    assert_eq!(
        stored
            .grant_authorization_url
            .as_ref()
            .map(|url| url.expose_url()),
        Some("pubkyauth://signin_grant?secret-grant-url")
    );
    assert!(response.grant_authorization_url == stored.grant_authorization_url);
    assert!(!response.debug_text().contains("secret-grant-url"));
    assert!(!stored.debug_text().contains("secret-grant-url"));
    assert_eq!(
        outside.grant_started,
        vec![(
            vec![
                "/pub/locks.app/:rw".to_owned(),
                "/priv/locks.app/:rw".to_owned()
            ],
            GrantPopKeyId::for_connect_flow(&CreatorConnectFlowId::new("flow-123")),
        )]
    );
    assert_eq!(outside.grant_started[0].0, stored.requested_scopes);
    assert_eq!(outside.legacy_started, vec![scopes()]);
}

#[test]
fn start_creator_connect_flow_rejects_empty_state_and_return_to_before_starting_sdk_flow() {
    let now = at(1_700_000_000);
    let mut outside = Outside::default();

    for request in [
        request("", "state"),
        request("https://pubky.app/locks/connected", ""),
    ] {
        let error = outside.start(request, false, now).err().unwrap();
        assert!(matches!(error, ApplicationError::Storage { .. }));
    }

    assert!(outside.stored.is_none());
    assert!(outside.legacy_started.is_empty());
}

#[test]
fn blank_request_fields_are_told_apart_and_return_to_comes_first() {
    assert_eq!(
        validate_start_request(&request(" \t\u{3000}\n", " ")),
        Err(storage("creator connect return_to is required"))
    );
    assert_eq!(
        validate_start_request(&request("x", "\u{a0}\u{2003}")),
        Err(storage("creator connect state is required"))
    );
    assert_eq!(validate_start_request(&request(" x ", "\u{200b}")), Ok(()));
}

#[test]
fn blank_text_is_what_trimming_leaves_empty() {
    for code in 0..=0x10ffffu32 {
        if let Some(c) = char::from_u32(code) {
            let text = c.to_string();
            assert_eq!(
                creator_authority::text::is_blank_text(&text),
                text.trim().is_empty(),
                "{code:x}"
            );
        }
    }
    assert!(creator_authority::text::is_blank_text(""));
}

#[test]
fn first_start_failure_is_the_answer_and_stores_nothing() {
    let now = at(1_700_000_000);
    let request = || request("https://pubky.app/locks/connected", "opaque-state");

    let mut legacy_fails = Outside {
        legacy_error: Some(storage("legacy")),
        grant_error: Some(storage("grant")),
        ..Outside::default()
    };
    assert_eq!(
        legacy_fails.start(request(), true, now).err(),
        Some(storage("legacy"))
    );
    assert!(legacy_fails.grant_started.is_empty());
    assert!(legacy_fails.stored.is_none());

    let mut grant_fails = Outside {
        grant_error: Some(storage("grant")),
        ..Outside::default()
    };
    assert_eq!(
        grant_fails.start(request(), true, now).err(),
        Some(storage("grant"))
    );
    assert!(grant_fails.stored.is_none());

    let mut store_fails = Outside {
        store_error: Some(ApplicationError::DuplicateRecord {
            record: "pending_creator_connect_flow",
        }),
        ..Outside::default()
    };
    assert_eq!(
        store_fails.start(request(), false, now).err(),
        Some(ApplicationError::DuplicateRecord {
            record: "pending_creator_connect_flow",
        })
    );
}

#[test]
fn start_state_ignores_an_answer_that_it_does_not_wait_for() {
    let state = StartCreatorConnectFlowState::new(request("r", "s"), true);
    let state = start_creator_connect_flow(
        state,
        StartCreatorConnectFlowEvent::PendingFlowStored { stored: Ok(()) },
    );
    assert!(matches!(
        state,
        StartCreatorConnectFlowState::Prepare { grant_connect: true, .. }
    ));
}

#[test]
fn default_scopes_are_the_public_and_private_directory() {
    assert_eq!(default_requested_scopes(), scopes());
}

#[test]
fn expiry_is_told_at_the_offset_of_the_clock() {
    let now = Timestamp::from_unix_nanos_at_offset(1_700_000_000_000_000_000, 7_200).unwrap();
    let mut outside = Outside::default();
    let response = outside
        .start(request("https://pubky.app/locks/connected", "opaque-state"), false, now)
        .unwrap();
    assert_eq!(response.expires_at.unix_nanos(), 1_700_000_300_000_000_000);
    assert_eq!(response.expires_at.offset_seconds(), 7_200);
    let stored = outside.stored.unwrap();
    assert_eq!(stored.created_at.offset_seconds(), 7_200);
    assert_eq!(stored.expires_at.offset_seconds(), 7_200);
}
