//! Keeping pending connect flows, with an ordered map of rows in the place of the database table.

use std::collections::BTreeMap;

use creator_authority::creator_authority::{
    CreatorConnectAuthorizationUrl, CreatorConnectFlowId, PendingCreatorConnectFlowRecord,
};
use creator_authority::creator_connect_flows::{
    begin_delete, begin_get, delete_pending_creator_connect_flow,
    get_pending_creator_connect_flow, grant_companion_flow_id,
    insert_pending_creator_connect_flow, is_grant_companion_flow_id, row_to_record, storage_error,
    DeletePendingFlow, GetPendingFlow, InsertPendingFlowEvent, InsertPendingFlowState,
    PendingFlowRow, SelectedFlow,
};
use creator_authority::error::ApplicationError;
use creator_authority::timestamp::Timestamp;

/// The content of a stored row.
#[derive(Clone)]
struct Content {
    return_to: String,
    state: String,
    authorization_url: String,
    requested_scopes: Vec<String>,
    created_at: Timestamp,
    expires_at: Timestamp,
}

#[derive(Clone, Default)]
struct Store {
    rows: BTreeMap<String, Content>,
    /// Which statement of an insert fails, counted from the beginning of the transaction.
    failing: Option<usize>,
}

/// What a time column keeps: whole microseconds since 2000, and no offset.
fn kept(at: Timestamp) -> Timestamp {
    let epoch = 946_684_800_000_000_000;
    let micros = (at.unix_nanos() - epoch) / 1_000;
    Timestamp::from_unix_nanos(epoch + micros * 1_000).unwrap()
}

fn offer(rows: &mut BTreeMap<String, Content>, row: &PendingFlowRow) -> u64 {
    if rows.contains_key(&row.flow_id) {
        return 0;
    }
    rows.insert(
        row.flow_id.clone(),
        Content {
            return_to: row.return_to.clone(),
            state: row.state.clone(),
            authorization_url: row.authorization_url.clone(),
            requested_scopes: row.requested_scopes.clone(),
            created_at: kept(row.created_at),
            expires_at: kept(row.expires_at),
        },
    );
    1
}

impl Store {
    fn insert(&mut self, record: PendingCreatorConnectFlowRecord) -> Result<(), ApplicationError> {
        let mut working = self.rows.clone();
        let mut state = InsertPendingFlowState::new(record);
        let failing = self.failing;
        let fails = |statement: usize| {
            if failing == Some(statement) {
                Err("down".to_owned())
            } else {
                Ok(())
            }
        };
        loop {
            let event = match &state {
                InsertPendingFlowState::Begin { .. } => {
                    InsertPendingFlowEvent::Begun { begun: fails(0) }
                }
                InsertPendingFlowState::InsertFlow { row, .. } => {
                    InsertPendingFlowEvent::RowInserted {
                        rows_affected: fails(1).map(|_| offer(&mut working, row)),
                    }
                }
                InsertPendingFlowState::InsertCompanion { row } => {
                    InsertPendingFlowEvent::RowInserted {
                        rows_affected: fails(2).map(|_| offer(&mut working, row)),
                    }
                }
                InsertPendingFlowState::Commit => {
                    let committed = fails(3);
                    if committed.is_ok() {
                        self.rows = working.clone();
                    }
                    InsertPendingFlowEvent::Committed { committed }
                }
                InsertPendingFlowState::Finished { .. } => break,
            };
            state = insert_pending_creator_connect_flow(state, event);
        }
        match state {
            InsertPendingFlowState::Finished { result } => result,
            _ => unreachable!(),
        }
    }

    fn get(
        &self,
        flow_id: &CreatorConnectFlowId,
    ) -> Result<Option<PendingCreatorConnectFlowRecord>, ApplicationError> {
        let keys = match begin_get(flow_id) {
            GetPendingFlow::Select { keys } => keys,
            GetPendingFlow::Finished { result } => return result,
        };
        let selected = self.rows.get(&keys.flow_id).map(|row| {
            selected_flow(
                &keys.flow_id,
                row,
                self.rows
                    .get(&keys.grant_flow_id)
                    .map(|row| row.authorization_url.clone()),
            )
        });
        get_pending_creator_connect_flow(Ok(selected))
    }

    fn delete(&mut self, flow_id: &CreatorConnectFlowId) -> Result<(), ApplicationError> {
        match begin_delete(flow_id) {
            DeletePendingFlow::Delete { keys } => {
                self.rows.remove(&keys.flow_id);
                self.rows.remove(&keys.grant_flow_id);
                delete_pending_creator_connect_flow(Ok(()))
            }
            DeletePendingFlow::Finished { result } => result,
        }
    }
}

fn selected_flow(flow_id: &str, row: &Content, grant_url: Option<String>) -> SelectedFlow {
    SelectedFlow {
        flow_id: Ok(flow_id.to_owned()),
        return_to: Ok(row.return_to.clone()),
        state: Ok(row.state.clone()),
        authorization_url: Ok(row.authorization_url.clone()),
        grant_authorization_url: Ok(grant_url),
        requested_scopes: Ok(row.requested_scopes.clone()),
        created_at: Ok(row.created_at),
        expires_at: Ok(row.expires_at),
    }
}

fn pending_flow_record(flow_id: CreatorConnectFlowId) -> PendingCreatorConnectFlowRecord {
    PendingCreatorConnectFlowRecord {
        flow_id,
        return_to: "https://app.example/locks/callback".to_owned(),
        state: "state-123".to_owned(),
        authorization_url: CreatorConnectAuthorizationUrl::new("pubkyauth://secret-flow-token"),
        grant_authorization_url: None,
        requested_scopes: vec![
            "/pub/locks.app/:rw".to_owned(),
            "/priv/locks.app/:rw".to_owned(),
        ],
        // 2026-05-29 12:00:00 UTC and 12:05:00 UTC
        created_at: Timestamp::from_unix_timestamp(1_780_056_000).unwrap(),
        expires_at: Timestamp::from_unix_timestamp(1_780_056_300).unwrap(),
    }
}

fn grant_flow_record(flow_id: CreatorConnectFlowId) -> PendingCreatorConnectFlowRecord {
    PendingCreatorConnectFlowRecord {
        grant_authorization_url: Some(CreatorConnectAuthorizationUrl::new(
            "pubkyauth://signin_grant?secret-grant-token",
        )),
        ..pending_flow_record(flow_id)
    }
}

fn duplicate() -> ApplicationError {
    ApplicationError::DuplicateRecord { record: "pending_creator_connect_flow" }
}

fn storage(message: &str) -> ApplicationError {
    ApplicationError::Storage { message: message.to_owned() }
}

#[test]
fn insert_get_delete_and_missing_semantics_match_port_contract() {
    let mut store = Store::default();
    let flow_id = CreatorConnectFlowId::new("flow-123");
    let record = pending_flow_record(flow_id.clone());

    assert!(store.get(&flow_id).unwrap().is_none());

    store.insert(record.clone()).unwrap();
    assert!(store.get(&flow_id).unwrap() == Some(record.clone()));

    store.delete(&flow_id).unwrap();
    store.delete(&flow_id).unwrap();
    assert!(store.get(&flow_id).unwrap().is_none());
}

#[test]
fn record_survives_store_recreation_and_debug_output_redacts_authorization_url() {
    let mut original_store = Store::default();
    let flow_id = CreatorConnectFlowId::new("flow-123");
    let authorization_url = "pubkyauth://secret-flow-token";
    let record = PendingCreatorConnectFlowRecord {
        authorization_url: CreatorConnectAuthorizationUrl::new(authorization_url),
        ..pending_flow_record(flow_id.clone())
    };

    original_store.insert(record.clone()).unwrap();
    let recreated_store = original_store.clone();

    let loaded = recreated_store
        .get(&flow_id)
        .unwrap()
        .expect("stored pending flow");
    assert!(loaded == record);
    assert_eq!(loaded.authorization_url.expose_url(), authorization_url);
    assert!(!loaded.debug_text().contains(authorization_url));
}

#[test]
fn grant_url_round_trips_in_companion_row_without_schema_change() {
    let mut store = Store::default();
    let flow_id = CreatorConnectFlowId::new("flow-123");
    let record = grant_flow_record(flow_id.clone());

    store.insert(record.clone()).unwrap();

    let loaded = store.get(&flow_id).unwrap().expect("stored pending flow");
    assert!(loaded == record);
    assert!(!loaded.debug_text().contains("secret-grant-token"));

    let rows: Vec<(String, String)> = store
        .rows
        .iter()
        .map(|(key, row)| (key.clone(), row.authorization_url.clone()))
        .collect();
    assert_eq!(
        rows,
        vec![
            (
                "flow-123".to_owned(),
                "pubkyauth://secret-flow-token".to_owned()
            ),
            (
                "flow-123.grant".to_owned(),
                "pubkyauth://signin_grant?secret-grant-token".to_owned()
            ),
        ]
    );
    assert!(
        store
            .get(&CreatorConnectFlowId::new("flow-123.grant"))
            .unwrap()
            .is_none(),
        "a companion row is never a pending flow of its own"
    );
    store
        .delete(&CreatorConnectFlowId::new("flow-123.grant"))
        .unwrap();
    assert_eq!(store.rows.len(), 2);

    store.delete(&flow_id).unwrap();
    assert_eq!(store.rows.len(), 0);

    let reserved = store
        .insert(pending_flow_record(CreatorConnectFlowId::new(
            "flow-123.grant",
        )))
        .unwrap_err();
    assert!(matches!(reserved, ApplicationError::Storage { .. }));
    assert_eq!(
        reserved,
        storage("pending creator connect flow id is reserved")
    );
}

#[test]
fn taken_flow_id_is_a_duplicate_and_changes_nothing() {
    let mut store = Store::default();
    let flow_id = CreatorConnectFlowId::new("flow-123");
    store.insert(pending_flow_record(flow_id.clone())).unwrap();

    assert_eq!(store.insert(grant_flow_record(flow_id.clone())), Err(duplicate()));

    assert_eq!(store.rows.len(), 1);
    assert!(store.get(&flow_id).unwrap() == Some(pending_flow_record(flow_id)));
}

#[test]
fn taken_companion_key_is_a_duplicate_too() {
    let row_of = |record| match InsertPendingFlowState::new(record) {
        InsertPendingFlowState::Begin { row, companion } => (row, companion),
        _ => panic!("the id is not reserved"),
    };
    let (row, companion) = row_of(grant_flow_record(CreatorConnectFlowId::new("flow-123")));
    assert_eq!(row.flow_id, "flow-123");
    assert_eq!(companion.as_ref().unwrap().flow_id, "flow-123.grant");
    let state = InsertPendingFlowState::InsertCompanion { row: companion.unwrap() };
    let state = insert_pending_creator_connect_flow(
        state,
        InsertPendingFlowEvent::RowInserted { rows_affected: Ok(0) },
    );
    assert!(matches!(
        state,
        InsertPendingFlowState::Finished { result: Err(error) } if error == duplicate()
    ));
}

#[test]
fn other_flows_stay_when_one_is_deleted() {
    let mut store = Store::default();
    let left = CreatorConnectFlowId::new("left");
    let right = CreatorConnectFlowId::new("right");
    store.insert(grant_flow_record(left.clone())).unwrap();
    store.insert(grant_flow_record(right.clone())).unwrap();
    store.delete(&left).unwrap();
    assert!(store.get(&left).unwrap().is_none());
    assert!(store.get(&right).unwrap() == Some(grant_flow_record(right)));
}

#[test]
fn failed_statements_are_storage_errors() {
    let begin = || InsertPendingFlowState::new(grant_flow_record(CreatorConnectFlowId::new("f")));
    let failed = |state, event| match insert_pending_creator_connect_flow(state, event) {
        InsertPendingFlowState::Finished { result } => result,
        _ => panic!("a failed statement ends the insert"),
    };
    let down = || "down".to_owned();
    assert_eq!(
        failed(begin(), InsertPendingFlowEvent::Begun { begun: Err(down()) }),
        Err(storage("down"))
    );
    let inserting = insert_pending_creator_connect_flow(
        begin(),
        InsertPendingFlowEvent::Begun { begun: Ok(()) },
    );
    assert_eq!(
        failed(
            inserting,
            InsertPendingFlowEvent::RowInserted { rows_affected: Err(down()) }
        ),
        Err(storage("down"))
    );
    assert_eq!(
        failed(
            InsertPendingFlowState::Commit,
            InsertPendingFlowEvent::Committed { committed: Err(down()) }
        ),
        Err(storage("down"))
    );
    assert_eq!(
        get_pending_creator_connect_flow(Err(down())).err(),
        Some(storage("down"))
    );
    assert_eq!(
        delete_pending_creator_connect_flow(Err(down())),
        Err(storage("down"))
    );
    assert_eq!(storage_error(down()), storage("down"));
}

#[test]
fn failed_statement_of_any_kind_leaves_the_rows_as_they_were() {
    for failing in 0..4 {
        let mut store = Store::default();
        store
            .insert(grant_flow_record(CreatorConnectFlowId::new("other")))
            .unwrap();
        store.failing = Some(failing);
        let flow_id = CreatorConnectFlowId::new("flow-123");
        assert_eq!(
            store.insert(grant_flow_record(flow_id.clone())),
            Err(storage("down")),
            "{failing}"
        );
        assert_eq!(store.rows.len(), 2);
        assert!(store.get(&flow_id).unwrap().is_none());
        store.failing = None;
        store.insert(grant_flow_record(flow_id.clone())).unwrap();
        assert!(store.get(&flow_id).unwrap() == Some(grant_flow_record(flow_id)));
    }
}

#[test]
fn stray_companion_row_is_a_duplicate_for_a_flow_with_a_grant_url_only() {
    let mut store = Store::default();
    let flow_id = CreatorConnectFlowId::new("flow-123");
    store.insert(grant_flow_record(flow_id.clone())).unwrap();
    store.rows.remove("flow-123");

    assert_eq!(store.insert(grant_flow_record(flow_id.clone())), Err(duplicate()));
    assert_eq!(store.rows.len(), 1);
    store.insert(pending_flow_record(flow_id)).unwrap();
    assert_eq!(store.rows.len(), 2);
}

#[test]
fn reserved_ids_are_answered_without_the_table() {
    for text in ["flow-123.grant", ".grant", "a.grant.grant"] {
        let flow_id = CreatorConnectFlowId::new(text);
        assert!(matches!(
            begin_get(&flow_id),
            GetPendingFlow::Finished { result: Ok(None) }
        ));
        assert!(matches!(
            begin_delete(&flow_id),
            DeletePendingFlow::Finished { result: Ok(()) }
        ));
    }
    let flow_id = CreatorConnectFlowId::new("flow-123");
    match (begin_get(&flow_id), begin_delete(&flow_id)) {
        (GetPendingFlow::Select { keys: read }, DeletePendingFlow::Delete { keys: deleted }) => {
            for keys in [read, deleted] {
                assert_eq!(keys.flow_id, "flow-123");
                assert_eq!(keys.grant_flow_id, "flow-123.grant");
            }
        }
        _ => panic!("the id is not reserved"),
    }
}

#[test]
fn times_are_read_back_to_the_microsecond_and_in_utc() {
    let flow_id = CreatorConnectFlowId::new("flow-123");
    let read_back = |created: i128, expires: i128| {
        let mut store = Store::default();
        store
            .insert(PendingCreatorConnectFlowRecord {
                created_at: Timestamp::from_unix_nanos_at_offset(created, 3_600).unwrap(),
                expires_at: Timestamp::from_unix_nanos_at_offset(expires, -3_600).unwrap(),
                ..pending_flow_record(flow_id.clone())
            })
            .unwrap();
        let read = store.get(&flow_id).unwrap().unwrap();
        assert_eq!(read.created_at.offset_seconds(), 0);
        assert_eq!(read.expires_at.offset_seconds(), 0);
        (read.created_at.unix_nanos(), read.expires_at.unix_nanos())
    };
    assert_eq!(
        read_back(1_780_056_000_123_456_789, 1_780_056_300_123_456_000),
        (1_780_056_000_123_456_000, 1_780_056_300_123_456_000)
    );
    assert_eq!(read_back(-1_999, -1), (-1_000, 0));
}

#[test]
fn first_unreadable_column_is_told() {
    let mut store = Store::default();
    store
        .insert(pending_flow_record(CreatorConnectFlowId::new("flow-123")))
        .unwrap();
    let row = &store.rows["flow-123"];
    let read = || selected_flow("flow-123", row, None);
    assert!(row_to_record(read()).is_ok());
    let unreadable = SelectedFlow {
        flow_id: Err("flow_id".to_owned()),
        return_to: Err("return_to".to_owned()),
        state: Err("state".to_owned()),
        authorization_url: Err("authorization_url".to_owned()),
        grant_authorization_url: Err("grant_authorization_url".to_owned()),
        requested_scopes: Err("requested_scopes".to_owned()),
        created_at: Err("created_at".to_owned()),
        expires_at: Err("expires_at".to_owned()),
    };
    assert_eq!(row_to_record(unreadable).err(), Some(storage("flow_id")));
    let scopes_and_target = SelectedFlow {
        requested_scopes: Err("requested_scopes".to_owned()),
        return_to: Err("return_to".to_owned()),
        ..read()
    };
    assert_eq!(
        get_pending_creator_connect_flow(Ok(Some(scopes_and_target))).err(),
        Some(storage("requested_scopes"))
    );
    let last = SelectedFlow { expires_at: Err("expires_at".to_owned()), ..read() };
    assert_eq!(row_to_record(last).err(), Some(storage("expires_at")));
}

#[test]
fn companion_keys_close_with_the_suffix() {
    let id = |text: &str| CreatorConnectFlowId::new(text);
    assert_eq!(grant_companion_flow_id(&id("flow-123")), "flow-123.grant");
    assert!(is_grant_companion_flow_id(&id("flow-123.grant")));
    assert!(is_grant_companion_flow_id(&id(".grant")));
    assert!(!is_grant_companion_flow_id(&id("flow-123")));
    assert!(!is_grant_companion_flow_id(&id("grant")));
    assert!(!is_grant_companion_flow_id(&id("flow.grant.")));
    assert!(!is_grant_companion_flow_id(&id("")));
}
