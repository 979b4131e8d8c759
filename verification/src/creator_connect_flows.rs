//! Keeping short-lived pending creator connect flows in a table of rows.
//!
//! A flow's grant authorization URL lives in a companion row of its own instead of a new column,
//! so the schema is unchanged: an image without grant support still works against the same
//! table, and it never reads a companion row because server-generated flow ids contain no `.`.

use vstd::prelude::*;
use vstd::string::*;

use crate::creator_authority::{
    CreatorConnectAuthorizationUrl, CreatorConnectFlowId, PendingCreatorConnectFlowRecord,
};
use crate::error::{ApplicationError, ErrorView};
use crate::text::{closes_with, copy_texts, texts};
use crate::timestamp::{Timestamp, NANOS_PER_SECOND};

verus! {

/// Key of the companion row that holds the grant authorization URL of the flow `flow_id`.
pub open spec fn companion_id(flow_id: Seq<char>) -> Seq<char> {
    flow_id + ".grant"@
}

/// `flow_id` has the form of a companion row's key.
pub open spec fn is_companion_id(flow_id: Seq<char>) -> bool {
    ".grant"@.is_suffix_of(flow_id)
}

/// Key of the companion row that holds a flow's grant authorization URL.
pub fn grant_companion_flow_id(flow_id: &CreatorConnectFlowId) -> (key: String)
    ensures
        key@ == companion_id(flow_id@),
{
    flow_id.as_str().to_owned().concat(".grant")
}

/// Whether the ID is reserved for companion rows.
pub fn is_grant_companion_flow_id(flow_id: &CreatorConnectFlowId) -> (companion: bool)
    ensures
        companion == is_companion_id(flow_id@),
{
    closes_with(flow_id.as_str(), ".grant")
}

/// A point in time and the offset from UTC in which it is told.
pub struct Moment {
    pub unix_nanos: int,
    pub offset: int,
}

/// The moment that `at` names.
pub open spec fn moment(at: Timestamp) -> Moment {
    Moment { unix_nanos: at@, offset: at.offset() }
}

/// Where a time column begins to count: the year 2000, UTC, in seconds since the Unix epoch.
pub const COLUMN_EPOCH: i128 = 946_684_800;

/// What a time column keeps of a point in time: the whole microseconds between the column's epoch
/// and the point.
pub open spec fn column_nanos(unix_nanos: int) -> int {
    let since = unix_nanos - COLUMN_EPOCH * NANOS_PER_SECOND;
    if since >= 0 {
        unix_nanos - since % 1000
    } else {
        unix_nanos + (-since) % 1000
    }
}

/// What a time column gives back of a moment: it keeps no offset.
pub open spec fn stored_moment(at: Moment) -> Moment {
    Moment { unix_nanos: column_nanos(at.unix_nanos), offset: 0 }
}

/// Row of the table of pending flows.
#[derive(PartialEq, Eq)]
pub struct PendingFlowRow {
    /// Primary key.
    pub flow_id: String,
    /// Redirect/callback target.
    pub return_to: String,
    /// CSRF/correlation state.
    pub state: String,
    /// Secret-bearing authorization URL.
    pub authorization_url: String,
    /// Requested scopes.
    pub requested_scopes: Vec<String>,
    /// Creation timestamp.
    pub created_at: Timestamp,
    /// Expiration timestamp.
    pub expires_at: Timestamp,
}

/// What the columns of a row besides its key hold.
pub struct RowContent {
    pub return_to: Seq<char>,
    pub state: Seq<char>,
    pub authorization_url: Seq<char>,
    pub requested_scopes: Seq<Seq<char>>,
    pub created_at: Moment,
    pub expires_at: Moment,
}

impl PendingFlowRow {
    /// What the columns besides the key hold.
    pub open spec fn content(self) -> RowContent {
        RowContent {
            return_to: self.return_to@,
            state: self.state@,
            authorization_url: self.authorization_url@,
            requested_scopes: texts(self.requested_scopes@),
            created_at: moment(self.created_at),
            expires_at: moment(self.expires_at),
        }
    }
}

/// What a pending flow holds.
pub struct FlowContent {
    pub flow_id: Seq<char>,
    pub return_to: Seq<char>,
    pub state: Seq<char>,
    pub authorization_url: Seq<char>,
    pub grant_authorization_url: Option<Seq<char>>,
    pub requested_scopes: Seq<Seq<char>>,
    pub created_at: Moment,
    pub expires_at: Moment,
}

/// What the pending flow `record` holds.
pub open spec fn flow_content(record: PendingCreatorConnectFlowRecord) -> FlowContent {
    FlowContent {
        flow_id: record.flow_id@,
        return_to: record.return_to@,
        state: record.state@,
        authorization_url: record.authorization_url@,
        grant_authorization_url: match record.grant_authorization_url {
            Some(url) => Some(url@),
            None => None,
        },
        requested_scopes: texts(record.requested_scopes@),
        created_at: moment(record.created_at),
        expires_at: moment(record.expires_at),
    }
}

/// Content of the row of a flow that holds the given URL.
pub open spec fn row_content(flow: FlowContent, authorization_url: Seq<char>) -> RowContent {
    RowContent {
        return_to: flow.return_to,
        state: flow.state,
        authorization_url,
        requested_scopes: flow.requested_scopes,
        created_at: flow.created_at,
        expires_at: flow.expires_at,
    }
}

/// What the columns of a row give back of its content.
pub open spec fn stored_row(row: RowContent) -> RowContent {
    RowContent {
        created_at: stored_moment(row.created_at),
        expires_at: stored_moment(row.expires_at),
        ..row
    }
}

/// What is given back of a flow that was stored: all of it, with its times as the columns keep
/// them.
pub open spec fn stored_flow(flow: FlowContent) -> FlowContent {
    FlowContent {
        created_at: stored_moment(flow.created_at),
        expires_at: stored_moment(flow.expires_at),
        ..flow
    }
}

/// `row` is the flow's own row.
pub open spec fn is_flow_row(flow: FlowContent, row: PendingFlowRow) -> bool {
    &&& row.flow_id@ == flow.flow_id
    &&& row.content() == row_content(flow, flow.authorization_url)
}

/// `row` is the flow's companion row, absent exactly when the flow has no grant URL.
pub open spec fn is_companion_row(flow: FlowContent, row: Option<PendingFlowRow>) -> bool {
    match (row, flow.grant_authorization_url) {
        (Some(row), Some(url)) => row.flow_id@ == companion_id(flow.flow_id) && row.content()
            == row_content(flow, url),
        (None, None) => true,
        _ => false,
    }
}

/// The error that tells of a failed statement.
pub fn storage_error(message: String) -> (error: ApplicationError)
    ensures
        error@ == (ErrorView::Storage { message: message@ }),
{
    ApplicationError::Storage { message }
}

/// What the caller has to do next to insert a pending flow.
pub enum InsertPendingFlowState {
    /// Begin a transaction.
    Begin {
        /// The flow's own row.
        row: PendingFlowRow,
        /// The flow's companion row.
        companion: Option<PendingFlowRow>,
    },
    /// Insert the flow's own row, unless its key is taken.
    InsertFlow {
        /// The row to insert.
        row: PendingFlowRow,
        /// The flow's companion row.
        companion: Option<PendingFlowRow>,
    },
    /// Insert the flow's companion row, unless its key is taken.
    InsertCompanion {
        /// The row to insert.
        row: PendingFlowRow,
    },
    /// Commit the transaction.
    Commit,
    /// Nothing: this is the answer. An open transaction is rolled back.
    Finished {
        /// The answer.
        result: Result<(), ApplicationError>,
    },
}

/// What the caller reports back while a pending flow is inserted.
pub enum InsertPendingFlowEvent {
    /// The transaction was begun, or could not be.
    Begun {
        /// Whether it was; else why not.
        begun: Result<(), String>,
    },
    /// The row was offered to the table.
    RowInserted {
        /// Number of rows that went in; else why the statement failed.
        rows_affected: Result<u64, String>,
    },
    /// The transaction was committed, or could not be.
    Committed {
        /// Whether it was; else why not.
        committed: Result<(), String>,
    },
}

/// The answer is `error`.
pub open spec fn insert_fails_with(state: InsertPendingFlowState, error: ErrorView) -> bool {
    &&& state matches InsertPendingFlowState::Finished { result: Err(found) }
    &&& found@ == error
}

/// Where inserting `flow` begins: a reserved ID is turned away before anything is begun.
pub open spec fn insert_begins(flow: FlowContent, state: InsertPendingFlowState) -> bool {
    if is_companion_id(flow.flow_id) {
        insert_fails_with(
            state,
            ErrorView::Storage { message: "pending creator connect flow id is reserved"@ },
        )
    } else {
        &&& state matches InsertPendingFlowState::Begin { row, companion }
        &&& is_flow_row(flow, row)
        &&& is_companion_row(flow, companion)
    }
}

/// What follows `state` when `event` is reported. An event that the state does not wait for
/// changes nothing.
pub open spec fn insert_step(
    state: InsertPendingFlowState,
    event: InsertPendingFlowEvent,
    next: InsertPendingFlowState,
) -> bool {
    match (state, event) {
        (
            InsertPendingFlowState::Begin { row, companion },
            InsertPendingFlowEvent::Begun { begun },
        ) => match begun {
            Err(message) => insert_fails_with(next, ErrorView::Storage { message: message@ }),
            Ok(_) => next == (InsertPendingFlowState::InsertFlow { row, companion }),
        },
        (
            InsertPendingFlowState::InsertFlow { companion, .. },
            InsertPendingFlowEvent::RowInserted { rows_affected },
        ) => match rows_affected {
            Err(message) => insert_fails_with(next, ErrorView::Storage { message: message@ }),
            Ok(rows_affected) => if rows_affected == 0 {
                insert_fails_with(
                    next,
                    ErrorView::DuplicateRecord { record: "pending_creator_connect_flow"@ },
                )
            } else {
                match companion {
                    Some(row) => next == (InsertPendingFlowState::InsertCompanion { row }),
                    None => next is Commit,
                }
            },
        },
        (
            InsertPendingFlowState::InsertCompanion { .. },
            InsertPendingFlowEvent::RowInserted { rows_affected },
        ) => match rows_affected {
            Err(message) => insert_fails_with(next, ErrorView::Storage { message: message@ }),
            Ok(rows_affected) => if rows_affected == 0 {
                insert_fails_with(
                    next,
                    ErrorView::DuplicateRecord { record: "pending_creator_connect_flow"@ },
                )
            } else {
                next is Commit
            },
        },
        (InsertPendingFlowState::Commit, InsertPendingFlowEvent::Committed { committed }) =>
            match committed {
            Err(message) => insert_fails_with(next, ErrorView::Storage { message: message@ }),
            Ok(_) => next == (InsertPendingFlowState::Finished { result: Ok(()) }),
        },
        (_, _) => next == state,
    }
}

impl InsertPendingFlowState {
    /// Begins to insert `record`, or turns it away.
    pub fn new(record: PendingCreatorConnectFlowRecord) -> (state: Self)
        ensures
            insert_begins(flow_content(record), state),
    {
        if is_grant_companion_flow_id(&record.flow_id) {
            return InsertPendingFlowState::Finished {
                result: Err(
                    ApplicationError::Storage {
                        message: "pending creator connect flow id is reserved".to_owned(),
                    },
                ),
            };
        }
        let companion = match &record.grant_authorization_url {
            Some(url) => Some(
                PendingFlowRow {
                    flow_id: grant_companion_flow_id(&record.flow_id),
                    return_to: record.return_to.clone(),
                    state: record.state.clone(),
                    authorization_url: url.expose_url().to_owned(),
                    requested_scopes: copy_texts(&record.requested_scopes),
                    created_at: record.created_at,
                    expires_at: record.expires_at,
                },
            ),
            None => None,
        };
        let row = PendingFlowRow {
            flow_id: record.flow_id.as_str().to_owned(),
            return_to: record.return_to,
            state: record.state,
            authorization_url: record.authorization_url.expose_url().to_owned(),
            requested_scopes: record.requested_scopes,
            created_at: record.created_at,
            expires_at: record.expires_at,
        };
        InsertPendingFlowState::Begin { row, companion }
    }
}

fn duplicate_flow() -> (error: ApplicationError)
    ensures
        error@ == (ErrorView::DuplicateRecord { record: "pending_creator_connect_flow"@ }),
{
    ApplicationError::DuplicateRecord { record: "pending_creator_connect_flow" }
}

/// Inserts a pending flow, one answer at a time.
pub fn insert_pending_creator_connect_flow(
    state: InsertPendingFlowState,
    event: InsertPendingFlowEvent,
) -> (next: InsertPendingFlowState)
    ensures
        insert_step(state, event, next),
{
    match (state, event) {
        (
            InsertPendingFlowState::Begin { row, companion },
            InsertPendingFlowEvent::Begun { begun },
        ) => match begun {
            Err(message) => InsertPendingFlowState::Finished {
                result: Err(storage_error(message)),
            },
            Ok(_) => InsertPendingFlowState::InsertFlow { row, companion },
        },
        (
            InsertPendingFlowState::InsertFlow { companion, .. },
            InsertPendingFlowEvent::RowInserted { rows_affected },
        ) => match rows_affected {
            Err(message) => InsertPendingFlowState::Finished {
                result: Err(storage_error(message)),
            },
            Ok(rows_affected) => if rows_affected == 0 {
                InsertPendingFlowState::Finished { result: Err(duplicate_flow()) }
            } else {
                match companion {
                    Some(row) => InsertPendingFlowState::InsertCompanion { row },
                    None => InsertPendingFlowState::Commit,
                }
            },
        },
        (
            InsertPendingFlowState::InsertCompanion { .. },
            InsertPendingFlowEvent::RowInserted { rows_affected },
        ) => match rows_affected {
            Err(message) => InsertPendingFlowState::Finished {
                result: Err(storage_error(message)),
            },
            Ok(rows_affected) => if rows_affected == 0 {
                InsertPendingFlowState::Finished { result: Err(duplicate_flow()) }
            } else {
                InsertPendingFlowState::Commit
            },
        },
        (InsertPendingFlowState::Commit, InsertPendingFlowEvent::Committed { committed }) =>
            match committed {
            Err(message) => InsertPendingFlowState::Finished {
                result: Err(storage_error(message)),
            },
            Ok(_) => InsertPendingFlowState::Finished { result: Ok(()) },
        },
        (state, _) => state,
    }
}

/// The keys under which a flow's rows stand.
pub struct FlowKeys {
    /// Key of the flow's own row.
    pub flow_id: String,
    /// Key of the flow's companion row.
    pub grant_flow_id: String,
}

/// `keys` are the keys of the rows of `flow_id`; an ID that is reserved for companion rows has
/// none.
pub open spec fn are_flow_keys(flow_id: Seq<char>, keys: Option<FlowKeys>) -> bool {
    match keys {
        Some(keys) => {
            &&& !is_companion_id(flow_id)
            &&& keys.flow_id@ == flow_id
            &&& keys.grant_flow_id@ == companion_id(flow_id)
        },
        None => is_companion_id(flow_id),
    }
}

/// The keys of the rows to read or delete for `flow_id`, `None` for an ID that is reserved for
/// companion rows: a companion row is never a pending flow of its own.
fn pending_flow_keys(flow_id: &CreatorConnectFlowId) -> (keys: Option<FlowKeys>)
    ensures
        are_flow_keys(flow_id@, keys),
{
    if is_grant_companion_flow_id(flow_id) {
        return None;
    }
    Some(
        FlowKeys {
            flow_id: flow_id.as_str().to_owned(),
            grant_flow_id: grant_companion_flow_id(flow_id),
        },
    )
}

/// What the caller has to do next to look a pending flow up.
pub enum GetPendingFlow {
    /// Select the row under the flow's key, joined with its companion row, and hand what came back
    /// to [`get_pending_creator_connect_flow`].
    Select {
        /// Where the rows stand.
        keys: FlowKeys,
    },
    /// Nothing: this is the answer.
    Finished {
        /// The answer.
        result: Result<Option<PendingCreatorConnectFlowRecord>, ApplicationError>,
    },
}

/// What the caller has to do next to delete a pending flow.
pub enum DeletePendingFlow {
    /// Delete the rows under the keys, and hand how it ended to
    /// [`delete_pending_creator_connect_flow`].
    Delete {
        /// Where the rows stand.
        keys: FlowKeys,
    },
    /// Nothing: this is the answer.
    Finished {
        /// The answer.
        result: Result<(), ApplicationError>,
    },
}

/// Where looking up `flow_id` begins: a reserved ID names no flow, and the table is not asked.
pub open spec fn get_begins(flow_id: Seq<char>, next: GetPendingFlow) -> bool {
    match next {
        GetPendingFlow::Finished { result } => is_companion_id(flow_id) && result matches Ok(None),
        GetPendingFlow::Select { keys } => are_flow_keys(flow_id, Some(keys)),
    }
}

/// Where deleting `flow_id` begins: a reserved ID is done at once, and the table is not asked.
pub open spec fn delete_begins(flow_id: Seq<char>, next: DeletePendingFlow) -> bool {
    match next {
        DeletePendingFlow::Finished { result } => is_companion_id(flow_id) && result is Ok,
        DeletePendingFlow::Delete { keys } => are_flow_keys(flow_id, Some(keys)),
    }
}

/// Begins to look up the pending flow `flow_id`.
pub fn begin_get(flow_id: &CreatorConnectFlowId) -> (next: GetPendingFlow)
    ensures
        get_begins(flow_id@, next),
{
    match pending_flow_keys(flow_id) {
        Some(keys) => GetPendingFlow::Select { keys },
        None => GetPendingFlow::Finished { result: Ok(None) },
    }
}

/// Begins to delete the pending flow `flow_id`.
pub fn begin_delete(flow_id: &CreatorConnectFlowId) -> (next: DeletePendingFlow)
    ensures
        delete_begins(flow_id@, next),
{
    match pending_flow_keys(flow_id) {
        Some(keys) => DeletePendingFlow::Delete { keys },
        None => DeletePendingFlow::Finished { result: Ok(()) },
    }
}

/// A selected flow, column by column: the value, or why it could not be read.
pub struct SelectedFlow {
    /// Key of the flow's own row.
    pub flow_id: Result<String, String>,
    /// Redirect/callback target.
    pub return_to: Result<String, String>,
    /// CSRF/correlation state.
    pub state: Result<String, String>,
    /// Authorization URL of the flow's own row.
    pub authorization_url: Result<String, String>,
    /// Authorization URL of the flow's companion row, if there is one.
    pub grant_authorization_url: Result<Option<String>, String>,
    /// Requested scopes.
    pub requested_scopes: Result<Vec<String>, String>,
    /// Creation timestamp.
    pub created_at: Result<Timestamp, String>,
    /// Expiration timestamp.
    pub expires_at: Result<Timestamp, String>,
}

/// Why the flow could not be read: the first column that could not be, in the order in which the
/// columns are read.
pub open spec fn unreadable(flow: SelectedFlow) -> Option<Seq<char>> {
    if flow.flow_id is Err {
        Some(flow.flow_id->Err_0@)
    } else if flow.requested_scopes is Err {
        Some(flow.requested_scopes->Err_0@)
    } else if flow.return_to is Err {
        Some(flow.return_to->Err_0@)
    } else if flow.state is Err {
        Some(flow.state->Err_0@)
    } else if flow.authorization_url is Err {
        Some(flow.authorization_url->Err_0@)
    } else if flow.grant_authorization_url is Err {
        Some(flow.grant_authorization_url->Err_0@)
    } else if flow.created_at is Err {
        Some(flow.created_at->Err_0@)
    } else if flow.expires_at is Err {
        Some(flow.expires_at->Err_0@)
    } else {
        None
    }
}

/// What a flow holds whose columns could all be read.
pub open spec fn selected_content(flow: SelectedFlow) -> FlowContent {
    FlowContent {
        flow_id: flow.flow_id->Ok_0@,
        return_to: flow.return_to->Ok_0@,
        state: flow.state->Ok_0@,
        authorization_url: flow.authorization_url->Ok_0@,
        grant_authorization_url: match flow.grant_authorization_url->Ok_0 {
            Some(url) => Some(url@),
            None => None,
        },
        requested_scopes: texts(flow.requested_scopes->Ok_0@),
        created_at: moment(flow.created_at->Ok_0),
        expires_at: moment(flow.expires_at->Ok_0),
    }
}

/// A column's value, or the error that tells why it could not be read.
fn column<T>(read: Result<T, String>) -> (value: Result<T, ApplicationError>)
    ensures
        match read {
            Ok(found) => value == Ok::<_, ApplicationError>(found),
            Err(message) => value matches Err(error) && error@ == (ErrorView::Storage {
                message: message@,
            }),
        },
{
    match read {
        Ok(found) => Ok(found),
        Err(message) => Err(storage_error(message)),
    }
}

/// The pending flow that was selected.
pub fn row_to_record(row: SelectedFlow) -> (record: Result<
    PendingCreatorConnectFlowRecord,
    ApplicationError,
>)
    ensures
        match record {
            Ok(record) => unreadable(row) is None && flow_content(record) == selected_content(row),
            Err(error) => unreadable(row) matches Some(message) && error@ == (ErrorView::Storage {
                message,
            }),
        },
{
    let flow_id = column(row.flow_id)?;
    let requested_scopes = column(row.requested_scopes)?;
    let return_to = column(row.return_to)?;
    let state = column(row.state)?;
    let authorization_url = column(row.authorization_url)?;
    let grant_authorization_url = column(row.grant_authorization_url)?;
    let created_at = column(row.created_at)?;
    let expires_at = column(row.expires_at)?;
    Ok(
        PendingCreatorConnectFlowRecord {
            flow_id: CreatorConnectFlowId::new(flow_id.as_str()),
            return_to,
            state,
            authorization_url: CreatorConnectAuthorizationUrl::new(authorization_url.as_str()),
            grant_authorization_url: match grant_authorization_url {
                Some(url) => Some(CreatorConnectAuthorizationUrl::new(url.as_str())),
                None => None,
            },
            requested_scopes,
            created_at,
            expires_at,
        },
    )
}

/// `found` is the pending flow that a lookup selected, or the error that tells why it could not be
/// read.
pub open spec fn is_read_flow(
    selected: Result<Option<SelectedFlow>, String>,
    found: Result<Option<PendingCreatorConnectFlowRecord>, ApplicationError>,
) -> bool {
    match selected {
        Err(message) => found matches Err(error) && error@ == (ErrorView::Storage {
            message: message@,
        }),
        Ok(None) => found matches Ok(None),
        Ok(Some(row)) => match unreadable(row) {
            Some(message) => found matches Err(error) && error@ == (ErrorView::Storage { message }),
            None => found matches Ok(Some(record)) && flow_content(record) == selected_content(row),
        },
    }
}

/// The pending flow that the selection of [`begin_get`] found, if it found one.
pub fn get_pending_creator_connect_flow(
    selected: Result<Option<SelectedFlow>, String>,
) -> (found: Result<Option<PendingCreatorConnectFlowRecord>, ApplicationError>)
    ensures
        is_read_flow(selected, found),
{
    match selected {
        Err(message) => Err(storage_error(message)),
        Ok(None) => Ok(None),
        Ok(Some(row)) => match row_to_record(row) {
            Ok(record) => Ok(Some(record)),
            Err(error) => Err(error),
        },
    }
}

/// `done` tells how deleting rows ended.
pub open spec fn is_delete_end(
    deleted: Result<(), String>,
    done: Result<(), ApplicationError>,
) -> bool {
    match deleted {
        Ok(_) => done is Ok,
        Err(message) => done matches Err(error) && error@ == (ErrorView::Storage {
            message: message@,
        }),
    }
}

/// How deleting the rows of [`begin_delete`] ended.
pub fn delete_pending_creator_connect_flow(deleted: Result<(), String>) -> (done: Result<
    (),
    ApplicationError,
>)
    ensures
        is_delete_end(deleted, done),
{
    match deleted {
        Ok(_) => Ok(()),
        Err(message) => Err(storage_error(message)),
    }
}

/// The table of pending flows: what stands under each key.
pub struct FlowTable {
    pub rows: Map<Seq<char>, RowContent>,
}

impl FlowTable {
    /// Every companion row stands beside the row of the flow that it belongs to.
    pub open spec fn is_consistent(self) -> bool {
        forall|flow_id: Seq<char>|
            self.rows.dom().contains(#[trigger] companion_id(flow_id)) ==> self.rows.dom().contains(
                flow_id,
            ) && !is_companion_id(flow_id)
    }

    /// The table once `row` was offered to it: a key that is taken keeps its row.
    pub open spec fn with_row(self, row: PendingFlowRow) -> FlowTable {
        if self.rows.dom().contains(row.flow_id@) {
            self
        } else {
            FlowTable { rows: self.rows.insert(row.flow_id@, stored_row(row.content())) }
        }
    }

    /// Number of rows that go in when `row` is offered.
    pub open spec fn rows_affected(self, row: PendingFlowRow) -> u64 {
        if self.rows.dom().contains(row.flow_id@) {
            0
        } else {
            1
        }
    }

    /// The row under `flow_id`, if there is one, joined with the row under `grant_flow_id`, if
    /// there is one.
    pub open spec fn joined(self, flow_id: Seq<char>, grant_flow_id: Seq<char>) -> Option<
        FlowContent,
    > {
        if self.rows.dom().contains(flow_id) {
            let row = self.rows[flow_id];
            Some(
                FlowContent {
                    flow_id,
                    return_to: row.return_to,
                    state: row.state,
                    authorization_url: row.authorization_url,
                    grant_authorization_url: if self.rows.dom().contains(grant_flow_id) {
                        Some(self.rows[grant_flow_id].authorization_url)
                    } else {
                        None
                    },
                    requested_scopes: row.requested_scopes,
                    created_at: row.created_at,
                    expires_at: row.expires_at,
                },
            )
        } else {
            None
        }
    }

    /// `selected` is what the table hands out for `keys` when the statement succeeds.
    pub open spec fn hands_out(
        self,
        keys: FlowKeys,
        selected: Result<Option<SelectedFlow>, String>,
    ) -> bool {
        match self.joined(keys.flow_id@, keys.grant_flow_id@) {
            Some(content) => {
                &&& selected matches Ok(Some(row))
                &&& unreadable(row) is None
                &&& selected_content(row) == content
            },
            None => selected matches Ok(None),
        }
    }

    /// The table once the rows under `keys` were deleted.
    pub open spec fn without_keys(self, keys: FlowKeys) -> FlowTable {
        FlowTable { rows: self.rows.remove(keys.flow_id@).remove(keys.grant_flow_id@) }
    }

    /// The flow that `flow_id` names: its own row, joined with its companion row.
    pub open spec fn flow(self, flow_id: Seq<char>) -> Option<FlowContent> {
        if is_companion_id(flow_id) {
            None
        } else {
            self.joined(flow_id, companion_id(flow_id))
        }
    }

    /// Neither the key of the flow's own row is taken nor that of its companion row.
    pub open spec fn is_free(self, flow_id: Seq<char>) -> bool {
        !self.rows.dom().contains(flow_id) && !self.rows.dom().contains(companion_id(flow_id))
    }

    /// The table once `flow_id` was deleted: neither its own row nor its companion row is left,
    /// and an ID that is reserved for companion rows deletes nothing.
    pub open spec fn without_flow(self, flow_id: Seq<char>) -> FlowTable {
        if is_companion_id(flow_id) {
            self
        } else {
            FlowTable { rows: self.rows.remove(flow_id).remove(companion_id(flow_id)) }
        }
    }

    /// The table with the rows of `flow` in it.
    pub open spec fn with_flow(self, flow: FlowContent) -> FlowTable {
        let stored = stored_flow(flow);
        let own = self.rows.insert(flow.flow_id, row_content(stored, flow.authorization_url));
        FlowTable {
            rows: match flow.grant_authorization_url {
                Some(url) => own.insert(companion_id(flow.flow_id), row_content(stored, url)),
                None => own,
            },
        }
    }
}

/// `found` answers a lookup of `flow_id` in `table` whose statement ends with `selected`.
pub open spec fn is_get_answer(
    table: FlowTable,
    flow_id: Seq<char>,
    selected: Result<Option<SelectedFlow>, String>,
    found: Result<Option<PendingCreatorConnectFlowRecord>, ApplicationError>,
) -> bool {
    exists|next: GetPendingFlow| #[trigger]
        get_begins(flow_id, next) && match next {
            GetPendingFlow::Select { keys } => {
                &&& selected is Ok ==> table.hands_out(keys, selected)
                &&& is_read_flow(selected, found)
            },
            GetPendingFlow::Finished { result } => found == result,
        }
}

/// `done` answers a deletion of `flow_id` that turns `table` into `after` and whose statement ends
/// with `deleted`. A statement that fails has no effect.
pub open spec fn is_delete_answer(
    table: FlowTable,
    flow_id: Seq<char>,
    deleted: Result<(), String>,
    after: FlowTable,
    done: Result<(), ApplicationError>,
) -> bool {
    exists|next: DeletePendingFlow| #[trigger]
        delete_begins(flow_id, next) && match next {
            DeletePendingFlow::Delete { keys } => {
                &&& after == (if deleted is Ok {
                    table.without_keys(keys)
                } else {
                    table
                })
                &&& is_delete_end(deleted, done)
            },
            DeletePendingFlow::Finished { result } => after == table && done == result,
        }
}

/// The statements of an insert that fail, each with its message. A statement that fails has no
/// effect.
pub struct InsertFailures {
    /// Beginning the transaction.
    pub begin: Option<String>,
    /// Inserting the flow's own row.
    pub flow_row: Option<String>,
    /// Inserting the flow's companion row.
    pub companion_row: Option<String>,
    /// Committing the transaction.
    pub commit: Option<String>,
}

/// How a statement without a result ends.
pub open spec fn statement_end(failure: Option<String>) -> Result<(), String> {
    match failure {
        Some(message) => Err(message),
        None => Ok(()),
    }
}

/// What offering `row` to a working table answers.
pub open spec fn offer_answer(
    working: FlowTable,
    row: PendingFlowRow,
    failure: Option<String>,
) -> InsertPendingFlowEvent {
    InsertPendingFlowEvent::RowInserted {
        rows_affected: match failure {
            Some(message) => Err(message),
            None => Ok(working.rows_affected(row)),
        },
    }
}

/// What a working table answers to what `state` asks for.
pub open spec fn insert_answer(
    state: InsertPendingFlowState,
    working: FlowTable,
    failures: InsertFailures,
) -> InsertPendingFlowEvent {
    match state {
        InsertPendingFlowState::Begin { .. } => InsertPendingFlowEvent::Begun {
            begun: statement_end(failures.begin),
        },
        InsertPendingFlowState::InsertFlow { row, .. } => offer_answer(
            working,
            row,
            failures.flow_row,
        ),
        InsertPendingFlowState::InsertCompanion { row } => offer_answer(
            working,
            row,
            failures.companion_row,
        ),
        _ => InsertPendingFlowEvent::Committed { committed: statement_end(failures.commit) },
    }
}

/// What the working table becomes when what `state` asks for is done.
pub open spec fn insert_effect(
    state: InsertPendingFlowState,
    working: FlowTable,
    failures: InsertFailures,
) -> FlowTable {
    match state {
        InsertPendingFlowState::InsertFlow { row, .. } => if failures.flow_row is None {
            working.with_row(row)
        } else {
            working
        },
        InsertPendingFlowState::InsertCompanion { row } => if failures.companion_row is None {
            working.with_row(row)
        } else {
            working
        },
        _ => working,
    }
}

/// One step of an insert, with the working table of its transaction.
pub open spec fn insert_turn(
    failures: InsertFailures,
    before: (InsertPendingFlowState, FlowTable),
    after: (InsertPendingFlowState, FlowTable),
) -> bool {
    &&& insert_step(before.0, insert_answer(before.0, before.1, failures), after.0)
    &&& after.1 == insert_effect(before.0, before.1, failures)
}

/// A run that inserts `flow` into `table` while these statements fail, long enough to be over.
pub open spec fn is_insert_run(
    table: FlowTable,
    flow: FlowContent,
    failures: InsertFailures,
    run: Seq<(InsertPendingFlowState, FlowTable)>,
) -> bool {
    &&& run.len() == 5
    &&& insert_begins(flow, run[0].0)
    &&& run[0].1 == table
    &&& insert_turn(failures, run[0], run[1])
    &&& insert_turn(failures, run[1], run[2])
    &&& insert_turn(failures, run[2], run[3])
    &&& insert_turn(failures, run[3], run[4])
}

/// The answer that a run gives.
pub open spec fn insert_result(run: Seq<(InsertPendingFlowState, FlowTable)>) -> Result<
    (),
    ApplicationError,
> {
    run[4].0->result
}

/// The table that a run leaves behind: what was done stays only if the answer is success, else
/// the transaction is rolled back.
pub open spec fn table_after(
    table: FlowTable,
    run: Seq<(InsertPendingFlowState, FlowTable)>,
) -> FlowTable {
    if insert_result(run) is Ok {
        run[4].1
    } else {
        table
    }
}

/// Why `flow` does not go into `table`, if it does not: its ID is reserved, or the first statement
/// that fails or finds its key taken.
pub open spec fn insert_refusal(
    table: FlowTable,
    flow: FlowContent,
    failures: InsertFailures,
) -> Option<ErrorView> {
    let duplicate = ErrorView::DuplicateRecord { record: "pending_creator_connect_flow"@ };
    if is_companion_id(flow.flow_id) {
        Some(ErrorView::Storage { message: "pending creator connect flow id is reserved"@ })
    } else if failures.begin is Some {
        Some(ErrorView::Storage { message: failures.begin->0@ })
    } else if failures.flow_row is Some {
        Some(ErrorView::Storage { message: failures.flow_row->0@ })
    } else if table.rows.dom().contains(flow.flow_id) {
        Some(duplicate)
    } else if flow.grant_authorization_url is Some && failures.companion_row is Some {
        Some(ErrorView::Storage { message: failures.companion_row->0@ })
    } else if flow.grant_authorization_url is Some && table.rows.dom().contains(
        companion_id(flow.flow_id),
    ) {
        Some(duplicate)
    } else if failures.commit is Some {
        Some(ErrorView::Storage { message: failures.commit->0@ })
    } else {
        None
    }
}

/// Companion keys are reserved, and different flows have different ones.
pub proof fn law_companion_ids_are_apart(left: Seq<char>, right: Seq<char>)
    ensures
        is_companion_id(companion_id(left)),
        companion_id(left) == companion_id(right) <==> left == right,
        !is_companion_id(left) ==> left != companion_id(right),
{
    reveal_strlit(".grant");
    let end = companion_id(left).len();
    assert(companion_id(left).subrange(end - 6, end as int) == ".grant"@);
    assert(companion_id(left).take(left.len() as int) == left);
    assert(companion_id(right).take(right.len() as int) == right);
    assert(is_companion_id(companion_id(left)));
    if left == companion_id(right) {
        let end = left.len();
        assert(left.subrange(end - 6, end as int) == ".grant"@);
        assert(is_companion_id(left));
    }
}

/// Inserting adds the flow's rows and nothing else, or it tells why not and leaves the table as it
/// was: on every table, and whichever statements fail.
pub proof fn law_insert_adds_the_flow_or_nothing(
    table: FlowTable,
    flow: FlowContent,
    failures: InsertFailures,
    run: Seq<(InsertPendingFlowState, FlowTable)>,
)
    requires
        is_insert_run(table, flow, failures, run),
    ensures
        run[4].0 is Finished,
        match insert_refusal(table, flow, failures) {
            Some(refusal) => {
                &&& insert_result(run) matches Err(error)
                &&& error@ == refusal
                &&& table_after(table, run) == table
            },
            None => {
                &&& insert_result(run) is Ok
                &&& table_after(table, run) == table.with_flow(flow)
            },
        },
{
    law_companion_ids_are_apart(flow.flow_id, flow.flow_id);
    if insert_refusal(table, flow, failures) is None {
        assert(table_after(table, run).rows =~= table.with_flow(flow).rows);
    }
}

/// A statement that fails ends the insert with its message and leaves the table as it was. Each
/// is reached where the statements before it succeed and find their keys free.
pub proof fn law_failed_statement_leaves_the_table(
    table: FlowTable,
    flow: FlowContent,
    failures: InsertFailures,
    run: Seq<(InsertPendingFlowState, FlowTable)>,
    message: Seq<char>,
)
    requires
        is_insert_run(table, flow, failures, run),
        !is_companion_id(flow.flow_id),
        ({
            ||| failures.begin is Some && failures.begin->0@ == message
            ||| {
                &&& failures.begin is None
                &&& failures.flow_row is Some
                &&& failures.flow_row->0@ == message
            }
            ||| {
                &&& failures.begin is None
                &&& failures.flow_row is None
                &&& !table.rows.dom().contains(flow.flow_id)
                &&& flow.grant_authorization_url is Some
                &&& failures.companion_row is Some
                &&& failures.companion_row->0@ == message
            }
            ||| {
                &&& failures.begin is None
                &&& failures.flow_row is None
                &&& flow.grant_authorization_url is Some ==> failures.companion_row is None
                &&& table.is_free(flow.flow_id)
                &&& failures.commit is Some
                &&& failures.commit->0@ == message
            }
        }),
    ensures
        run[4].0 is Finished,
        insert_result(run) matches Err(error) && error@ == (ErrorView::Storage { message }),
        table_after(table, run) == table,
{
    law_insert_adds_the_flow_or_nothing(table, flow, failures, run);
}

/// Inserting keeps the table consistent, and in a consistent table a flow whose own key is free
/// has a free companion key too.
pub proof fn law_insert_keeps_the_table_consistent(
    table: FlowTable,
    flow: FlowContent,
    failures: InsertFailures,
    run: Seq<(InsertPendingFlowState, FlowTable)>,
)
    requires
        table.is_consistent(),
        is_insert_run(table, flow, failures, run),
    ensures
        table_after(table, run).is_consistent(),
        !table.rows.dom().contains(flow.flow_id) ==> table.is_free(flow.flow_id),
{
    law_insert_adds_the_flow_or_nothing(table, flow, failures, run);
    if insert_refusal(table, flow, failures) is None {
        let after = table.with_flow(flow);
        assert forall|other: Seq<char>|
            after.rows.dom().contains(
                #[trigger] companion_id(other),
            ) implies after.rows.dom().contains(other) && !is_companion_id(other) by {
            law_companion_ids_are_apart(flow.flow_id, other);
            law_companion_ids_are_apart(other, flow.flow_id);
        }
    }
}

/// A time column gives a point back to the microsecond: a whole number of microseconds comes back
/// as it was, any other point less than a microsecond off, and no two points change their order.
pub proof fn law_column_keeps_microseconds(unix_nanos: int, later: int)
    ensures
        column_nanos(unix_nanos) % 1000 == 0,
        -1000 < column_nanos(unix_nanos) - unix_nanos < 1000,
        unix_nanos >= COLUMN_EPOCH * NANOS_PER_SECOND ==> column_nanos(unix_nanos) <= unix_nanos,
        unix_nanos % 1000 == 0 ==> column_nanos(unix_nanos) == unix_nanos,
        column_nanos(column_nanos(unix_nanos)) == column_nanos(unix_nanos),
        unix_nanos <= later ==> column_nanos(unix_nanos) <= column_nanos(later),
{
}

/// A flow that was inserted is found again as the columns keep it, grant URL and all. Only a flow
/// without a grant URL needs its companion key to be free for that.
pub proof fn law_inserted_flow_is_found(table: FlowTable, flow: FlowContent)
    requires
        !is_companion_id(flow.flow_id),
        flow.grant_authorization_url is None ==> !table.rows.dom().contains(
            companion_id(flow.flow_id),
        ),
    ensures
        table.with_flow(flow).flow(flow.flow_id) == Some(stored_flow(flow)),
{
    law_companion_ids_are_apart(flow.flow_id, flow.flow_id);
}

/// A lookup gives the very flow that the table holds for the ID, and nothing where it holds none.
/// It fails only where its statement does, with that message.
pub proof fn law_get_gives_the_flow_of_the_table(
    table: FlowTable,
    flow_id: Seq<char>,
    selected: Result<Option<SelectedFlow>, String>,
    found: Result<Option<PendingCreatorConnectFlowRecord>, ApplicationError>,
)
    requires
        is_get_answer(table, flow_id, selected, found),
    ensures
        is_companion_id(flow_id) ==> found matches Ok(None),
        !is_companion_id(flow_id) && selected is Err ==> (found matches Err(error) && error@ == (
        ErrorView::Storage { message: selected->Err_0@ })),
        selected is Ok ==> match table.flow(flow_id) {
            Some(content) => found matches Ok(Some(record)) && flow_content(record) == content,
            None => found matches Ok(None),
        },
{
}

/// Deleting takes the flow's rows out of the table and nothing else, and it succeeds whether or
/// not the flow is there. It fails only where its statement does, with that message, and then the
/// table is as it was.
pub proof fn law_delete_removes_the_flow_or_nothing(
    table: FlowTable,
    flow_id: Seq<char>,
    deleted: Result<(), String>,
    after: FlowTable,
    done: Result<(), ApplicationError>,
)
    requires
        is_delete_answer(table, flow_id, deleted, after, done),
    ensures
        is_companion_id(flow_id) || deleted is Ok ==> done is Ok && after == table.without_flow(
            flow_id,
        ),
        !is_companion_id(flow_id) && deleted is Err ==> {
            &&& done matches Err(error)
            &&& error@ == (ErrorView::Storage { message: deleted->Err_0@ })
            &&& after == table
        },
{
}

/// An ID that is reserved for companion rows names no flow, though a row stands under it: looking
/// it up finds nothing, and deleting it succeeds and leaves every row where it is, however the
/// table answers.
pub proof fn law_reserved_id_is_no_flow(
    table: FlowTable,
    flow_id: Seq<char>,
    selected: Result<Option<SelectedFlow>, String>,
    found: Result<Option<PendingCreatorConnectFlowRecord>, ApplicationError>,
    deleted: Result<(), String>,
    after: FlowTable,
    done: Result<(), ApplicationError>,
)
    requires
        is_companion_id(flow_id),
        is_get_answer(table, flow_id, selected, found),
        is_delete_answer(table, flow_id, deleted, after, done),
    ensures
        found matches Ok(None),
        done is Ok,
        after == table,
{
}

/// A record whose insert succeeded is read back with the content that it was inserted with, its
/// times to the microsecond: a time that is a whole number of microseconds is read back as it was.
pub proof fn law_stored_record_is_read_back(
    table: FlowTable,
    record: PendingCreatorConnectFlowRecord,
    failures: InsertFailures,
    run: Seq<(InsertPendingFlowState, FlowTable)>,
    selected: Result<Option<SelectedFlow>, String>,
    found: Result<Option<PendingCreatorConnectFlowRecord>, ApplicationError>,
)
    requires
        record.grant_authorization_url is None ==> !table.rows.dom().contains(
            companion_id(record.flow_id@),
        ),
        is_insert_run(table, flow_content(record), failures, run),
        insert_result(run) is Ok,
        selected is Ok,
        is_get_answer(table_after(table, run), record.flow_id@, selected, found),
    ensures
        found matches Ok(Some(read)) && {
            &&& flow_content(read) == stored_flow(flow_content(record))
            &&& record.created_at@ % 1000 == 0 ==> read.created_at@ == record.created_at@
            &&& record.expires_at@ % 1000 == 0 ==> read.expires_at@ == record.expires_at@
        },
{
    let flow = flow_content(record);
    law_insert_adds_the_flow_or_nothing(table, flow, failures, run);
    law_inserted_flow_is_found(table, flow);
    law_get_gives_the_flow_of_the_table(
        table_after(table, run),
        record.flow_id@,
        selected,
        found,
    );
    let read = found->Ok_0->0;
    assert(flow_content(read).created_at == moment(read.created_at));
    assert(flow_content(read).expires_at == moment(read.expires_at));
}

/// Inserting a flow or deleting one changes no other flow.
pub proof fn law_other_flows_stay(table: FlowTable, flow: FlowContent, other: Seq<char>)
    requires
        other != flow.flow_id,
    ensures
        !is_companion_id(flow.flow_id) ==> table.with_flow(flow).flow(other) == table.flow(other),
        table.without_flow(flow.flow_id).flow(other) == table.flow(other),
{
    law_companion_ids_are_apart(flow.flow_id, other);
    law_companion_ids_are_apart(other, flow.flow_id);
}

/// A deleted flow is gone with its companion row, deleting it again changes nothing, and a
/// consistent table stays consistent.
pub proof fn law_deleted_flow_is_gone(table: FlowTable, flow_id: Seq<char>)
    ensures
        table.without_flow(flow_id).flow(flow_id) is None,
        !is_companion_id(flow_id) ==> !table.without_flow(flow_id).rows.dom().contains(flow_id)
            && !table.without_flow(flow_id).rows.dom().contains(companion_id(flow_id)),
        table.without_flow(flow_id).without_flow(flow_id) == table.without_flow(flow_id),
        table.is_consistent() ==> table.without_flow(flow_id).is_consistent(),
{
    let after = table.without_flow(flow_id);
    assert(after.without_flow(flow_id).rows =~= after.rows);
    if table.is_consistent() {
        assert forall|other: Seq<char>|
            after.rows.dom().contains(
                #[trigger] companion_id(other),
            ) implies after.rows.dom().contains(other) && !is_companion_id(other) by {
            law_companion_ids_are_apart(flow_id, other);
            law_companion_ids_are_apart(other, flow_id);
        }
    }
}

/// Deleting what was just inserted gives the table back.
pub proof fn law_delete_undoes_insert(table: FlowTable, flow: FlowContent)
    requires
        !is_companion_id(flow.flow_id),
        table.is_free(flow.flow_id),
    ensures
        table.with_flow(flow).without_flow(flow.flow_id) == table,
{
    assert(table.with_flow(flow).without_flow(flow.flow_id).rows =~= table.rows);
}

/// A companion row is never a pending flow of its own.
pub proof fn law_companion_row_is_no_flow(table: FlowTable, flow_id: Seq<char>)
    ensures
        table.flow(companion_id(flow_id)) is None,
        table.without_flow(companion_id(flow_id)) == table,
{
    law_companion_ids_are_apart(flow_id, flow_id);
}

/// The empty table is consistent.
pub proof fn law_empty_table_is_consistent()
    ensures
        (FlowTable { rows: Map::empty() }).is_consistent(),
{
}

/// A companion key is the flow's key and the suffix, and an ID is reserved exactly when it ends in
/// that suffix.
pub proof fn law_reserved_ids_end_in_the_suffix(flow_id: Seq<char>, id: Seq<char>)
    ensures
        companion_id(flow_id) == flow_id + ".grant"@,
        is_companion_id(id) <==> id.len() >= 6 && id.skip(id.len() - 6) == ".grant"@,
        is_companion_id(flow_id + ".grant"@),
{
    reveal_strlit(".grant");
    assert(".grant"@.len() == 6);
    if id.len() >= 6 {
        assert(id.skip(id.len() - 6) =~= id.subrange(id.len() - 6, id.len() as int));
    }
    law_companion_ids_are_apart(flow_id, flow_id);
}

/// What an insert offers: the record's own columns under its ID, and beside it, exactly when the
/// record has a grant URL, a row with that URL and otherwise the same columns under the companion
/// key. A reserved ID is turned away before anything is begun.
pub proof fn law_insert_offers_the_record_itself(
    record: PendingCreatorConnectFlowRecord,
    state: InsertPendingFlowState,
)
    requires
        insert_begins(flow_content(record), state),
    ensures
        state is Begin <==> !is_companion_id(record.flow_id@),
        is_companion_id(record.flow_id@) ==> {
            &&& state is Finished
            &&& state->result is Err
            &&& state->result->Err_0@ == (ErrorView::Storage {
                message: "pending creator connect flow id is reserved"@,
            })
        },
        state matches InsertPendingFlowState::Begin { row, companion } ==> {
            &&& row.flow_id@ == record.flow_id@
            &&& row.return_to@ == record.return_to@
            &&& row.state@ == record.state@
            &&& row.authorization_url@ == record.authorization_url@
            &&& texts(row.requested_scopes@) == texts(record.requested_scopes@)
            &&& row.created_at@ == record.created_at@
            &&& row.created_at.offset() == record.created_at.offset()
            &&& row.expires_at@ == record.expires_at@
            &&& row.expires_at.offset() == record.expires_at.offset()
            &&& companion is Some <==> record.grant_authorization_url is Some
            &&& companion matches Some(beside) ==> {
                &&& beside.flow_id@ == record.flow_id@ + ".grant"@
                &&& beside.authorization_url@ == record.grant_authorization_url->0@
                &&& beside.return_to@ == row.return_to@
                &&& beside.state@ == row.state@
                &&& texts(beside.requested_scopes@) == texts(row.requested_scopes@)
                &&& beside.created_at@ == row.created_at@
                &&& beside.expires_at@ == row.expires_at@
            }
        },
{
}

/// An insert goes on from the transaction to the flow's own row, from there to the companion row
/// where there is one, and then commits. It goes on exactly as long as the statements succeed and
/// rows go in, however many; it ends well exactly when the commit succeeds.
pub proof fn law_insert_goes_on_while_rows_go_in(
    state: InsertPendingFlowState,
    event: InsertPendingFlowEvent,
    next: InsertPendingFlowState,
)
    requires
        insert_step(state, event, next),
    ensures
        state is Begin && event is Begun ==> {
            &&& event->begun is Ok <==> next is InsertFlow
            &&& event->begun is Ok ==> next->InsertFlow_row == state->Begin_row
                && next->InsertFlow_companion == state->Begin_companion
            &&& event->begun is Err ==> next is Finished && next->result is Err
                && next->result->Err_0@ == (ErrorView::Storage { message: event->begun->Err_0@ })
        },
        state is InsertFlow && event is RowInserted ==> {
            let went_in = event->rows_affected is Ok && event->rows_affected->Ok_0 > 0;
            &&& next is InsertCompanion <==> went_in && state->InsertFlow_companion is Some
            &&& next is Commit <==> went_in && state->InsertFlow_companion is None
            &&& next is InsertCompanion ==> Some(next->InsertCompanion_row)
                == state->InsertFlow_companion
        },
        state is InsertCompanion && event is RowInserted ==> (next is Commit
            <==> event->rows_affected is Ok && event->rows_affected->Ok_0 > 0),
        (state is InsertFlow || state is InsertCompanion) && event is RowInserted ==> {
            &&& event->rows_affected is Err ==> next is Finished && next->result is Err
                && next->result->Err_0@ == (ErrorView::Storage {
                message: event->rows_affected->Err_0@,
            })
            &&& event->rows_affected is Ok && event->rows_affected->Ok_0 == 0 ==> next is Finished
                && next->result is Err && next->result->Err_0@ == (ErrorView::DuplicateRecord {
                record: "pending_creator_connect_flow"@,
            })
        },
        state is Commit && event is Committed ==> {
            &&& next is Finished
            &&& next->result is Ok <==> event->committed is Ok
            &&& next->result is Err ==> next->result->Err_0@ == (ErrorView::Storage {
                message: event->committed->Err_0@,
            })
        },
{
}

/// An answer that was not asked for changes nothing, and an answered insert stays answered.
pub proof fn law_insert_ignores_what_it_did_not_ask_for(
    state: InsertPendingFlowState,
    event: InsertPendingFlowEvent,
    next: InsertPendingFlowState,
)
    requires
        insert_step(state, event, next),
        !(state is Begin && event is Begun),
        !(state is InsertFlow && event is RowInserted),
        !(state is InsertCompanion && event is RowInserted),
        !(state is Commit && event is Committed),
    ensures
        next == state,
{
}

/// A flow that was selected is read column by column, each into its own field, exactly when every
/// column can be read; nothing selected is nothing found, and a failed statement is an error.
pub proof fn law_each_column_is_read_into_its_field(
    selected: Result<Option<SelectedFlow>, String>,
    found: Result<Option<PendingCreatorConnectFlowRecord>, ApplicationError>,
)
    requires
        is_read_flow(selected, found),
    ensures
        selected is Err ==> found is Err && found->Err_0@ == (ErrorView::Storage {
            message: selected->Err_0@,
        }),
        selected is Ok && selected->Ok_0 is None ==> found is Ok && found->Ok_0 is None,
        selected is Ok && selected->Ok_0 is Some ==> {
            let row = selected->Ok_0->0;
            &&& found is Ok <==> {
                &&& row.flow_id is Ok
                &&& row.return_to is Ok
                &&& row.state is Ok
                &&& row.authorization_url is Ok
                &&& row.grant_authorization_url is Ok
                &&& row.requested_scopes is Ok
                &&& row.created_at is Ok
                &&& row.expires_at is Ok
            }
            &&& found is Ok ==> {
                let record = found->Ok_0->0;
                &&& found->Ok_0 is Some
                &&& record.flow_id@ == row.flow_id->Ok_0@
                &&& record.return_to@ == row.return_to->Ok_0@
                &&& record.state@ == row.state->Ok_0@
                &&& record.authorization_url@ == row.authorization_url->Ok_0@
                &&& record.grant_authorization_url is Some <==> row.grant_authorization_url->Ok_0
                    is Some
                &&& record.grant_authorization_url is Some ==> record.grant_authorization_url->0@
                    == row.grant_authorization_url->Ok_0->0@
                &&& texts(record.requested_scopes@) == texts(row.requested_scopes->Ok_0@)
                &&& record.created_at@ == row.created_at->Ok_0@
                &&& record.created_at.offset() == row.created_at->Ok_0.offset()
                &&& record.expires_at@ == row.expires_at->Ok_0@
                &&& record.expires_at.offset() == row.expires_at->Ok_0.offset()
            }
        },
{
    if selected is Ok && selected->Ok_0 is Some && found is Ok {
        let content = flow_content(found->Ok_0->0);
        let columns = selected_content(selected->Ok_0->0);
        assert(content.created_at == columns.created_at);
        assert(content.expires_at == columns.expires_at);
        assert(content.grant_authorization_url == columns.grant_authorization_url);
    }
}

/// Where several columns cannot be read, the one that is read first is told: the flow ID, the
/// scopes, the target, the state, the two URLs, and the two times.
pub proof fn law_first_unreadable_column_is_told(
    row: SelectedFlow,
    found: Result<Option<PendingCreatorConnectFlowRecord>, ApplicationError>,
)
    requires
        is_read_flow(Ok(Some(row)), found),
        found is Err,
    ensures
        found->Err_0 is Storage,
        row.flow_id is Err ==> found->Err_0@->Storage_message == row.flow_id->Err_0@,
        row.flow_id is Ok && row.requested_scopes is Err ==> found->Err_0@->Storage_message
            == row.requested_scopes->Err_0@,
        row.flow_id is Ok && row.requested_scopes is Ok && row.return_to is Err
            ==> found->Err_0@->Storage_message == row.return_to->Err_0@,
        row.flow_id is Ok && row.requested_scopes is Ok && row.return_to is Ok && row.state is Err
            ==> found->Err_0@->Storage_message == row.state->Err_0@,
        row.flow_id is Ok && row.requested_scopes is Ok && row.return_to is Ok && row.state is Ok
            ==> {
            &&& row.authorization_url is Err ==> found->Err_0@->Storage_message
                == row.authorization_url->Err_0@
            &&& row.authorization_url is Ok && row.grant_authorization_url is Err
                ==> found->Err_0@->Storage_message == row.grant_authorization_url->Err_0@
            &&& row.authorization_url is Ok && row.grant_authorization_url is Ok ==> {
                &&& row.created_at is Err ==> found->Err_0@->Storage_message
                    == row.created_at->Err_0@
                &&& row.created_at is Ok ==> row.expires_at is Err
                    && found->Err_0@->Storage_message == row.expires_at->Err_0@
            }
        },
{
}

/// A lookup and a deletion of the same ID go to the same rows: the flow's own and its companion
/// row. Both are answered at once exactly where the ID is reserved.
pub proof fn law_get_and_delete_use_the_same_rows(
    flow_id: Seq<char>,
    get: GetPendingFlow,
    delete: DeletePendingFlow,
)
    requires
        get_begins(flow_id, get),
        delete_begins(flow_id, delete),
    ensures
        get is Select <==> !is_companion_id(flow_id),
        delete is Delete <==> !is_companion_id(flow_id),
        get is Select ==> {
            &&& get->Select_keys.flow_id@ == flow_id
            &&& get->Select_keys.grant_flow_id@ == flow_id + ".grant"@
            &&& delete->Delete_keys.flow_id@ == flow_id
            &&& delete->Delete_keys.grant_flow_id@ == flow_id + ".grant"@
        },
        get is Finished ==> get->Finished_result is Ok && get->Finished_result->Ok_0 is None,
        delete is Finished ==> delete->Finished_result is Ok,
{
}

} // verus!
