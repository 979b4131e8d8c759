//! What holds of a creator connect flow from its start to its completion.
//!
//! The pending flow is stored when the flow is started and found again when it is completed.
//! What is found has the content of what was stored, its times as the store keeps them; see
//! [`crate::creator_connect_flows::law_stored_record_is_read_back`].

use vstd::prelude::*;

use crate::complete_creator_connect_flow::{
    is_complete_run, law_complete_awaits_grant_iff_offered,
    law_complete_deletes_only_finished_flows, law_complete_run_ends, CompleteAnswers,
    CompleteCreatorConnectFlowRequest, CompleteCreatorConnectFlowState,
};
use crate::creator_authority::PendingCreatorConnectFlowRecord;
use crate::creator_connect_flows::{
    column_nanos, flow_content, law_column_keeps_microseconds, FlowContent, COLUMN_EPOCH,
};
use crate::error::{ApplicationError, ErrorView};
use crate::start_creator_connect_flow::{
    is_start_run, law_grant_and_cookie_request_identical_scopes,
    law_start_stores_only_the_asked_flow, StartAnswers, StartCreatorConnectFlowRequest,
    StartCreatorConnectFlowState, CREATOR_CONNECT_FLOW_TTL_SECONDS,
};
use crate::text::texts;
use crate::timestamp::{Timestamp, NANOS_PER_SECOND};

verus! {

/// A flow that was started and is being completed.
pub struct ConnectFlow {
    /// The request that started it.
    pub start_request: StartCreatorConnectFlowRequest,
    /// Whether grant connect was configured at the start.
    pub start_grant_connect: bool,
    /// What the outside answered at the start.
    pub start_answers: StartAnswers,
    /// How it was started.
    pub start_run: Seq<StartCreatorConnectFlowState>,
    /// Where in that run the pending flow was stored.
    pub stored_at: int,
    /// The request that completes it.
    pub complete_request: CompleteCreatorConnectFlowRequest,
    /// When it is completed.
    pub completed_at: Timestamp,
    /// Whether grant connect is configured at the completion.
    pub complete_grant_connect: bool,
    /// What the outside answers at the completion.
    pub complete_answers: CompleteAnswers,
    /// How it is completed.
    pub complete_run: Seq<CompleteCreatorConnectFlowState>,
    /// The pending flow that the completion finds.
    pub found: PendingCreatorConnectFlowRecord,
}

impl ConnectFlow {
    /// The completion finds the pending flow that the start stored.
    pub open spec fn is_connected(self) -> bool {
        &&& is_start_run(
            self.start_request,
            self.start_grant_connect,
            self.start_answers,
            self.start_run,
        )
        &&& 0 <= self.stored_at < 5
        &&& self.start_run[self.stored_at] is StorePendingFlow
        &&& is_complete_run(
            self.complete_request,
            self.completed_at,
            self.complete_grant_connect,
            self.complete_answers,
            self.complete_run,
        )
        &&& self.complete_answers.loaded == Ok::<_, ApplicationError>(Some(self.found))
        &&& is_same_flow(flow_content(self.stored()), flow_content(self.found))
    }

    /// The pending flow that the start stores.
    pub open spec fn stored(self) -> PendingCreatorConnectFlowRecord {
        self.start_run[self.stored_at]->record
    }

    /// Five minutes after the start.
    pub open spec fn end(self) -> int {
        self.start_answers.now@ + CREATOR_CONNECT_FLOW_TTL_SECONDS * NANOS_PER_SECOND
    }

    /// The completion takes the flow for expired and deletes it.
    pub open spec fn is_expired(self) -> bool {
        exists|i: int| 0 <= i < 8 && #[trigger] self.complete_run[i] is DeleteExpiredFlow
    }
}

/// `found` is the flow that was stored, whatever the store kept of its times.
pub open spec fn is_same_flow(stored: FlowContent, found: FlowContent) -> bool {
    &&& found.flow_id == stored.flow_id
    &&& found.return_to == stored.return_to
    &&& found.state == stored.state
    &&& found.grant_authorization_url == stored.grant_authorization_url
    &&& found.requested_scopes == stored.requested_scopes
}

/// A flow that is completed five minutes or more after its start is expired, whatever was
/// approved, and one that is completed earlier never is by its age. A table that keeps times to the
/// microsecond ends it at the microsecond that it keeps.
pub proof fn law_flow_expires_five_minutes_after_its_start(flow: ConnectFlow)
    requires
        flow.is_connected(),
        flow.found.expires_at@ == flow.stored().expires_at@ || flow.found.expires_at@
            == column_nanos(flow.stored().expires_at@),
    ensures
        flow.found.expires_at@ == flow.stored().expires_at@ ==> (flow.is_expired()
            <==> flow.completed_at@ >= flow.end()),
        flow.found.expires_at@ == column_nanos(flow.stored().expires_at@) ==> (flow.is_expired()
            <==> flow.completed_at@ >= column_nanos(flow.end())),
        flow.completed_at@ <= flow.end() - 1000 ==> !flow.is_expired(),
        flow.completed_at@ >= flow.end() && flow.end() >= COLUMN_EPOCH * NANOS_PER_SECOND
            ==> flow.is_expired(),
        flow.is_expired() && flow.complete_answers.deleted is Ok ==> {
            &&& flow.complete_run[7] matches CompleteCreatorConnectFlowState::Finished {
                result: Err(error),
            }
            &&& error@ == ErrorView::CreatorConnectFlowExpired
        },
{
    law_start_stores_only_the_asked_flow(
        flow.start_request,
        flow.start_grant_connect,
        flow.start_answers,
        flow.start_run,
        flow.stored_at,
    );
    law_complete_run_ends(
        flow.complete_request,
        flow.completed_at,
        flow.complete_grant_connect,
        flow.complete_answers,
        flow.complete_run,
    );
    law_complete_deletes_only_finished_flows(
        flow.complete_request,
        flow.completed_at,
        flow.complete_grant_connect,
        flow.complete_answers,
        flow.complete_run,
    );
    law_column_keeps_microseconds(flow.end(), flow.end());
}

/// The frontend gets back the very state and return target that it started the flow with.
pub proof fn law_state_and_target_come_back(flow: ConnectFlow)
    requires
        flow.is_connected(),
    ensures
        flow.complete_run[7] matches CompleteCreatorConnectFlowState::Finished {
            result: Ok(response),
        } ==> {
            &&& response.state@ == flow.start_request.state@
            &&& response.return_to@ == flow.start_request.return_to@
        },
{
    law_start_stores_only_the_asked_flow(
        flow.start_request,
        flow.start_grant_connect,
        flow.start_answers,
        flow.start_run,
        flow.stored_at,
    );
    law_complete_run_ends(
        flow.complete_request,
        flow.completed_at,
        flow.complete_grant_connect,
        flow.complete_answers,
        flow.complete_run,
    );
}

/// The grant approval is waited for with the URL, the key and the scopes that the grant flow was
/// started with.
pub proof fn law_grant_is_awaited_as_it_was_started(flow: ConnectFlow, started: int, awaited: int)
    requires
        flow.is_connected(),
        0 <= started < 5,
        flow.start_run[started] is StartGrantFlow,
        0 <= awaited < 8,
        flow.complete_run[awaited] is AwaitEitherApproval,
    ensures
        flow.start_answers.grant matches Ok(url) && url@
            == flow.complete_run[awaited]->AwaitEitherApproval_grant_authorization_url@,
        flow.complete_run[awaited]->AwaitEitherApproval_pop_key_id@
            == flow.start_run[started]->pop_key_id@,
        flow.complete_run[awaited]->AwaitEitherApproval_flow.pending == flow.found,
        texts(flow.found.requested_scopes@) == texts(
            flow.start_run[started]->StartGrantFlow_draft.requested_scopes@,
        ),
{
    law_start_stores_only_the_asked_flow(
        flow.start_request,
        flow.start_grant_connect,
        flow.start_answers,
        flow.start_run,
        flow.stored_at,
    );
    law_grant_and_cookie_request_identical_scopes(
        flow.start_request,
        flow.start_grant_connect,
        flow.start_answers,
        flow.start_run,
        started,
    );
    law_complete_awaits_grant_iff_offered(
        flow.complete_request,
        flow.completed_at,
        flow.complete_grant_connect,
        flow.complete_answers,
        flow.complete_run,
    );
}

} // verus!
