//! Properties of the inviter's state machine, proved over the relation that
//! its transitions implement.
use vstd::prelude::*;
use crate::error::ConnectionError;
use crate::events::{EventModel, OutboundModel, RecipientModel, StepContextModel};
use crate::inviter::{
    first_admitted, peer_did_doc, remote_protocols, sm_wf, spec_sm_step, SmConnectionInviter,
    SmModel,
};
use crate::messages::{did_doc_valid, A2AMessage, A2AMessageModel, DiscloseModel, RequestModel};
use crate::protocol::{admissible_event, admits, invalid_for_role};
use crate::states::InviterStateModel;

verus! {

/// An event outside the table of admissible transitions, other than the two
/// that belong to the invitee, leaves the connection as it was and sends
/// nothing.
pub proof fn lemma_inadmissible_event_is_no_op(sm: SmModel, ev: EventModel, ctx: StepContextModel)
    requires
        !admissible_event(sm.state, ev),
        !invalid_for_role(ev),
    ensures
        spec_sm_step(sm, ev, ctx) == Ok::<_, ConnectionError>((sm, None::<OutboundModel>)),
{
}

/// The invitee's events are refused in every state.
pub proof fn lemma_invitee_events_are_refused(sm: SmModel, ev: EventModel, ctx: StepContextModel)
    requires
        invalid_for_role(ev),
    ensures
        spec_sm_step(sm, ev, ctx) == Err::<(SmModel, Option<OutboundModel>), _>(
            ConnectionError::InvalidForRole,
        ),
{
}

/// Connecting from the initial state issues an invitation labelled with the
/// connection's `source_id`, under the freshly provisioned identity; without
/// one, the connection is not advanced.
pub proof fn lemma_connect_issues_invitation(sm: SmModel, ctx: StepContextModel)
    requires
        sm.state is Null,
    ensures
        ctx.fresh_identity is None ==> spec_sm_step(sm, EventModel::Connect, ctx) == Err::<
            (SmModel, Option<OutboundModel>),
            _,
        >(ConnectionError::ProvisioningFailure),
        ctx.fresh_identity matches Some(fresh) ==> (spec_sm_step(sm, EventModel::Connect, ctx)
            matches Ok((n, o)) && o is None && n.source_id == sm.source_id && n.agent_info == fresh
            && (n.state matches InviterStateModel::Invited { invitation } && invitation.label
            == sm.source_id)),
{
}

/// In the invited state, a request with a valid DID Document moves the
/// connection to responded, holding that document; one with an invalid
/// document returns it to the initial state, keeps its identity, and sends a
/// problem report to the address in the request's document.
pub proof fn lemma_request_outcome(sm: SmModel, req: RequestModel, ctx: StepContextModel)
    requires
        sm.state is Invited,
    ensures
        did_doc_valid(req.did_doc) && ctx.fresh_identity is Some ==> (spec_sm_step(
            sm,
            EventModel::ExchangeRequestReceived(req),
            ctx,
        ) matches Ok((n, _)) && (n.state matches InviterStateModel::Responded {
            did_doc,
            thread_id,
            prev_agent_info,
        } && did_doc == req.did_doc && thread_id == req.id && prev_agent_info == sm.agent_info)),
        !did_doc_valid(req.did_doc) ==> (spec_sm_step(
            sm,
            EventModel::ExchangeRequestReceived(req),
            ctx,
        ) matches Ok((n, o)) && n.state is Null && n.agent_info == sm.agent_info && (o matches Some(
            out,
        ) && out.recipient == RecipientModel::Document(req.did_doc)
            && out.message is ConnectionProblemReport)),
{
}

/// From the responded state, an acknowledgement, a ping or a ping response
/// completes the connection with the same peer, and a problem report
/// returns it to the initial state.
pub proof fn lemma_responded_outcomes(sm: SmModel, ev: EventModel, ctx: StepContextModel)
    requires
        sm.state is Responded,
    ensures
        ev is AckReceived || ev is PingReceived || ev is PingResponseReceived ==> (spec_sm_step(
            sm,
            ev,
            ctx,
        ) matches Ok((n, _)) && (n.state matches InviterStateModel::Completed { protocols, .. }
            && protocols is None) && peer_did_doc(n.state) == peer_did_doc(sm.state)
            && n.agent_info == sm.agent_info),
        ev is ProblemReportReceived ==> (spec_sm_step(sm, ev, ctx) matches Ok((n, o))
            && n.state is Null && o is None),
{
}

/// Once a peer's capabilities are disclosed in the completed state, the
/// connection holds exactly the disclosed list, and its peer stays.
pub proof fn lemma_disclose_records_protocols(sm: SmModel, d: DiscloseModel, ctx: StepContextModel)
    requires
        sm.state is Completed,
    ensures
        spec_sm_step(sm, EventModel::DiscloseReceived(d), ctx) matches Ok((n, o)) && o is None
            && remote_protocols(n.state) == Some(d.protocols) && n.state is Completed
            && peer_did_doc(n.state) == peer_did_doc(sm.state),
{
}

/// A connection that enters the completed state knows nothing of the peer's
/// capabilities yet.
pub proof fn lemma_completion_starts_without_protocols(
    sm: SmModel,
    ev: EventModel,
    ctx: StepContextModel,
)
    requires
        !(sm.state is Completed),
    ensures
        spec_sm_step(sm, ev, ctx) matches Ok((n, _)) ==> remote_protocols(n.state) is None,
{
}

/// In the completed state an acknowledgement or a problem report changes
/// nothing: the connection does not fall back.
pub proof fn lemma_completed_ignores_ack_and_problem_report(
    sm: SmModel,
    ev: EventModel,
    ctx: StepContextModel,
)
    requires
        sm.state is Completed,
        ev is AckReceived || ev is ProblemReportReceived,
    ensures
        spec_sm_step(sm, ev, ctx) == Ok::<_, ConnectionError>((sm, None::<OutboundModel>)),
{
}

/// When exactly one pending message is admitted, the selection is that one.
pub proof fn lemma_unique_admitted_is_selected(
    s: InviterStateModel,
    ms: Seq<(String, A2AMessage)>,
    k: int,
    i: int,
)
    requires
        0 <= k < ms.len(),
        admits(s, ms[k].1@),
        forall|j: int| 0 <= j < ms.len() && j != k ==> !admits(s, #[trigger] ms[j].1@),
        first_admitted(s, ms, i),
    ensures
        i == k,
{
}

/// The initial state admits no inbound message.
pub proof fn lemma_null_admits_nothing(problem_report: Option<crate::messages::ProblemReportModel>, m: A2AMessageModel)
    ensures
        !admits(InviterStateModel::Null { problem_report }, m),
{
}

/// The peer's DID Document is known exactly in the responded and completed
/// states, and a well-formed connection's document lists a recipient key,
/// so that the peer's DID and key can be read there.
pub proof fn lemma_peer_identity_availability(sm: SmModel)
    requires
        sm_wf(sm),
    ensures
        peer_did_doc(sm.state) is None <==> (sm.state is Null || sm.state is Invited),
        peer_did_doc(sm.state) matches Some(d) ==> d.recipient_keys.len() > 0,
{
}

/// Every transition keeps a connection well formed.
pub proof fn lemma_step_preserves_wf(sm: SmModel, ev: EventModel, ctx: StepContextModel)
    requires
        sm_wf(sm),
    ensures
        spec_sm_step(sm, ev, ctx) matches Ok((n, _)) ==> sm_wf(n),
{
}

/// Two handles with the same content, such as a handle and its restored
/// copy, make the same transition on the same event.
pub proof fn lemma_equal_handles_step_alike(
    a: SmConnectionInviter,
    b: SmConnectionInviter,
    ev: EventModel,
    ctx: StepContextModel,
)
    requires
        a@ == b@,
    ensures
        spec_sm_step(a@, ev, ctx) == spec_sm_step(b@, ev, ctx),
{
}

} // verus!
