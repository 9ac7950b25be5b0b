//! The inviter's transition relation, stated over the models: for each state
//! and event, the next state, the identity the connection then speaks under,
//! and the message, if any, that the caller is asked to send.
use vstd::prelude::*;
use crate::agent::AgentInfoModel;
use crate::error::ConnectionError;
use crate::events::{EventModel, OutboundModel, RecipientModel, StepContextModel};
use crate::messages::{
    defect_explanation, did_doc_defect, A2AMessageModel, DidDocDefect, DidDocModel,
    DiscloseModel, InvitationModel, PingModel, PingResponseModel, ProblemCode,
    ProblemReportModel, QueryModel, RequestModel, ResponseModel,
};
use crate::registry::pids_for_query;
use crate::states::InviterStateModel;

verus! {

pub struct TransitionModel {
    pub state: InviterStateModel,
    pub agent_info: AgentInfoModel,
    pub outbound: Option<OutboundModel>,
}

pub open spec fn unchanged(s: InviterStateModel, a: AgentInfoModel) -> TransitionModel {
    TransitionModel { state: s, agent_info: a, outbound: None }
}

pub open spec fn to_peer(m: A2AMessageModel) -> Option<OutboundModel> {
    Some(OutboundModel { message: m, recipient: RecipientModel::Peer })
}

pub open spec fn completed(did_doc: DidDocModel) -> InviterStateModel {
    InviterStateModel::Completed { did_doc, protocols: None }
}

/// The invitation issued under a freshly provisioned identity.
pub open spec fn invitation_for(
    source_id: Seq<char>,
    fresh: AgentInfoModel,
    id: Seq<char>,
) -> InvitationModel {
    InvitationModel {
        id,
        label: source_id,
        service_endpoint: fresh.agency_endpoint,
        recipient_keys: seq![fresh.pw_vk],
        routing_keys: fresh.routing_keys,
    }
}

/// The problem report that refuses a request whose DID Document has a defect.
pub open spec fn rejection_report(
    req: RequestModel,
    defect: DidDocDefect,
    id: Seq<char>,
) -> ProblemReportModel {
    ProblemReportModel {
        id,
        problem_code: ProblemCode::RequestProcessingError,
        explain: defect_explanation(defect),
        thread_id: req.id,
    }
}

/// The answer to an accepted request: the rotated identity, to be signed
/// with the key that the invitation was issued under.
pub open spec fn response_for(
    req: RequestModel,
    fresh: AgentInfoModel,
    prev: AgentInfoModel,
    id: Seq<char>,
) -> ResponseModel {
    ResponseModel {
        id,
        thread_id: req.id,
        did: fresh.pw_did,
        did_doc: DidDocModel {
            id: fresh.pw_did,
            service_endpoint: fresh.agency_endpoint,
            recipient_keys: seq![fresh.pw_vk],
            routing_keys: fresh.routing_keys,
        },
        signer_vk: prev.pw_vk,
    }
}

pub open spec fn spec_connect(
    s: InviterStateModel,
    source_id: Seq<char>,
    a: AgentInfoModel,
    ctx: StepContextModel,
) -> Result<TransitionModel, ConnectionError> {
    match s {
        InviterStateModel::Null { .. } => match ctx.fresh_identity {
            None => Err(ConnectionError::ProvisioningFailure),
            Some(fresh) => Ok(
                TransitionModel {
                    state: InviterStateModel::Invited {
                        invitation: invitation_for(source_id, fresh, ctx.message_id),
                    },
                    agent_info: fresh,
                    outbound: None,
                },
            ),
        },
        _ => Ok(unchanged(s, a)),
    }
}

pub open spec fn spec_receive_request(
    s: InviterStateModel,
    req: RequestModel,
    a: AgentInfoModel,
    ctx: StepContextModel,
) -> Result<TransitionModel, ConnectionError> {
    match s {
        InviterStateModel::Invited { .. } => match did_doc_defect(req.did_doc) {
            Some(defect) => {
                let report = rejection_report(req, defect, ctx.message_id);
                Ok(
                    TransitionModel {
                        state: InviterStateModel::Null { problem_report: Some(report) },
                        agent_info: a,
                        outbound: Some(
                            OutboundModel {
                                message: A2AMessageModel::ConnectionProblemReport(report),
                                recipient: RecipientModel::Document(req.did_doc),
                            },
                        ),
                    },
                )
            },
            None => match ctx.fresh_identity {
                None => Err(ConnectionError::ProvisioningFailure),
                Some(fresh) => Ok(
                    TransitionModel {
                        state: InviterStateModel::Responded {
                            did_doc: req.did_doc,
                            thread_id: req.id,
                            prev_agent_info: a,
                        },
                        agent_info: fresh,
                        outbound: to_peer(
                            A2AMessageModel::ConnectionResponse(
                                response_for(req, fresh, a, ctx.message_id),
                            ),
                        ),
                    },
                ),
            },
        },
        _ => Ok(unchanged(s, a)),
    }
}

/// The answer that a ping asks for, if it asks for one.
pub open spec fn ping_answer(p: PingModel, id: Seq<char>) -> Option<OutboundModel> {
    if p.response_requested {
        to_peer(A2AMessageModel::PingResponse(PingResponseModel { id, thread_id: p.id }))
    } else {
        None
    }
}

pub open spec fn spec_receive_ping(
    s: InviterStateModel,
    p: PingModel,
    a: AgentInfoModel,
    id: Seq<char>,
) -> TransitionModel {
    match s {
        InviterStateModel::Responded { did_doc, .. } => TransitionModel {
            state: completed(did_doc),
            agent_info: a,
            outbound: ping_answer(p, id),
        },
        InviterStateModel::Completed { .. } => TransitionModel {
            state: s,
            agent_info: a,
            outbound: ping_answer(p, id),
        },
        _ => unchanged(s, a),
    }
}

pub open spec fn spec_send_ping(
    s: InviterStateModel,
    comment: Option<Seq<char>>,
    a: AgentInfoModel,
    id: Seq<char>,
) -> TransitionModel {
    match s {
        InviterStateModel::Responded { .. } | InviterStateModel::Completed { .. } => TransitionModel {
            state: s,
            agent_info: a,
            outbound: to_peer(
                A2AMessageModel::Ping(PingModel { id, response_requested: true, comment }),
            ),
        },
        _ => unchanged(s, a),
    }
}

pub open spec fn spec_ping_response_received(
    s: InviterStateModel,
    a: AgentInfoModel,
) -> TransitionModel {
    match s {
        InviterStateModel::Responded { did_doc, .. } => TransitionModel {
            state: completed(did_doc),
            agent_info: a,
            outbound: None,
        },
        _ => unchanged(s, a),
    }
}

pub open spec fn spec_discover_features(
    s: InviterStateModel,
    a: AgentInfoModel,
    query: Option<Seq<char>>,
    comment: Option<Seq<char>>,
    id: Seq<char>,
) -> TransitionModel {
    match s {
        InviterStateModel::Completed { .. } => TransitionModel {
            state: s,
            agent_info: a,
            outbound: to_peer(A2AMessageModel::Query(QueryModel { id, query, comment })),
        },
        _ => unchanged(s, a),
    }
}

pub open spec fn spec_query_received(
    s: InviterStateModel,
    a: AgentInfoModel,
    q: QueryModel,
    id: Seq<char>,
) -> TransitionModel {
    match s {
        InviterStateModel::Completed { .. } => TransitionModel {
            state: s,
            agent_info: a,
            outbound: to_peer(
                A2AMessageModel::Disclose(
                    DiscloseModel { id, thread_id: q.id, protocols: pids_for_query(q.query) },
                ),
            ),
        },
        _ => unchanged(s, a),
    }
}

pub open spec fn spec_disclose_received(
    s: InviterStateModel,
    a: AgentInfoModel,
    d: DiscloseModel,
) -> TransitionModel {
    match s {
        InviterStateModel::Completed { did_doc, .. } => TransitionModel {
            state: InviterStateModel::Completed { did_doc, protocols: Some(d.protocols) },
            agent_info: a,
            outbound: None,
        },
        _ => unchanged(s, a),
    }
}

pub open spec fn spec_receive_problem_report(
    s: InviterStateModel,
    a: AgentInfoModel,
    report: ProblemReportModel,
) -> TransitionModel {
    match s {
        InviterStateModel::Invited { .. } | InviterStateModel::Responded { .. } => TransitionModel {
            state: InviterStateModel::Null { problem_report: Some(report) },
            agent_info: a,
            outbound: None,
        },
        _ => unchanged(s, a),
    }
}

pub open spec fn spec_receive_ack(s: InviterStateModel, a: AgentInfoModel) -> TransitionModel {
    match s {
        InviterStateModel::Responded { did_doc, .. } => TransitionModel {
            state: completed(did_doc),
            agent_info: a,
            outbound: None,
        },
        _ => unchanged(s, a),
    }
}

/// The whole transition relation: one event applied to one state.
pub open spec fn spec_step(
    s: InviterStateModel,
    ev: EventModel,
    source_id: Seq<char>,
    a: AgentInfoModel,
    ctx: StepContextModel,
) -> Result<TransitionModel, ConnectionError> {
    match ev {
        EventModel::Connect => spec_connect(s, source_id, a, ctx),
        EventModel::ExchangeRequestReceived(req) => spec_receive_request(s, req, a, ctx),
        EventModel::AckReceived(_) => Ok(spec_receive_ack(s, a)),
        EventModel::PingReceived(p) => Ok(spec_receive_ping(s, p, a, ctx.message_id)),
        EventModel::ProblemReportReceived(r) => Ok(spec_receive_problem_report(s, a, r)),
        EventModel::SendPing(c) => Ok(spec_send_ping(s, c, a, ctx.message_id)),
        EventModel::PingResponseReceived(_) => Ok(spec_ping_response_received(s, a)),
        EventModel::DiscoverFeatures(q, c) => Ok(
            spec_discover_features(s, a, q, c, ctx.message_id),
        ),
        EventModel::QueryReceived(q) => Ok(spec_query_received(s, a, q, ctx.message_id)),
        EventModel::DiscloseReceived(d) => Ok(spec_disclose_received(s, a, d)),
        EventModel::InvitationReceived(_) => Err(ConnectionError::InvalidForRole),
        EventModel::ExchangeResponseReceived(_) => Err(ConnectionError::InvalidForRole),
        EventModel::Unknown => Ok(unchanged(s, a)),
    }
}

/// The events that move a connection forward from a state, or make it send
/// something: the table of admissible transitions.
pub open spec fn admissible_event(s: InviterStateModel, ev: EventModel) -> bool {
    match s {
        InviterStateModel::Null { .. } => ev is Connect,
        InviterStateModel::Invited { .. } => ev is ExchangeRequestReceived
            || ev is ProblemReportReceived,
        InviterStateModel::Responded { .. } => ev is AckReceived || ev is PingReceived
            || ev is PingResponseReceived || ev is ProblemReportReceived || ev is SendPing,
        InviterStateModel::Completed { .. } => ev is PingReceived || ev is SendPing
            || ev is DiscoverFeatures || ev is QueryReceived || ev is DiscloseReceived,
    }
}

/// The events that belong to the invitee's side of the protocol.
pub open spec fn invalid_for_role(ev: EventModel) -> bool {
    ev is InvitationReceived || ev is ExchangeResponseReceived
}

/// Whether a transition provisions a new pairwise identity.
pub open spec fn rotates_identity(s: InviterStateModel, ev: EventModel) -> bool {
    match (s, ev) {
        (InviterStateModel::Null { .. }, EventModel::Connect) => true,
        (
            InviterStateModel::Invited { .. },
            EventModel::ExchangeRequestReceived(req),
        ) => did_doc_defect(req.did_doc) is None,
        _ => false,
    }
}

/// The inbound message kinds that each state accepts for processing.
pub open spec fn admits(s: InviterStateModel, m: A2AMessageModel) -> bool {
    match s {
        InviterStateModel::Null { .. } => false,
        InviterStateModel::Invited { .. } => m is ConnectionRequest
            || m is ConnectionProblemReport,
        InviterStateModel::Responded { .. } => m is Ack || m is Ping || m is PingResponse
            || m is ConnectionProblemReport,
        InviterStateModel::Completed { .. } => m is Ping || m is PingResponse || m is Query
            || m is Disclose,
    }
}

} // verus!
