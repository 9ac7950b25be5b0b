//! The connection handle of the inviter and its transitions.
use vstd::prelude::*;
use vstd::string::StringExecFns;
use crate::agent::{empty_agent_info, AgentInfo, AgentInfoModel};
use crate::error::ConnectionError;
use crate::events::{
    outbound_view, DidExchangeMessages, Outbound, OutboundModel, Recipient, StepContext,
};
use crate::messages::{
    clone_descriptors, did_doc_valid, A2AMessage, Ack, DidDoc, DidDocModel, Disclose, Invitation,
    Ping, PingResponse, ProblemCode, ProblemReport, ProtocolDescriptor, Query, Request, Response,
};
use crate::protocol::{
    spec_connect, spec_discover_features, spec_disclose_received, spec_ping_response_received,
    spec_receive_ack, spec_receive_ping, spec_receive_problem_report, spec_receive_request,
    spec_query_received, spec_send_ping, spec_step, admits, rotates_identity, TransitionModel,
};
use crate::registry::{protocols_for_query, supported_pids, supported_protocols};
use crate::states::{
    state_code, CompleteState, InvitedState, InviterState, InviterStateModel, NullState,
    RespondedState,
};

verus! {

/// The outcome of one transition: the next state, the identity that the
/// connection speaks under from then on, and what to send, if anything.
#[derive(Debug, Clone)]
pub struct Transition {
    pub state: InviterState,
    pub agent_info: AgentInfo,
    pub outbound: Option<Outbound>,
}

impl View for Transition {
    type V = TransitionModel;

    open spec fn view(&self) -> TransitionModel {
        TransitionModel {
            state: self.state@,
            agent_info: self.agent_info@,
            outbound: outbound_view(self.outbound),
        }
    }
}

pub open spec fn transition_result_view(
    r: Result<Transition, ConnectionError>,
) -> Result<TransitionModel, ConnectionError> {
    match r {
        Ok(t) => Ok(t@),
        Err(e) => Err(e),
    }
}

fn unchanged(state: InviterState, agent_info: AgentInfo) -> (r: Transition)
    ensures
        r@ == crate::protocol::unchanged(state@, agent_info@),
{
    Transition { state, agent_info, outbound: None }
}

fn to_peer(message: A2AMessage) -> (r: Option<Outbound>)
    ensures
        outbound_view(r) == crate::protocol::to_peer(message@),
{
    Some(Outbound { message, recipient: Recipient::Peer })
}

fn completed(did_doc: DidDoc) -> (r: InviterState)
    ensures
        r@ == crate::protocol::completed(did_doc@),
{
    InviterState::Completed(CompleteState { did_doc, protocols: None })
}

fn ping_answer(ping: Ping, message_id: String) -> (r: Option<Outbound>)
    ensures
        outbound_view(r) == crate::protocol::ping_answer(ping@, message_id@),
{
    if ping.response_requested {
        to_peer(A2AMessage::PingResponse(PingResponse { id: message_id, thread_id: ping.id }))
    } else {
        None
    }
}

pub struct SmModel {
    pub source_id: Seq<char>,
    pub agent_info: AgentInfoModel,
    pub state: InviterStateModel,
}

/// The inviter's side of one connection: an immutable value that each event
/// turns into the next.
#[derive(Debug, Clone)]
pub struct SmConnectionInviter {
    source_id: String,
    agent_info: AgentInfo,
    state: InviterState,
}

impl View for SmConnectionInviter {
    type V = SmModel;

    closed spec fn view(&self) -> SmModel {
        SmModel { source_id: self.source_id@, agent_info: self.agent_info@, state: self.state@ }
    }
}

/// One event applied to a whole connection: its `source_id` stays.
pub open spec fn spec_sm_step(
    sm: SmModel,
    ev: crate::events::EventModel,
    ctx: crate::events::StepContextModel,
) -> Result<(SmModel, Option<OutboundModel>), ConnectionError> {
    match spec_step(sm.state, ev, sm.source_id, sm.agent_info, ctx) {
        Ok(t) => Ok(
            (SmModel { source_id: sm.source_id, agent_info: t.agent_info, state: t.state }, t.outbound),
        ),
        Err(e) => Err(e),
    }
}

pub open spec fn step_result_view(
    r: Result<(SmConnectionInviter, Option<Outbound>), ConnectionError>,
) -> Result<(SmModel, Option<OutboundModel>), ConnectionError> {
    match r {
        Ok((sm, o)) => Ok((sm@, outbound_view(o))),
        Err(e) => Err(e),
    }
}

/// The peer's DID Document, which the connection holds once a request was accepted.
pub open spec fn peer_did_doc(s: InviterStateModel) -> Option<DidDocModel> {
    match s {
        InviterStateModel::Responded { did_doc, .. } => Some(did_doc),
        InviterStateModel::Completed { did_doc, .. } => Some(did_doc),
        _ => None,
    }
}

/// What the peer disclosed of its capabilities, in the state that can hold it.
pub open spec fn remote_protocols(s: InviterStateModel) -> Option<Seq<Seq<char>>> {
    match s {
        InviterStateModel::Completed { protocols, .. } => protocols,
        _ => None,
    }
}

/// A connection is well formed when the peer's DID Document that it holds
/// passed validation.
pub open spec fn sm_wf(sm: SmModel) -> bool {
    match peer_did_doc(sm.state) {
        Some(d) => did_doc_valid(d),
        None => true,
    }
}

/// The entry at `i` is the first of the pending messages that the state admits.
pub open spec fn first_admitted(s: InviterStateModel, ms: Seq<(String, A2AMessage)>, i: int) -> bool {
    &&& 0 <= i < ms.len()
    &&& admits(s, ms[i].1@)
    &&& forall|j: int| 0 <= j < i ==> !admits(s, #[trigger] ms[j].1@)
}

impl SmConnectionInviter {
    /// A connection in the initial state, with no identity provisioned yet.
    pub fn new(source_id: &str) -> (r: SmConnectionInviter)
        ensures
            r@ == (SmModel {
                source_id: source_id@,
                agent_info: empty_agent_info(),
                state: InviterStateModel::Null { problem_report: None },
            }),
            sm_wf(r@),
    {
        Self::_build_inviter(source_id)
    }

    pub fn _build_inviter(source_id: &str) -> (r: SmConnectionInviter)
        ensures
            r@ == (SmModel {
                source_id: source_id@,
                agent_info: empty_agent_info(),
                state: InviterStateModel::Null { problem_report: None },
            }),
    {
        SmConnectionInviter {
            source_id: String::from_str(source_id),
            state: InviterState::Null(NullState { problem_report: None }),
            agent_info: AgentInfo::default(),
        }
    }

    /// A connection resumed from its parts.
    pub fn from(source_id: String, agent_info: AgentInfo, state: InviterState) -> (r:
        SmConnectionInviter)
        ensures
            r@ == (SmModel { source_id: source_id@, agent_info: agent_info@, state: state@ }),
    {
        SmConnectionInviter { source_id, agent_info, state }
    }

    pub fn is_in_null_state(&self) -> (r: bool)
        ensures
            r == self@.state is Null,
    {
        match self.state {
            InviterState::Null(_) => true,
            _ => false,
        }
    }

    pub fn agent_info(&self) -> (r: &AgentInfo)
        ensures
            r@ == self@.agent_info,
    {
        &self.agent_info
    }

    pub fn source_id(&self) -> (r: &str)
        ensures
            r@ == self@.source_id,
    {
        self.source_id.as_str()
    }

    pub fn state(&self) -> (r: u32)
        ensures
            r == state_code(self@.state),
    {
        self.state.code()
    }

    pub fn state_object(&self) -> (r: &InviterState)
        ensures
            r@ == self@.state,
    {
        &self.state
    }

    pub fn their_did_doc(&self) -> (r: Option<DidDoc>)
        ensures
            r matches Some(d) ==> peer_did_doc(self@.state) == Some(d@),
            r is None <==> peer_did_doc(self@.state) is None,
    {
        match &self.state {
            InviterState::Responded(state) => Some(state.did_doc.duplicate()),
            InviterState::Completed(state) => Some(state.did_doc.duplicate()),
            _ => None,
        }
    }

    /// The invitation that is outstanding, in the state that has one.
    pub fn get_invitation(&self) -> (r: Option<&Invitation>)
        ensures
            self@.state matches InviterStateModel::Invited { invitation }
                ==> (r matches Some(i) && i@ == invitation),
            !(self@.state is Invited) ==> r is None,
    {
        match &self.state {
            InviterState::Invited(state) => Some(&state.invitation),
            _ => None,
        }
    }

    /// The protocols that this agent supports.
    pub fn get_protocols(&self) -> (r: Vec<ProtocolDescriptor>)
        ensures
            r.deep_view() == supported_pids(),
    {
        supported_protocols()
    }

    pub fn get_remote_protocols(&self) -> (r: Option<Vec<ProtocolDescriptor>>)
        ensures
            r.deep_view() == remote_protocols(self@.state),
    {
        match &self.state {
            InviterState::Completed(state) => match &state.protocols {
                Some(p) => Some(clone_descriptors(p)),
                None => None,
            },
            _ => None,
        }
    }

    /// The peer's DID.
    pub fn remote_did(&self) -> (r: Result<String, ConnectionError>)
        ensures
            peer_did_doc(self@.state) matches Some(d) ==> (r matches Ok(did) && did@ == d.id),
            peer_did_doc(self@.state) is None ==> r == Err::<String, _>(ConnectionError::NotReady),
    {
        match self.their_did_doc() {
            Some(did_doc) => Ok(did_doc.id),
            None => Err(ConnectionError::NotReady),
        }
    }

    /// The peer's primary verification key: the first recipient key of its document.
    pub fn remote_vk(&self) -> (r: Result<String, ConnectionError>)
        ensures
            peer_did_doc(self@.state) matches Some(d) ==> (d.recipient_keys.len() > 0
                ==> (r matches Ok(vk) && vk@ == d.recipient_keys[0])),
            peer_did_doc(self@.state) matches Some(d) ==> (d.recipient_keys.len() == 0
                ==> r == Err::<String, _>(ConnectionError::NotReady)),
            peer_did_doc(self@.state) is None ==> r == Err::<String, _>(ConnectionError::NotReady),
    {
        match self.their_did_doc() {
            Some(did_doc) => match did_doc.primary_key() {
                Some(vk) => Ok(vk.clone()),
                None => Err(ConnectionError::NotReady),
            },
            None => Err(ConnectionError::NotReady),
        }
    }

    /// The identity that the invitation was issued under, while the
    /// connection awaits the peer's acknowledgement.
    pub fn prev_agent_info(&self) -> (r: Option<&AgentInfo>)
        ensures
            self@.state matches InviterStateModel::Responded { prev_agent_info, .. }
                ==> (r matches Some(a) && a@ == prev_agent_info),
            !(self@.state is Responded) ==> r is None,
    {
        match &self.state {
            InviterState::Responded(state) => Some(&state.prev_agent_info),
            _ => None,
        }
    }

    /// Whether an inbound message of this kind can be processed in the
    /// current state; only the kind counts, not the content.
    pub fn can_handle_message(&self, message: &A2AMessage) -> (r: bool)
        ensures
            r == admits(self@.state, message@),
    {
        match &self.state {
            InviterState::Invited(_) => match message {
                A2AMessage::ConnectionRequest(_) => true,
                A2AMessage::ConnectionProblemReport(_) => true,
                _ => false,
            },
            InviterState::Responded(_) => match message {
                A2AMessage::Ack(_) => true,
                A2AMessage::Ping(_) => true,
                A2AMessage::PingResponse(_) => true,
                A2AMessage::ConnectionProblemReport(_) => true,
                _ => false,
            },
            InviterState::Completed(_) => match message {
                A2AMessage::Ping(_) => true,
                A2AMessage::PingResponse(_) => true,
                A2AMessage::Query(_) => true,
                A2AMessage::Disclose(_) => true,
                _ => false,
            },
            InviterState::Null(_) => false,
        }
    }

    /// Takes, out of the pending messages keyed by delivery id, the first
    /// that the current state admits.
    pub fn find_message_to_handle(&self, messages: Vec<(String, A2AMessage)>) -> (r: Option<
        (String, A2AMessage),
    >)
        ensures
            r is None <==> forall|i: int|
                0 <= i < messages@.len() ==> !admits(self@.state, #[trigger] messages@[i].1@),
            r matches Some(entry) ==> exists|i: int|
                first_admitted(self@.state, messages@, i) && entry == #[trigger] messages@[i],
    {
        let ghost pending = messages@;
        let mut queue = messages;
        let mut i: usize = 0;
        while i < queue.len()
            invariant
                queue@ == pending,
                pending == messages@,
                i <= queue.len(),
                forall|j: int| 0 <= j < i ==> !admits(self@.state, #[trigger] pending[j].1@),
            decreases queue.len() - i,
        {
            if self.can_handle_message(&queue[i].1) {
                assert(admits(self@.state, pending[i as int].1@));
                let entry = queue.remove(i);
                assert(first_admitted(self@.state, pending, i as int));
                return Some(entry);
            }
            i = i + 1;
        }
        None
    }

    /// Whether applying the event provisions a new pairwise identity, which
    /// the caller must then supply in the step's context.
    pub fn needs_fresh_identity(&self, message: &DidExchangeMessages) -> (r: bool)
        ensures
            r == rotates_identity(self@.state, message@),
    {
        match (&self.state, message) {
            (InviterState::Null(_), DidExchangeMessages::Connect) => true,
            (InviterState::Invited(_), DidExchangeMessages::ExchangeRequestReceived(request)) => {
                request.did_doc.validate().is_ok()
            },
            _ => false,
        }
    }

    pub fn transition_connect(
        inviter_state: InviterState,
        source_id: &str,
        agent_info: AgentInfo,
        ctx: StepContext,
    ) -> (r: Result<Transition, ConnectionError>)
        ensures
            transition_result_view(r) == spec_connect(
                inviter_state@,
                source_id@,
                agent_info@,
                ctx@,
            ),
    {
        match inviter_state {
            InviterState::Null(_) => match ctx.fresh_identity {
                None => Err(ConnectionError::ProvisioningFailure),
                Some(fresh) => {
                    let invitation = Invitation {
                        id: ctx.message_id,
                        label: String::from_str(source_id),
                        service_endpoint: fresh.agency_endpoint(),
                        recipient_keys: fresh.recipient_keys(),
                        routing_keys: fresh.routing_keys(),
                    };
                    Ok(
                        Transition {
                            state: InviterState::Invited(InvitedState { invitation }),
                            agent_info: fresh,
                            outbound: None,
                        },
                    )
                },
            },
            other => Ok(unchanged(other, agent_info)),
        }
    }

    pub fn transition_receive_connection_request(
        inviter_state: InviterState,
        request: Request,
        agent_info: AgentInfo,
        ctx: StepContext,
    ) -> (r: Result<Transition, ConnectionError>)
        ensures
            transition_result_view(r) == spec_receive_request(
                inviter_state@,
                request@,
                agent_info@,
                ctx@,
            ),
    {
        match inviter_state {
            InviterState::Invited(_) => match request.did_doc.validate() {
                Err(defect) => {
                    let report = ProblemReport {
                        id: ctx.message_id,
                        problem_code: ProblemCode::RequestProcessingError,
                        explain: defect.explain(),
                        thread_id: request.id,
                    };
                    let sent = report.duplicate();
                    Ok(
                        Transition {
                            state: InviterState::Null(NullState { problem_report: Some(report) }),
                            agent_info,
                            outbound: Some(
                                Outbound {
                                    message: A2AMessage::ConnectionProblemReport(sent),
                                    recipient: Recipient::Document(request.did_doc),
                                },
                            ),
                        },
                    )
                },
                Ok(()) => match ctx.fresh_identity {
                    None => Err(ConnectionError::ProvisioningFailure),
                    Some(fresh) => {
                        let response = Response {
                            id: ctx.message_id,
                            thread_id: request.id.clone(),
                            did: fresh.pw_did.clone(),
                            did_doc: DidDoc {
                                id: fresh.pw_did.clone(),
                                service_endpoint: fresh.agency_endpoint(),
                                recipient_keys: fresh.recipient_keys(),
                                routing_keys: fresh.routing_keys(),
                            },
                            signer_vk: agent_info.pw_vk.clone(),
                        };
                        Ok(
                            Transition {
                                state: InviterState::Responded(
                                    RespondedState {
                                        did_doc: request.did_doc,
                                        thread_id: request.id,
                                        prev_agent_info: agent_info,
                                    },
                                ),
                                agent_info: fresh,
                                outbound: to_peer(A2AMessage::ConnectionResponse(response)),
                            },
                        )
                    },
                },
            },
            other => Ok(unchanged(other, agent_info)),
        }
    }

    pub fn transition_receive_ping(
        inviter_state: InviterState,
        ping: Ping,
        agent_info: AgentInfo,
        message_id: String,
    ) -> (r: Transition)
        ensures
            r@ == spec_receive_ping(inviter_state@, ping@, agent_info@, message_id@),
    {
        match inviter_state {
            InviterState::Responded(state) => Transition {
                state: completed(state.did_doc),
                agent_info,
                outbound: ping_answer(ping, message_id),
            },
            InviterState::Completed(state) => Transition {
                state: InviterState::Completed(state),
                agent_info,
                outbound: ping_answer(ping, message_id),
            },
            other => unchanged(other, agent_info),
        }
    }

    pub fn transition_send_ping(
        inviter_state: InviterState,
        comment: Option<String>,
        agent_info: AgentInfo,
        message_id: String,
    ) -> (r: Transition)
        ensures
            r@ == spec_send_ping(inviter_state@, comment.deep_view(), agent_info@, message_id@),
    {
        match inviter_state {
            InviterState::Responded(_) | InviterState::Completed(_) => {
                let ping = Ping { id: message_id, response_requested: true, comment };
                Transition { state: inviter_state, agent_info, outbound: to_peer(A2AMessage::Ping(ping)) }
            },
            other => unchanged(other, agent_info),
        }
    }

    pub fn transition_ping_response_received(
        inviter_state: InviterState,
        ping_response: PingResponse,
        agent_info: AgentInfo,
    ) -> (r: Transition)
        ensures
            r@ == spec_ping_response_received(inviter_state@, agent_info@),
    {
        match inviter_state {
            InviterState::Responded(state) => Transition {
                state: completed(state.did_doc),
                agent_info,
                outbound: None,
            },
            other => unchanged(other, agent_info),
        }
    }

    pub fn transition_discover_features_received(
        inviter_state: InviterState,
        agent_info: AgentInfo,
        query_: Option<String>,
        comment: Option<String>,
        message_id: String,
    ) -> (r: Transition)
        ensures
            r@ == spec_discover_features(
                inviter_state@,
                agent_info@,
                query_.deep_view(),
                comment.deep_view(),
                message_id@,
            ),
    {
        match inviter_state {
            InviterState::Completed(_) => {
                let query = Query { id: message_id, query: query_, comment };
                Transition {
                    state: inviter_state,
                    agent_info,
                    outbound: to_peer(A2AMessage::Query(query)),
                }
            },
            other => unchanged(other, agent_info),
        }
    }

    pub fn transition_discovery_query_received(
        inviter_state: InviterState,
        agent_info: AgentInfo,
        query: Query,
        message_id: String,
    ) -> (r: Transition)
        ensures
            r@ == spec_query_received(inviter_state@, agent_info@, query@, message_id@),
    {
        match inviter_state {
            InviterState::Completed(_) => {
                let disclose = Disclose {
                    id: message_id,
                    protocols: protocols_for_query(&query.query),
                    thread_id: query.id,
                };
                Transition {
                    state: inviter_state,
                    agent_info,
                    outbound: to_peer(A2AMessage::Disclose(disclose)),
                }
            },
            other => unchanged(other, agent_info),
        }
    }

    pub fn transition_disclose_received(
        inviter_state: InviterState,
        agent_info: AgentInfo,
        disclose: Disclose,
    ) -> (r: Transition)
        ensures
            r@ == spec_disclose_received(inviter_state@, agent_info@, disclose@),
    {
        match inviter_state {
            InviterState::Completed(state) => Transition {
                state: InviterState::Completed(
                    CompleteState { did_doc: state.did_doc, protocols: Some(disclose.protocols) },
                ),
                agent_info,
                outbound: None,
            },
            other => unchanged(other, agent_info),
        }
    }

    pub fn transition_receive_problem_report(
        inviter_state: InviterState,
        agent_info: AgentInfo,
        problem_report: ProblemReport,
    ) -> (r: Transition)
        ensures
            r@ == spec_receive_problem_report(inviter_state@, agent_info@, problem_report@),
    {
        match inviter_state {
            InviterState::Invited(_) | InviterState::Responded(_) => Transition {
                state: InviterState::Null(NullState { problem_report: Some(problem_report) }),
                agent_info,
                outbound: None,
            },
            other => unchanged(other, agent_info),
        }
    }

    pub fn transition_receive_ack(
        inviter_state: InviterState,
        agent_info: AgentInfo,
        ack: Ack,
    ) -> (r: Transition)
        ensures
            r@ == spec_receive_ack(inviter_state@, agent_info@),
    {
        match inviter_state {
            InviterState::Responded(state) => Transition {
                state: completed(state.did_doc),
                agent_info,
                outbound: None,
            },
            other => unchanged(other, agent_info),
        }
    }

    /// Applies one event to a state; fails only where a fresh identity was
    /// needed and none was given, or where the event is the invitee's.
    pub fn inviter_step(
        inviter_state: InviterState,
        message: DidExchangeMessages,
        source_id: &str,
        agent_info: AgentInfo,
        ctx: StepContext,
    ) -> (r: Result<Transition, ConnectionError>)
        ensures
            transition_result_view(r) == spec_step(
                inviter_state@,
                message@,
                source_id@,
                agent_info@,
                ctx@,
            ),
    {
        match message {
            DidExchangeMessages::Connect => Self::transition_connect(
                inviter_state,
                source_id,
                agent_info,
                ctx,
            ),
            DidExchangeMessages::ExchangeRequestReceived(request) => {
                Self::transition_receive_connection_request(inviter_state, request, agent_info, ctx)
            },
            DidExchangeMessages::AckReceived(ack) => Ok(
                Self::transition_receive_ack(inviter_state, agent_info, ack),
            ),
            DidExchangeMessages::PingReceived(ping) => Ok(
                Self::transition_receive_ping(inviter_state, ping, agent_info, ctx.message_id),
            ),
            DidExchangeMessages::ProblemReportReceived(problem_report) => Ok(
                Self::transition_receive_problem_report(inviter_state, agent_info, problem_report),
            ),
            DidExchangeMessages::SendPing(comment) => Ok(
                Self::transition_send_ping(inviter_state, comment, agent_info, ctx.message_id),
            ),
            DidExchangeMessages::PingResponseReceived(ping_response) => Ok(
                Self::transition_ping_response_received(inviter_state, ping_response, agent_info),
            ),
            DidExchangeMessages::DiscoverFeatures(query_, comment) => Ok(
                Self::transition_discover_features_received(
                    inviter_state,
                    agent_info,
                    query_,
                    comment,
                    ctx.message_id,
                ),
            ),
            DidExchangeMessages::QueryReceived(query) => Ok(
                Self::transition_discovery_query_received(
                    inviter_state,
                    agent_info,
                    query,
                    ctx.message_id,
                ),
            ),
            DidExchangeMessages::DiscloseReceived(disclose) => Ok(
                Self::transition_disclose_received(inviter_state, agent_info, disclose),
            ),
            DidExchangeMessages::InvitationReceived(_) => Err(ConnectionError::InvalidForRole),
            DidExchangeMessages::ExchangeResponseReceived(_) => Err(
                ConnectionError::InvalidForRole,
            ),
            DidExchangeMessages::Unknown => Ok(unchanged(inviter_state, agent_info)),
        }
    }

    /// Applies one event to the connection. The result keeps the
    /// `source_id`; the outbound message, if any, is for the caller to send.
    pub fn step(self, message: DidExchangeMessages, ctx: StepContext) -> (r: Result<
        (SmConnectionInviter, Option<Outbound>),
        ConnectionError,
    >)
        ensures
            step_result_view(r) == spec_sm_step(self@, message@, ctx@),
    {
        let SmConnectionInviter { source_id, agent_info, state } = self;
        match Self::inviter_step(state, message, source_id.as_str(), agent_info, ctx) {
            Ok(t) => Ok(
                (SmConnectionInviter { source_id, agent_info: t.agent_info, state: t.state }, t.outbound),
            ),
            Err(e) => Err(e),
        }
    }
}

} // verus!
