//! What drives the state machine, what it is given to act with, and what it
//! asks its caller to send.
use vstd::prelude::*;
use crate::agent::{AgentInfo, AgentInfoModel};
use crate::messages::{
    A2AMessage, A2AMessageModel, Ack, AckModel, DidDoc, DidDocModel, Disclose, DiscloseModel,
    Invitation, InvitationModel, Ping, PingModel, PingResponse, PingResponseModel, ProblemReport,
    ProblemReportModel, Query, QueryModel, Request, RequestModel, Response, ResponseModel,
};

verus! {

/// One event of the connection protocol: a decoded inbound message, or a
/// command of the local user.
#[derive(Debug, Clone)]
pub enum DidExchangeMessages {
    Connect,
    InvitationReceived(Invitation),
    ExchangeRequestReceived(Request),
    ExchangeResponseReceived(Response),
    AckReceived(Ack),
    PingReceived(Ping),
    PingResponseReceived(PingResponse),
    ProblemReportReceived(ProblemReport),
    SendPing(Option<String>),
    DiscoverFeatures(Option<String>, Option<String>),
    QueryReceived(Query),
    DiscloseReceived(Disclose),
    Unknown,
}

pub enum EventModel {
    Connect,
    InvitationReceived(InvitationModel),
    ExchangeRequestReceived(RequestModel),
    ExchangeResponseReceived(ResponseModel),
    AckReceived(AckModel),
    PingReceived(PingModel),
    PingResponseReceived(PingResponseModel),
    ProblemReportReceived(ProblemReportModel),
    SendPing(Option<Seq<char>>),
    DiscoverFeatures(Option<Seq<char>>, Option<Seq<char>>),
    QueryReceived(QueryModel),
    DiscloseReceived(DiscloseModel),
    Unknown,
}

impl View for DidExchangeMessages {
    type V = EventModel;

    open spec fn view(&self) -> EventModel {
        match self {
            DidExchangeMessages::Connect => EventModel::Connect,
            DidExchangeMessages::InvitationReceived(m) => EventModel::InvitationReceived(m@),
            DidExchangeMessages::ExchangeRequestReceived(m) => EventModel::ExchangeRequestReceived(m@),
            DidExchangeMessages::ExchangeResponseReceived(m) => EventModel::ExchangeResponseReceived(m@),
            DidExchangeMessages::AckReceived(m) => EventModel::AckReceived(m@),
            DidExchangeMessages::PingReceived(m) => EventModel::PingReceived(m@),
            DidExchangeMessages::PingResponseReceived(m) => EventModel::PingResponseReceived(m@),
            DidExchangeMessages::ProblemReportReceived(m) => EventModel::ProblemReportReceived(m@),
            DidExchangeMessages::SendPing(c) => EventModel::SendPing(c.deep_view()),
            DidExchangeMessages::DiscoverFeatures(q, c) => EventModel::DiscoverFeatures(
                q.deep_view(),
                c.deep_view(),
            ),
            DidExchangeMessages::QueryReceived(m) => EventModel::QueryReceived(m@),
            DidExchangeMessages::DiscloseReceived(m) => EventModel::DiscloseReceived(m@),
            DidExchangeMessages::Unknown => EventModel::Unknown,
        }
    }
}

/// What the caller supplies to a transition from outside: a freshly
/// provisioned pairwise identity, for the transitions that rotate it, and an
/// identifier for the message that the transition may build.
#[derive(Debug, Clone)]
pub struct StepContext {
    pub fresh_identity: Option<AgentInfo>,
    pub message_id: String,
}

pub struct StepContextModel {
    pub fresh_identity: Option<AgentInfoModel>,
    pub message_id: Seq<char>,
}

pub open spec fn agent_view(a: Option<AgentInfo>) -> Option<AgentInfoModel> {
    match a {
        Some(x) => Some(x@),
        None => None,
    }
}

impl View for StepContext {
    type V = StepContextModel;

    open spec fn view(&self) -> StepContextModel {
        StepContextModel {
            fresh_identity: agent_view(self.fresh_identity),
            message_id: self.message_id@,
        }
    }
}

/// Where an outbound message goes: to the peer whose DID Document the
/// connection holds after the transition, or to the given document.
#[derive(Debug, Clone)]
pub enum Recipient {
    Peer,
    Document(DidDoc),
}

pub enum RecipientModel {
    Peer,
    Document(DidDocModel),
}

impl View for Recipient {
    type V = RecipientModel;

    open spec fn view(&self) -> RecipientModel {
        match self {
            Recipient::Peer => RecipientModel::Peer,
            Recipient::Document(d) => RecipientModel::Document(d@),
        }
    }
}

/// A message that a transition asks its caller to deliver, best effort,
/// from the connection's current pairwise identity.
#[derive(Debug, Clone)]
pub struct Outbound {
    pub message: A2AMessage,
    pub recipient: Recipient,
}

pub struct OutboundModel {
    pub message: A2AMessageModel,
    pub recipient: RecipientModel,
}

impl View for Outbound {
    type V = OutboundModel;

    open spec fn view(&self) -> OutboundModel {
        OutboundModel { message: self.message@, recipient: self.recipient@ }
    }
}

pub open spec fn outbound_view(o: Option<Outbound>) -> Option<OutboundModel> {
    match o {
        Some(x) => Some(x@),
        None => None,
    }
}

} // verus!
