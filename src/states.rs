//! The four states of the inviter's side of the protocol, and what each holds.
use vstd::prelude::*;
use crate::agent::{AgentInfo, AgentInfoModel};
use crate::messages::{DidDoc, DidDocModel, Invitation, InvitationModel, ProblemReport, ProblemReportModel, ProtocolDescriptor};

verus! {

/// No invitation is outstanding; the last problem report, if one ended an
/// earlier attempt, is kept for diagnostics.
#[derive(Debug, Clone)]
pub struct NullState {
    pub problem_report: Option<ProblemReport>,
}

/// An invitation was issued and a connection request is awaited.
#[derive(Debug, Clone)]
pub struct InvitedState {
    pub invitation: Invitation,
}

/// The peer's request was accepted and answered. `prev_agent_info` is the
/// identity that the invitation was issued under, before the rotation.
#[derive(Debug, Clone)]
pub struct RespondedState {
    pub did_doc: DidDoc,
    pub thread_id: String,
    pub prev_agent_info: AgentInfo,
}

/// The connection is established. `protocols` holds what the peer disclosed
/// of its capabilities, once it has.
#[derive(Debug, Clone)]
pub struct CompleteState {
    pub did_doc: DidDoc,
    pub protocols: Option<Vec<ProtocolDescriptor>>,
}

#[derive(Debug, Clone)]
pub enum InviterState {
    Null(NullState),
    Invited(InvitedState),
    Responded(RespondedState),
    Completed(CompleteState),
}

pub enum InviterStateModel {
    Null { problem_report: Option<ProblemReportModel> },
    Invited { invitation: InvitationModel },
    Responded { did_doc: DidDocModel, thread_id: Seq<char>, prev_agent_info: AgentInfoModel },
    Completed { did_doc: DidDocModel, protocols: Option<Seq<Seq<char>>> },
}

pub open spec fn report_view(p: Option<ProblemReport>) -> Option<ProblemReportModel> {
    match p {
        Some(r) => Some(r@),
        None => None,
    }
}

impl View for InviterState {
    type V = InviterStateModel;

    open spec fn view(&self) -> InviterStateModel {
        match self {
            InviterState::Null(s) => InviterStateModel::Null {
                problem_report: report_view(s.problem_report),
            },
            InviterState::Invited(s) => InviterStateModel::Invited { invitation: s.invitation@ },
            InviterState::Responded(s) => InviterStateModel::Responded {
                did_doc: s.did_doc@,
                thread_id: s.thread_id@,
                prev_agent_info: s.prev_agent_info@,
            },
            InviterState::Completed(s) => InviterStateModel::Completed {
                did_doc: s.did_doc@,
                protocols: s.protocols.deep_view(),
            },
        }
    }
}

pub const STATE_INITIALIZED: u32 = 1;
pub const STATE_OFFER_SENT: u32 = 2;
pub const STATE_REQUEST_RECEIVED: u32 = 3;
pub const STATE_ACCEPTED: u32 = 4;

/// The status code that a host shows for a state.
pub open spec fn state_code(s: InviterStateModel) -> u32 {
    match s {
        InviterStateModel::Null { .. } => STATE_INITIALIZED,
        InviterStateModel::Invited { .. } => STATE_OFFER_SENT,
        InviterStateModel::Responded { .. } => STATE_REQUEST_RECEIVED,
        InviterStateModel::Completed { .. } => STATE_ACCEPTED,
    }
}

impl InviterState {
    pub fn code(&self) -> (r: u32)
        ensures
            r == state_code(self@),
    {
        match self {
            InviterState::Null(_) => STATE_INITIALIZED,
            InviterState::Invited(_) => STATE_OFFER_SENT,
            InviterState::Responded(_) => STATE_REQUEST_RECEIVED,
            InviterState::Completed(_) => STATE_ACCEPTED,
        }
    }
}

} // verus!
