//! The protocol messages exchanged by the connection protocol, with their
//! mathematical models.
use vstd::prelude::*;
use vstd::string::StringExecFns;
use crate::agent::clone_strings;

verus! {

/// The addressing half of a DID Document: who the peer is and how to reach it.
#[derive(Debug, Clone)]
pub struct DidDoc {
    pub id: String,
    pub service_endpoint: String,
    pub recipient_keys: Vec<String>,
    pub routing_keys: Vec<String>,
}

pub struct DidDocModel {
    pub id: Seq<char>,
    pub service_endpoint: Seq<char>,
    pub recipient_keys: Seq<Seq<char>>,
    pub routing_keys: Seq<Seq<char>>,
}

impl View for DidDoc {
    type V = DidDocModel;

    open spec fn view(&self) -> DidDocModel {
        DidDocModel {
            id: self.id@,
            service_endpoint: self.service_endpoint@,
            recipient_keys: self.recipient_keys.deep_view(),
            routing_keys: self.routing_keys.deep_view(),
        }
    }
}

/// Why a DID Document is refused, if it is.
#[derive(Debug, Clone, Copy, PartialEq, Eq, Structural)]
pub enum DidDocDefect {
    EmptyId,
    EmptyServiceEndpoint,
    NoRecipientKeys,
    EmptyKey,
}

/// All keys of the list are non-empty.
pub open spec fn keys_non_empty(keys: Seq<Seq<char>>) -> bool {
    forall|i: int| 0 <= i < keys.len() ==> (#[trigger] keys[i]).len() > 0
}

/// The first defect of a DID Document, in the order in which they are checked.
pub open spec fn did_doc_defect(d: DidDocModel) -> Option<DidDocDefect> {
    if d.id.len() == 0 {
        Some(DidDocDefect::EmptyId)
    } else if d.service_endpoint.len() == 0 {
        Some(DidDocDefect::EmptyServiceEndpoint)
    } else if d.recipient_keys.len() == 0 {
        Some(DidDocDefect::NoRecipientKeys)
    } else if !keys_non_empty(d.recipient_keys) || !keys_non_empty(d.routing_keys) {
        Some(DidDocDefect::EmptyKey)
    } else {
        None
    }
}

pub open spec fn did_doc_valid(d: DidDocModel) -> bool {
    did_doc_defect(d) is None
}

pub open spec fn defect_explanation(d: DidDocDefect) -> Seq<char> {
    match d {
        DidDocDefect::EmptyId => "DID Document validation failed: id is empty"@,
        DidDocDefect::EmptyServiceEndpoint => "DID Document validation failed: service endpoint is empty"@,
        DidDocDefect::NoRecipientKeys => "DID Document validation failed: no recipient keys"@,
        DidDocDefect::EmptyKey => "DID Document validation failed: a key is empty"@,
    }
}

impl DidDocDefect {
    /// The explanation that a problem report gives for the defect.
    pub fn explain(&self) -> (r: String)
        ensures
            r@ == defect_explanation(*self),
    {
        match self {
            DidDocDefect::EmptyId => String::from_str("DID Document validation failed: id is empty"),
            DidDocDefect::EmptyServiceEndpoint => String::from_str(
                "DID Document validation failed: service endpoint is empty",
            ),
            DidDocDefect::NoRecipientKeys => String::from_str(
                "DID Document validation failed: no recipient keys",
            ),
            DidDocDefect::EmptyKey => String::from_str("DID Document validation failed: a key is empty"),
        }
    }
}

impl DidDoc {
    /// A copy of the document.
    pub fn duplicate(&self) -> (r: DidDoc)
        ensures
            r@ == self@,
    {
        DidDoc {
            id: self.id.clone(),
            service_endpoint: self.service_endpoint.clone(),
            recipient_keys: clone_strings(&self.recipient_keys),
            routing_keys: clone_strings(&self.routing_keys),
        }
    }

    /// A document with nothing in it, which no validation accepts.
    pub fn empty() -> (r: DidDoc)
        ensures
            r@.id.len() == 0,
            r@.service_endpoint.len() == 0,
            r@.recipient_keys.len() == 0,
            r@.routing_keys.len() == 0,
    {
        DidDoc {
            id: String::new(),
            service_endpoint: String::new(),
            recipient_keys: Vec::new(),
            routing_keys: Vec::new(),
        }
    }

    /// The first recipient key, if the document lists any.
    pub fn primary_key(&self) -> (r: Option<&String>)
        ensures
            self@.recipient_keys.len() == 0 ==> r is None,
            self@.recipient_keys.len() > 0 ==> (r matches Some(k) && k@ == self@.recipient_keys[0]),
    {
        if self.recipient_keys.len() == 0 {
            None
        } else {
            Some(&self.recipient_keys[0])
        }
    }

    /// Checks that the document names the peer, gives a place to reach it
    /// and keys to encrypt for.
    pub fn validate(&self) -> (r: Result<(), DidDocDefect>)
        ensures
            r matches Ok(_) <==> did_doc_valid(self@),
            r matches Err(e) ==> did_doc_defect(self@) == Some(e),
    {
        if self.id.as_str().is_empty() {
            return Err(DidDocDefect::EmptyId);
        }
        if self.service_endpoint.as_str().is_empty() {
            return Err(DidDocDefect::EmptyServiceEndpoint);
        }
        if self.recipient_keys.len() == 0 {
            return Err(DidDocDefect::NoRecipientKeys);
        }
        if !all_non_empty(&self.recipient_keys) || !all_non_empty(&self.routing_keys) {
            return Err(DidDocDefect::EmptyKey);
        }
        Ok(())
    }
}

fn all_non_empty(keys: &Vec<String>) -> (r: bool)
    ensures
        r == keys_non_empty(keys.deep_view()),
{
    let mut i: usize = 0;
    while i < keys.len()
        invariant
            i <= keys.len(),
            forall|j: int| 0 <= j < i ==> (#[trigger] keys.deep_view()[j]).len() > 0,
        decreases keys.len() - i,
    {
        if keys[i].as_str().is_empty() {
            assert(keys.deep_view()[i as int].len() == 0);
            return false;
        }
        i = i + 1;
    }
    true
}


/// An out-of-band invitation to connect, issued by the inviter.
#[derive(Debug, Clone)]
pub struct Invitation {
    pub id: String,
    pub label: String,
    pub service_endpoint: String,
    pub recipient_keys: Vec<String>,
    pub routing_keys: Vec<String>,
}

pub struct InvitationModel {
    pub id: Seq<char>,
    pub label: Seq<char>,
    pub service_endpoint: Seq<char>,
    pub recipient_keys: Seq<Seq<char>>,
    pub routing_keys: Seq<Seq<char>>,
}

impl View for Invitation {
    type V = InvitationModel;

    open spec fn view(&self) -> InvitationModel {
        InvitationModel {
            id: self.id@,
            label: self.label@,
            service_endpoint: self.service_endpoint@,
            recipient_keys: self.recipient_keys.deep_view(),
            routing_keys: self.routing_keys.deep_view(),
        }
    }
}

/// A connection request: the invitee's answer to an invitation.
#[derive(Debug, Clone)]
pub struct Request {
    pub id: String,
    pub label: String,
    pub did: String,
    pub did_doc: DidDoc,
}

pub struct RequestModel {
    pub id: Seq<char>,
    pub label: Seq<char>,
    pub did: Seq<char>,
    pub did_doc: DidDocModel,
}

impl View for Request {
    type V = RequestModel;

    open spec fn view(&self) -> RequestModel {
        RequestModel { id: self.id@, label: self.label@, did: self.did@, did_doc: self.did_doc@ }
    }
}

/// A connection response: the inviter's new pairwise identity, sent back on
/// the request's thread. Its connection data is to be signed with
/// `signer_vk`, the key that the invitation was issued under.
#[derive(Debug, Clone)]
pub struct Response {
    pub id: String,
    pub thread_id: String,
    pub did: String,
    pub did_doc: DidDoc,
    pub signer_vk: String,
}

pub struct ResponseModel {
    pub id: Seq<char>,
    pub thread_id: Seq<char>,
    pub did: Seq<char>,
    pub did_doc: DidDocModel,
    pub signer_vk: Seq<char>,
}

impl View for Response {
    type V = ResponseModel;

    open spec fn view(&self) -> ResponseModel {
        ResponseModel {
            id: self.id@,
            thread_id: self.thread_id@,
            did: self.did@,
            did_doc: self.did_doc@,
            signer_vk: self.signer_vk@,
        }
    }
}

#[derive(Debug, Clone, Copy, PartialEq, Eq, Structural)]
pub enum ProblemCode {
    Empty,
    RequestNotAccepted,
    RequestProcessingError,
    ResponseNotAccepted,
    ResponseProcessingError,
}

/// A signed error notification, correlated to the thread it concerns.
#[derive(Debug, Clone)]
pub struct ProblemReport {
    pub id: String,
    pub problem_code: ProblemCode,
    pub explain: String,
    pub thread_id: String,
}

pub struct ProblemReportModel {
    pub id: Seq<char>,
    pub problem_code: ProblemCode,
    pub explain: Seq<char>,
    pub thread_id: Seq<char>,
}

impl ProblemReport {
    /// A copy of the report.
    pub fn duplicate(&self) -> (r: ProblemReport)
        ensures
            r@ == self@,
    {
        ProblemReport {
            id: self.id.clone(),
            problem_code: self.problem_code,
            explain: self.explain.clone(),
            thread_id: self.thread_id.clone(),
        }
    }
}

impl View for ProblemReport {
    type V = ProblemReportModel;

    open spec fn view(&self) -> ProblemReportModel {
        ProblemReportModel {
            id: self.id@,
            problem_code: self.problem_code,
            explain: self.explain@,
            thread_id: self.thread_id@,
        }
    }
}

#[derive(Debug, Clone)]
pub struct Ack {
    pub id: String,
    pub thread_id: String,
}

pub struct AckModel {
    pub id: Seq<char>,
    pub thread_id: Seq<char>,
}

impl View for Ack {
    type V = AckModel;

    open spec fn view(&self) -> AckModel {
        AckModel { id: self.id@, thread_id: self.thread_id@ }
    }
}

/// A trust ping; the sender asks for an answer when `response_requested` is set.
#[derive(Debug, Clone)]
pub struct Ping {
    pub id: String,
    pub response_requested: bool,
    pub comment: Option<String>,
}

pub struct PingModel {
    pub id: Seq<char>,
    pub response_requested: bool,
    pub comment: Option<Seq<char>>,
}

impl View for Ping {
    type V = PingModel;

    open spec fn view(&self) -> PingModel {
        PingModel {
            id: self.id@,
            response_requested: self.response_requested,
            comment: self.comment.deep_view(),
        }
    }
}

#[derive(Debug, Clone)]
pub struct PingResponse {
    pub id: String,
    pub thread_id: String,
}

pub struct PingResponseModel {
    pub id: Seq<char>,
    pub thread_id: Seq<char>,
}

impl View for PingResponse {
    type V = PingResponseModel;

    open spec fn view(&self) -> PingResponseModel {
        PingResponseModel { id: self.id@, thread_id: self.thread_id@ }
    }
}

/// A feature-discovery query; `query` is a protocol identifier prefix,
/// optionally ending in `*`.
#[derive(Debug, Clone)]
pub struct Query {
    pub id: String,
    pub query: Option<String>,
    pub comment: Option<String>,
}

pub struct QueryModel {
    pub id: Seq<char>,
    pub query: Option<Seq<char>>,
    pub comment: Option<Seq<char>>,
}

impl View for Query {
    type V = QueryModel;

    open spec fn view(&self) -> QueryModel {
        QueryModel { id: self.id@, query: self.query.deep_view(), comment: self.comment.deep_view() }
    }
}

/// One protocol that an agent supports, named by its identifier.
#[derive(Debug, Clone)]
pub struct ProtocolDescriptor {
    pub pid: String,
}

/// A copy of a list of protocol descriptors.
pub fn clone_descriptors(v: &Vec<ProtocolDescriptor>) -> (r: Vec<ProtocolDescriptor>)
    ensures
        r.deep_view() == v.deep_view(),
{
    let mut r: Vec<ProtocolDescriptor> = Vec::new();
    let mut i: usize = 0;
    while i < v.len()
        invariant
            i <= v.len(),
            r@.len() == i,
            forall|j: int| 0 <= j < i ==> (#[trigger] r@[j]).pid@ == v@[j].pid@,
        decreases v.len() - i,
    {
        r.push(ProtocolDescriptor { pid: v[i].pid.clone() });
        i = i + 1;
    }
    assert(r.deep_view() =~= v.deep_view());
    r
}

impl DeepView for ProtocolDescriptor {
    type V = Seq<char>;

    open spec fn deep_view(&self) -> Seq<char> {
        self.pid@
    }
}

/// The answer to a query: the protocols that the sender supports.
#[derive(Debug, Clone)]
pub struct Disclose {
    pub id: String,
    pub thread_id: String,
    pub protocols: Vec<ProtocolDescriptor>,
}

pub struct DiscloseModel {
    pub id: Seq<char>,
    pub thread_id: Seq<char>,
    pub protocols: Seq<Seq<char>>,
}

impl View for Disclose {
    type V = DiscloseModel;

    open spec fn view(&self) -> DiscloseModel {
        DiscloseModel {
            id: self.id@,
            thread_id: self.thread_id@,
            protocols: self.protocols.deep_view(),
        }
    }
}

/// A decoded inbound or outbound wire message.
#[derive(Debug, Clone)]
pub enum A2AMessage {
    ConnectionInvitation(Invitation),
    ConnectionRequest(Request),
    ConnectionResponse(Response),
    ConnectionProblemReport(ProblemReport),
    Ack(Ack),
    Ping(Ping),
    PingResponse(PingResponse),
    Query(Query),
    Disclose(Disclose),
}

pub enum A2AMessageModel {
    ConnectionInvitation(InvitationModel),
    ConnectionRequest(RequestModel),
    ConnectionResponse(ResponseModel),
    ConnectionProblemReport(ProblemReportModel),
    Ack(AckModel),
    Ping(PingModel),
    PingResponse(PingResponseModel),
    Query(QueryModel),
    Disclose(DiscloseModel),
}

impl View for A2AMessage {
    type V = A2AMessageModel;

    open spec fn view(&self) -> A2AMessageModel {
        match self {
            A2AMessage::ConnectionInvitation(m) => A2AMessageModel::ConnectionInvitation(m@),
            A2AMessage::ConnectionRequest(m) => A2AMessageModel::ConnectionRequest(m@),
            A2AMessage::ConnectionResponse(m) => A2AMessageModel::ConnectionResponse(m@),
            A2AMessage::ConnectionProblemReport(m) => A2AMessageModel::ConnectionProblemReport(m@),
            A2AMessage::Ack(m) => A2AMessageModel::Ack(m@),
            A2AMessage::Ping(m) => A2AMessageModel::Ping(m@),
            A2AMessage::PingResponse(m) => A2AMessageModel::PingResponse(m@),
            A2AMessage::Query(m) => A2AMessageModel::Query(m@),
            A2AMessage::Disclose(m) => A2AMessageModel::Disclose(m@),
        }
    }
}

} // verus!
