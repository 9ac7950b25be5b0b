use connection_inviter::agent::AgentInfo;
use connection_inviter::events::{DidExchangeMessages, StepContext};
use connection_inviter::inviter::SmConnectionInviter;
use connection_inviter::messages::{
    A2AMessage, Ack, DidDoc, Disclose, Ping, PingResponse, ProblemCode, ProblemReport,
    ProtocolDescriptor, Query, Request, Response,
};
use connection_inviter::states::{
    InviterState, STATE_ACCEPTED, STATE_INITIALIZED, STATE_OFFER_SENT, STATE_REQUEST_RECEIVED,
};

fn source_id() -> String {
    String::from("test source id")
}

fn fresh_identity() -> AgentInfo {
    AgentInfo {
        pw_did: String::from("VsKV7grR1BUE29mG2Fm2kX"),
        pw_vk: String::from("GJ1SzoWzavQYfNL9XkaJdrQejfztN4XqdsiV4ct3LXKL"),
        routing_keys: vec![String::from("Hezce2UWMZ3wUhVkh2LfKSs8nDzWwzs2Win7EzNN3YaR")],
        agency_endpoint: String::from("http://localhost:8080"),
    }
}

fn ctx() -> StepContext {
    StepContext { fresh_identity: Some(fresh_identity()), message_id: String::from("testid") }
}

fn _did_doc() -> DidDoc {
    DidDoc {
        id: String::from("KC6NKcpXcpVnpjL8uKH3tV"),
        service_endpoint: String::from("http://localhost:8081"),
        recipient_keys: vec![String::from("CnEDk9HrMnmiHXEV1WFgbVCRteYnPqsJwrTdcZaNhFVW")],
        routing_keys: vec![String::from("3LYuxJBJkngDbvJj4zjx13DBUdZ2P96eNybwd2n9L9AU")],
    }
}

fn _request() -> Request {
    Request {
        id: String::from("testid"),
        label: String::from("test"),
        did: String::from("KC6NKcpXcpVnpjL8uKH3tV"),
        did_doc: _did_doc(),
    }
}

fn _signed_response() -> Response {
    Response {
        id: String::from("testid"),
        thread_id: String::from("testid"),
        did: String::from("VsKV7grR1BUE29mG2Fm2kX"),
        did_doc: _did_doc(),
        signer_vk: String::from("GJ1SzoWzavQYfNL9XkaJdrQejfztN4XqdsiV4ct3LXKL"),
    }
}

fn _ack() -> Ack {
    Ack { id: String::from("testid"), thread_id: String::from("threadid") }
}

fn _problem_report() -> ProblemReport {
    ProblemReport {
        id: String::from("testid"),
        problem_code: ProblemCode::Empty,
        explain: String::from(""),
        thread_id: String::from("testid"),
    }
}

fn _ping() -> Ping {
    Ping { id: String::from("testid"), response_requested: false, comment: None }
}

fn _ping_response() -> PingResponse {
    PingResponse { id: String::from("testid"), thread_id: String::from("testid") }
}

fn _query() -> Query {
    Query { id: String::from("testid"), query: Some(String::from("https://didcomm.org/")), comment: None }
}

fn _disclose() -> Disclose {
    Disclose {
        id: String::from("testid"),
        thread_id: String::from("testid"),
        protocols: vec![
            ProtocolDescriptor { pid: String::from("https://didcomm.org/") },
            ProtocolDescriptor { pid: String::from("https://didcomm.org/") },
        ],
    }
}

fn inviter_sm() -> SmConnectionInviter {
    SmConnectionInviter::new(&source_id())
}

fn step(sm: SmConnectionInviter, message: DidExchangeMessages) -> SmConnectionInviter {
    sm.step(message, ctx()).unwrap().0
}

fn to_inviter_invited_state(sm: SmConnectionInviter) -> SmConnectionInviter {
    step(sm, DidExchangeMessages::Connect)
}

fn to_inviter_responded_state(sm: SmConnectionInviter) -> SmConnectionInviter {
    let sm = step(sm, DidExchangeMessages::Connect);
    step(sm, DidExchangeMessages::ExchangeRequestReceived(_request()))
}

fn to_inviter_completed_state(sm: SmConnectionInviter) -> SmConnectionInviter {
    let sm = step(sm, DidExchangeMessages::Connect);
    let sm = step(sm, DidExchangeMessages::ExchangeRequestReceived(_request()));
    step(sm, DidExchangeMessages::AckReceived(_ack()))
}

fn entries(list: Vec<(&str, A2AMessage)>) -> Vec<(String, A2AMessage)> {
    list.into_iter().map(|(k, m)| (String::from(k), m)).collect()
}

#[test]
fn test_inviter_new() {
    let inviter_sm = inviter_sm();

    assert!(matches!(inviter_sm.state_object(), InviterState::Null(_)));
    assert_eq!(source_id(), inviter_sm.source_id());
}

#[test]
fn test_did_exchange_init() {
    let did_exchange_sm = inviter_sm();
    assert!(matches!(did_exchange_sm.state_object(), InviterState::Null(_)));
}

#[test]
fn test_did_exchange_handle_connect_message_from_null_state() {
    let mut did_exchange_sm = inviter_sm();

    did_exchange_sm = step(did_exchange_sm, DidExchangeMessages::Connect);

    assert!(matches!(did_exchange_sm.state_object(), InviterState::Invited(_)));
}

#[test]
fn test_did_exchange_handle_other_messages_from_null_state() {
    let mut did_exchange_sm = inviter_sm();

    did_exchange_sm = step(did_exchange_sm, DidExchangeMessages::AckReceived(_ack()));
    assert!(matches!(did_exchange_sm.state_object(), InviterState::Null(_)));

    did_exchange_sm =
        step(did_exchange_sm, DidExchangeMessages::ProblemReportReceived(_problem_report()));
    assert!(matches!(did_exchange_sm.state_object(), InviterState::Null(_)));
}

#[test]
fn test_did_exchange_handle_exchange_request_message_from_invited_state() {
    let mut did_exchange_sm = to_inviter_invited_state(inviter_sm());

    did_exchange_sm =
        step(did_exchange_sm, DidExchangeMessages::ExchangeRequestReceived(_request()));
    assert!(matches!(did_exchange_sm.state_object(), InviterState::Responded(_)));
}

#[test]
fn test_did_exchange_handle_invalid_exchange_request_message_from_invited_state() {
    let mut did_exchange_sm = to_inviter_invited_state(inviter_sm());

    let mut request = _request();
    request.did_doc = DidDoc::empty();

    did_exchange_sm = step(did_exchange_sm, DidExchangeMessages::ExchangeRequestReceived(request));

    assert!(matches!(did_exchange_sm.state_object(), InviterState::Null(_)));
}

#[test]
fn test_did_exchange_handle_problem_report_message_from_invited_state() {
    let mut did_exchange_sm = to_inviter_invited_state(inviter_sm());

    did_exchange_sm =
        step(did_exchange_sm, DidExchangeMessages::ProblemReportReceived(_problem_report()));

    assert!(matches!(did_exchange_sm.state_object(), InviterState::Null(_)));
}

#[test]
fn test_did_exchange_handle_other_messages_from_invited_state() {
    let mut did_exchange_sm = to_inviter_invited_state(inviter_sm());

    did_exchange_sm = step(did_exchange_sm, DidExchangeMessages::Connect);
    assert!(matches!(did_exchange_sm.state_object(), InviterState::Invited(_)));

    did_exchange_sm = step(did_exchange_sm, DidExchangeMessages::AckReceived(_ack()));
    assert!(matches!(did_exchange_sm.state_object(), InviterState::Invited(_)));
}

#[test]
fn test_did_exchange_handle_ack_message_from_responded_state() {
    let mut did_exchange_sm = to_inviter_responded_state(inviter_sm());

    did_exchange_sm = step(did_exchange_sm, DidExchangeMessages::AckReceived(_ack()));

    assert!(matches!(did_exchange_sm.state_object(), InviterState::Completed(_)));
}

#[test]
fn test_did_exchange_handle_ping_message_from_responded_state() {
    let mut did_exchange_sm = to_inviter_responded_state(inviter_sm());

    did_exchange_sm = step(did_exchange_sm, DidExchangeMessages::PingReceived(_ping()));

    assert!(matches!(did_exchange_sm.state_object(), InviterState::Completed(_)));
}

#[test]
fn test_did_exchange_handle_problem_report_message_from_responded_state() {
    let mut did_exchange_sm = to_inviter_responded_state(inviter_sm());

    did_exchange_sm =
        step(did_exchange_sm, DidExchangeMessages::ProblemReportReceived(_problem_report()));

    assert!(matches!(did_exchange_sm.state_object(), InviterState::Null(_)));
}

#[test]
fn test_did_exchange_handle_other_messages_from_responded_state() {
    let mut did_exchange_sm = to_inviter_responded_state(inviter_sm());

    did_exchange_sm = step(did_exchange_sm, DidExchangeMessages::Connect);

    assert!(matches!(did_exchange_sm.state_object(), InviterState::Responded(_)));
}

#[test]
fn test_did_exchange_handle_messages_from_completed_state() {
    let mut did_exchange_sm = to_inviter_completed_state(inviter_sm());

    // Send Ping
    did_exchange_sm = step(did_exchange_sm, DidExchangeMessages::SendPing(None));
    assert!(matches!(did_exchange_sm.state_object(), InviterState::Completed(_)));

    // Ping
    did_exchange_sm = step(did_exchange_sm, DidExchangeMessages::PingReceived(_ping()));
    assert!(matches!(did_exchange_sm.state_object(), InviterState::Completed(_)));

    // Ping Response
    did_exchange_sm =
        step(did_exchange_sm, DidExchangeMessages::PingResponseReceived(_ping_response()));
    assert!(matches!(did_exchange_sm.state_object(), InviterState::Completed(_)));

    // Discovery Features
    did_exchange_sm = step(did_exchange_sm, DidExchangeMessages::DiscoverFeatures(None, None));
    assert!(matches!(did_exchange_sm.state_object(), InviterState::Completed(_)));

    // Query
    did_exchange_sm = step(did_exchange_sm, DidExchangeMessages::QueryReceived(_query()));
    assert!(matches!(did_exchange_sm.state_object(), InviterState::Completed(_)));

    // Disclose
    assert!(did_exchange_sm.get_remote_protocols().is_none());

    did_exchange_sm = step(did_exchange_sm, DidExchangeMessages::DiscloseReceived(_disclose()));
    assert!(matches!(did_exchange_sm.state_object(), InviterState::Completed(_)));

    assert!(did_exchange_sm.get_remote_protocols().is_some());

    // ignore
    // Ack
    did_exchange_sm = step(did_exchange_sm, DidExchangeMessages::AckReceived(_ack()));
    assert!(matches!(did_exchange_sm.state_object(), InviterState::Completed(_)));

    // Problem Report
    did_exchange_sm =
        step(did_exchange_sm, DidExchangeMessages::ProblemReportReceived(_problem_report()));
    assert!(matches!(did_exchange_sm.state_object(), InviterState::Completed(_)));
}

#[test]
fn test_find_message_to_handle_from_null_state() {
    let connection = inviter_sm();

    // No messages
    {
        let messages = entries(vec![
            ("key_1", A2AMessage::ConnectionRequest(_request())),
            ("key_2", A2AMessage::ConnectionResponse(_signed_response())),
            ("key_3", A2AMessage::ConnectionProblemReport(_problem_report())),
            ("key_4", A2AMessage::Ping(_ping())),
            ("key_5", A2AMessage::Ack(_ack())),
        ]);

        assert!(connection.find_message_to_handle(messages).is_none());
    }
}

#[test]
fn test_find_message_to_handle_from_invited_state() {
    let connection = to_inviter_invited_state(inviter_sm());

    // Connection Request
    {
        let messages = entries(vec![
            ("key_1", A2AMessage::Ping(_ping())),
            ("key_2", A2AMessage::ConnectionRequest(_request())),
            ("key_3", A2AMessage::ConnectionResponse(_signed_response())),
        ]);

        let (uid, message) = connection.find_message_to_handle(messages).unwrap();
        assert_eq!("key_2", uid);
        assert!(matches!(message, A2AMessage::ConnectionRequest(_)));
    }

    // Connection Problem Report
    {
        let messages = entries(vec![
            ("key_1", A2AMessage::Ping(_ping())),
            ("key_2", A2AMessage::Ack(_ack())),
            ("key_3", A2AMessage::ConnectionProblemReport(_problem_report())),
        ]);

        let (uid, message) = connection.find_message_to_handle(messages).unwrap();
        assert_eq!("key_3", uid);
        assert!(matches!(message, A2AMessage::ConnectionProblemReport(_)));
    }

    // No messages
    {
        let messages = entries(vec![
            ("key_1", A2AMessage::Ping(_ping())),
            ("key_2", A2AMessage::Ack(_ack())),
        ]);

        assert!(connection.find_message_to_handle(messages).is_none());
    }
}

#[test]
fn test_find_message_to_handle_from_responded_state() {
    let connection = to_inviter_responded_state(inviter_sm());

    // Ping
    {
        let messages = entries(vec![
            ("key_1", A2AMessage::Ping(_ping())),
            ("key_2", A2AMessage::ConnectionRequest(_request())),
            ("key_3", A2AMessage::ConnectionResponse(_signed_response())),
        ]);

        let (uid, message) = connection.find_message_to_handle(messages).unwrap();
        assert_eq!("key_1", uid);
        assert!(matches!(message, A2AMessage::Ping(_)));
    }

    // Ack
    {
        let messages = entries(vec![
            ("key_1", A2AMessage::ConnectionRequest(_request())),
            ("key_2", A2AMessage::Ack(_ack())),
            ("key_3", A2AMessage::ConnectionResponse(_signed_response())),
        ]);

        let (uid, message) = connection.find_message_to_handle(messages).unwrap();
        assert_eq!("key_2", uid);
        assert!(matches!(message, A2AMessage::Ack(_)));
    }

    // Connection Problem Report
    {
        let messages = entries(vec![
            ("key_1", A2AMessage::ConnectionRequest(_request())),
            ("key_2", A2AMessage::ConnectionProblemReport(_problem_report())),
        ]);

        let (uid, message) = connection.find_message_to_handle(messages).unwrap();
        assert_eq!("key_2", uid);
        assert!(matches!(message, A2AMessage::ConnectionProblemReport(_)));
    }

    // No messages
    {
        let messages = entries(vec![
            ("key_1", A2AMessage::ConnectionRequest(_request())),
            ("key_2", A2AMessage::ConnectionResponse(_signed_response())),
        ]);

        assert!(connection.find_message_to_handle(messages).is_none());
    }
}

#[test]
fn test_find_message_to_handle_from_completed_state() {
    let connection = to_inviter_completed_state(inviter_sm());

    // Ping
    {
        let messages = entries(vec![
            ("key_1", A2AMessage::ConnectionRequest(_request())),
            ("key_2", A2AMessage::ConnectionResponse(_signed_response())),
            ("key_3", A2AMessage::ConnectionProblemReport(_problem_report())),
            ("key_4", A2AMessage::Ping(_ping())),
            ("key_5", A2AMessage::Ack(_ack())),
        ]);

        let (uid, message) = connection.find_message_to_handle(messages).unwrap();
        assert_eq!("key_4", uid);
        assert!(matches!(message, A2AMessage::Ping(_)));
    }

    // Ping Response
    {
        let messages = entries(vec![
            ("key_1", A2AMessage::ConnectionRequest(_request())),
            ("key_2", A2AMessage::ConnectionResponse(_signed_response())),
            ("key_3", A2AMessage::ConnectionProblemReport(_problem_report())),
            ("key_4", A2AMessage::PingResponse(_ping_response())),
            ("key_5", A2AMessage::Ack(_ack())),
        ]);

        let (uid, message) = connection.find_message_to_handle(messages).unwrap();
        assert_eq!("key_4", uid);
        assert!(matches!(message, A2AMessage::PingResponse(_)));
    }

    // Query
    {
        let messages = entries(vec![
            ("key_1", A2AMessage::ConnectionRequest(_request())),
            ("key_2", A2AMessage::ConnectionResponse(_signed_response())),
            ("key_3", A2AMessage::Query(_query())),
        ]);

        let (uid, message) = connection.find_message_to_handle(messages).unwrap();
        assert_eq!("key_3", uid);
        assert!(matches!(message, A2AMessage::Query(_)));
    }

    // Disclose
    {
        let messages = entries(vec![
            ("key_1", A2AMessage::ConnectionRequest(_request())),
            ("key_2", A2AMessage::ConnectionResponse(_signed_response())),
            ("key_3", A2AMessage::Disclose(_disclose())),
        ]);

        let (uid, message) = connection.find_message_to_handle(messages).unwrap();
        assert_eq!("key_3", uid);
        assert!(matches!(message, A2AMessage::Disclose(_)));
    }
}

#[test]
fn test_get_state() {
    assert_eq!(STATE_INITIALIZED, inviter_sm().state());
    assert_eq!(STATE_OFFER_SENT, to_inviter_invited_state(inviter_sm()).state());
    assert_eq!(STATE_REQUEST_RECEIVED, to_inviter_responded_state(inviter_sm()).state());
    assert_eq!(STATE_ACCEPTED, to_inviter_completed_state(inviter_sm()).state());
}
