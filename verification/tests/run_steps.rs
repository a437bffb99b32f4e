use websocat_nodes::handshake::derive_accept_key;
use websocat_nodes::http_client::{
    HandshakeError, HttpClient, NodeId, RequestBodySource, RequestMethod, ResponseHeaders, ResponseMode,
    RunError, SourceKind, SubnodeBody,
};
use websocat_nodes::run_steps::{RunAction, RunEvent, RunState};

fn options() -> HttpClient {
    HttpClient {
        upgrade: None,
        stream_request_body: None,
        request_body: None,
        buffer_request_body: None,
        buffer_request_body_size_hint: None,
        method: None,
        json: None,
        textplain: None,
        request_headers: vec![],
        uri: None,
        websocket: None,
    }
}

fn answer(connection: &str, upgrade: &str, accept: &str) -> RunEvent {
    RunEvent::ResponseArrived(ResponseHeaders {
        connection: Some(connection.as_bytes().to_vec()),
        upgrade: Some(upgrade.as_bytes().to_vec()),
        sec_websocket_accept: Some(accept.as_bytes().to_vec()),
    })
}

fn no_headers() -> RunEvent {
    RunEvent::ResponseArrived(ResponseHeaders { connection: None, upgrade: None, sec_websocket_accept: None })
}

#[test]
fn large_size_hint_is_warned_about() {
    let mut c = options();
    c.request_body = Some(NodeId(1));
    c.buffer_request_body = Some(true);
    c.buffer_request_body_size_hint = Some(104857601);
    assert!(c.large_size_hint_warning());
    c.buffer_request_body_size_hint = Some(104857600);
    assert!(!c.large_size_hint_warning());
    c.buffer_request_body_size_hint = None;
    assert!(!c.large_size_hint_warning());

    // a check that comes first refuses the options before the warning
    let mut c = options();
    c.buffer_request_body = Some(true);
    c.buffer_request_body_size_hint = Some(200000000);
    assert!(!c.large_size_hint_warning());
    let mut c = options();
    c.buffer_request_body_size_hint = Some(200000000);
    assert!(!c.large_size_hint_warning());

    // the warning does not refuse the options
    let mut c = options();
    c.request_body = Some(NodeId(1));
    c.buffer_request_body = Some(true);
    c.buffer_request_body_size_hint = Some(200000000);
    assert!(c.large_size_hint_warning());
    assert_eq!(c.validate(), Ok(()));
}

#[test]
fn run_with_empty_body() {
    let c = options();
    let (s, a) = c.run_step(&RunState::Start, &RunEvent::Begin).unwrap();
    assert!(matches!(s, RunState::AwaitingBody { streamed: false }));
    assert!(matches!(a, RunAction::UseEmptyBody));
    let (s, a) = c.run_step(&s, &RunEvent::BodyReady(vec![])).unwrap();
    assert!(matches!(s, RunState::AwaitingResponse { streamed: false, wskey: None }));
    match a {
        RunAction::Send(plan) => {
            assert!(matches!(plan.method, RequestMethod::Get));
            assert!(plan.headers.is_empty());
            assert_eq!(plan.websocket_key, None);
        },
        _ => panic!("a request is sent"),
    }
    let (s, a) = c.run_step(&s, &no_headers()).unwrap();
    assert!(matches!(s, RunState::Finished));
    assert!(matches!(a, RunAction::Deliver(ResponseMode::BodyDatagrams)));
}

#[test]
fn websocket_run_checks_the_answer_against_its_key() {
    let mut c = options();
    c.websocket = Some(true);
    c.validate().unwrap();
    let key = *b"the sample nonce";
    let (s, a) = c.run_step_with_key(&RunState::Start, &RunEvent::Begin, &key).unwrap();
    assert!(matches!(a, RunAction::UseEmptyBody));
    let (s, a) = c.run_step_with_key(&s, &RunEvent::BodyReady(vec![]), &key).unwrap();
    assert!(matches!(s, RunState::AwaitingResponse { streamed: false, wskey: Some(k) } if k == key));
    match &a {
        RunAction::Send(plan) => assert_eq!(plan.websocket_key, Some(key)),
        _ => panic!("a request is sent"),
    }
    let wrong = answer("upgrade", "websocket", "s3pPLMBiTxaQ9kYGzzhZRbK+xOo");
    assert_eq!(
        c.run_step_with_key(&s, &wrong, &key).unwrap_err(),
        RunError::Handshake(HandshakeError::AcceptMismatch)
    );
    assert_eq!(
        c.run_step_with_key(&s, &no_headers(), &key).unwrap_err(),
        RunError::Handshake(HandshakeError::MissingHeaders)
    );
    let good = answer("Upgrade", "websocket", "s3pPLMBiTxaQ9kYGzzhZRbK+xOo=");
    let (s, a) = c.run_step_with_key(&s, &good, &key).unwrap();
    assert!(matches!(s, RunState::Finished));
    assert!(matches!(a, RunAction::Deliver(ResponseMode::Upgraded)));
}

#[test]
fn websocket_run_with_random_key() {
    let mut c = options();
    c.websocket = Some(true);
    c.validate().unwrap();
    let (s, _) = c.run_step(&RunState::Start, &RunEvent::Begin).unwrap();
    let (s, a) = c.run_step(&s, &RunEvent::BodyReady(vec![])).unwrap();
    let sent = match a {
        RunAction::Send(plan) => plan.headers[3].value.clone(),
        _ => panic!("a request is sent"),
    };
    let good = answer("upgrade", "websocket", &derive_accept_key(sent.as_bytes()));
    let (_, a) = c.run_step(&s, &good).unwrap();
    assert!(matches!(a, RunAction::Deliver(ResponseMode::Upgraded)));
}

#[test]
fn streamed_run_does_not_check_a_key() {
    let mut c = options();
    c.stream_request_body = Some(true);
    c.buffer_request_body = Some(true);
    c.validate().unwrap();
    let (s, a) = c.run_step(&RunState::Start, &RunEvent::Begin).unwrap();
    assert!(matches!(s, RunState::AwaitingBody { streamed: true }));
    assert!(matches!(a, RunAction::OpenStreamedBody(RequestBodySource::StreamedBuffered { capacity: 1024 })));
    let (s, _) = c.run_step(&s, &RunEvent::BodyReady(vec![])).unwrap();
    assert!(matches!(s, RunState::AwaitingResponse { streamed: true, wskey: None }));
    let (s, a) = c.run_step(&s, &answer("close", "h2c", "")).unwrap();
    assert!(matches!(s, RunState::Finished));
    assert!(matches!(a, RunAction::Deliver(ResponseMode::BodyDatagrams)));
}

#[test]
fn run_with_subnode_body() {
    let mut c = options();
    c.request_body = Some(NodeId(2));
    c.buffer_request_body = Some(true);
    c.validate().unwrap();
    let (s, a) = c.run_step(&RunState::Start, &RunEvent::Begin).unwrap();
    assert!(matches!(s, RunState::AwaitingSubnode));
    assert!(matches!(a, RunAction::StartSubnode(NodeId(2))));
    let (s2, a) = c.run_step(&s, &RunEvent::SubnodeStarted(SourceKind::ByteStream)).unwrap();
    assert!(matches!(s2, RunState::AwaitingBody { streamed: false }));
    assert!(matches!(a, RunAction::PrepareBody(SubnodeBody::ReadToEnd { capacity: 1024 })));
    let (_, a) = c.run_step(&s, &RunEvent::SubnodeStarted(SourceKind::Datagrams)).unwrap();
    assert!(matches!(a, RunAction::PrepareBody(SubnodeBody::Collect { capacity: 1024 })));

    let mut c = options();
    c.request_body = Some(NodeId(2));
    c.method = Some("PUT".to_string());
    c.validate().unwrap();
    let (s, _) = c.run_step(&RunState::Start, &RunEvent::Begin).unwrap();
    assert_eq!(
        c.run_step(&s, &RunEvent::SubnodeStarted(SourceKind::ByteStream)).unwrap_err(),
        RunError::ByteStreamNotBuffered
    );
    let (s, a) = c.run_step(&s, &RunEvent::SubnodeStarted(SourceKind::Datagrams)).unwrap();
    assert!(matches!(a, RunAction::PrepareBody(SubnodeBody::Forward)));
    let (_, a) = c.run_step(&s, &RunEvent::BodyReady(vec![])).unwrap();
    match a {
        RunAction::Send(plan) => assert!(matches!(plan.method, RequestMethod::Named(m) if m == "PUT")),
        _ => panic!("a request is sent"),
    }
}
