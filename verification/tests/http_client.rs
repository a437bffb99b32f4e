use websocat_nodes::handshake::{derive_accept_key, key_header_value};
use websocat_nodes::http_client::{
    ignorant_default, HandshakeError, HttpClient, NodeId, RequestBodySource, RequestError, RequestMethod,
    ResponseHeaders, ResponseMode, RunError, SourceKind, SubnodeBody, ValidateError,
};

fn client() -> HttpClient {
    HttpClient {
        upgrade: None,
        stream_request_body: None,
        request_body: None,
        buffer_request_body: None,
        buffer_request_body_size_hint: None,
        method: None,
        json: None,
        textplain: None,
        request_headers: vec![],
        uri: None,
        websocket: None,
    }
}

fn validated(mut c: HttpClient) -> Result<HttpClient, ValidateError> {
    c.validate().map(|()| c)
}

#[test]
fn validate_refusals() {
    let mut c = client();
    c.stream_request_body = Some(true);
    c.upgrade = Some(true);
    assert_eq!(validated(c).unwrap_err(), ValidateError::UpgradeWithStreamedBody);

    let mut c = client();
    c.stream_request_body = Some(true);
    c.request_body = Some(NodeId(3));
    assert_eq!(validated(c).unwrap_err(), ValidateError::BodyWithStreamedBody);

    let mut c = client();
    c.buffer_request_body = Some(true);
    assert_eq!(validated(c).unwrap_err(), ValidateError::BufferWithoutBody);

    let mut c = client();
    c.buffer_request_body_size_hint = Some(10);
    assert_eq!(validated(c).unwrap_err(), ValidateError::SizeHintWithoutBuffer);

    let mut c = client();
    c.buffer_request_body = Some(true);
    c.request_body = Some(NodeId(1));
    c.buffer_request_body_size_hint = Some(-1);
    assert_eq!(validated(c).unwrap_err(), ValidateError::NegativeSizeHint);

    let mut c = client();
    c.method = Some("GE T".to_string());
    assert_eq!(validated(c).unwrap_err(), ValidateError::InvalidMethod);
    let mut c = client();
    c.method = Some(String::new());
    assert_eq!(validated(c).unwrap_err(), ValidateError::InvalidMethod);

    let mut c = client();
    c.json = Some(true);
    c.textplain = Some(true);
    assert_eq!(validated(c).unwrap_err(), ValidateError::TextplainAndJson);

    let mut c = client();
    c.stream_request_body = Some(true);
    c.websocket = Some(true);
    assert_eq!(validated(c).unwrap_err(), ValidateError::StreamedBodyWithWebsocket);
}

#[test]
fn validate_completes_options() {
    let mut c = client();
    c.buffer_request_body = Some(true);
    c.request_body = Some(NodeId(1));
    let v = validated(c).unwrap();
    assert_eq!(v.buffer_request_body_size_hint, Some(1024));

    let mut c = client();
    c.websocket = Some(true);
    c.method = Some("PROPFIND".to_string());
    let v = validated(c).unwrap();
    assert_eq!(v.upgrade, Some(true));

    // a size hint that is set is kept
    let mut c = client();
    c.buffer_request_body = Some(true);
    c.stream_request_body = Some(true);
    c.buffer_request_body_size_hint = Some(7);
    assert_eq!(validated(c).unwrap().buffer_request_body_size_hint, Some(7));
}

#[test]
fn validate_is_idempotent() {
    let mut c = client();
    c.websocket = Some(true);
    c.buffer_request_body = Some(true);
    c.request_body = Some(NodeId(2));
    let once = validated(c).unwrap();
    let twice = validated(once.clone()).unwrap();
    assert_eq!(twice.upgrade, once.upgrade);
    assert_eq!(twice.buffer_request_body_size_hint, once.buffer_request_body_size_hint);
    assert_eq!(twice.upgrade, Some(true));
}

#[test]
fn accept_key_of_rfc_example() {
    // RFC 6455, section 1.3
    assert_eq!(derive_accept_key(b"dGhlIHNhbXBsZSBub25jZQ=="), "s3pPLMBiTxaQ9kYGzzhZRbK+xOo=");
}

#[test]
fn key_header_is_base64() {
    assert_eq!(key_header_value(b"the sample nonce"), "dGhlIHNhbXBsZSBub25jZQ==");
}

fn headers(plan: &websocat_nodes::http_client::RequestPlan) -> Vec<(String, String)> {
    plan.headers.iter().map(|h| (h.name.clone(), h.value.clone())).collect()
}

#[test]
fn websocket_request_shape() {
    let mut c = client();
    c.websocket = Some(true);
    c.json = Some(true);
    c.uri = Some("http://example.com/ws".to_string());
    let nodes = vec![Some(("X-Token".to_string(), "abc".to_string()))];
    let plan = c.request_plan(b"the sample nonce", &nodes).unwrap();
    assert!(matches!(plan.method, RequestMethod::Get));
    assert_eq!(
        headers(&plan),
        vec![
            ("connection".to_string(), "Upgrade".to_string()),
            ("upgrade".to_string(), "websocket".to_string()),
            ("sec-websocket-version".to_string(), "13".to_string()),
            ("sec-websocket-key".to_string(), "dGhlIHNhbXBsZSBub25jZQ==".to_string()),
            ("content-type".to_string(), "application/json".to_string()),
            ("X-Token".to_string(), "abc".to_string()),
        ]
    );
    assert_eq!(plan.uri.as_deref(), Some("http://example.com/ws"));
    assert_eq!(plan.websocket_key, Some(*b"the sample nonce"));
}

#[test]
fn request_methods() {
    let mut c = client();
    c.stream_request_body = Some(true);
    let plan = c.request_plan(&[0; 16], &vec![]).unwrap();
    assert!(matches!(plan.method, RequestMethod::Post));
    assert!(plan.headers.is_empty());
    assert_eq!(plan.websocket_key, None);

    let mut c = client();
    c.request_body = Some(NodeId(4));
    c.textplain = Some(true);
    let plan = c.request_plan(&[0; 16], &vec![]).unwrap();
    assert!(matches!(plan.method, RequestMethod::Post));
    assert_eq!(headers(&plan), vec![("content-type".to_string(), "text/plain".to_string())]);

    let mut c = client();
    c.method = Some("DELETE".to_string());
    c.request_body = Some(NodeId(4));
    let plan = c.request_plan(&[0; 16], &vec![]).unwrap();
    assert!(matches!(plan.method, RequestMethod::Named(ref m) if m == "DELETE"));

    let mut c = client();
    c.method = Some("B@D".to_string());
    assert_eq!(c.request_plan(&[0; 16], &vec![]).unwrap_err(), RequestError::InvalidMethod);
}

#[test]
fn request_header_refusals() {
    let c = client();
    assert_eq!(c.request_plan(&[0; 16], &vec![None]).unwrap_err(), RequestError::NotHeaderNode);
    let bad_name = vec![Some(("bad name".to_string(), "v".to_string()))];
    assert_eq!(c.request_plan(&[0; 16], &bad_name).unwrap_err(), RequestError::InvalidHeaderName);
    let bad_value = vec![Some(("n".to_string(), "line\nbreak".to_string()))];
    assert_eq!(c.request_plan(&[0; 16], &bad_value).unwrap_err(), RequestError::InvalidHeaderValue);
    let first_bad_wins = vec![Some(("ok".to_string(), "v".to_string())), None, Some((String::new(), "v".to_string()))];
    assert_eq!(c.request_plan(&[0; 16], &first_bad_wins).unwrap_err(), RequestError::NotHeaderNode);
}

#[test]
fn random_key_is_used_in_websocket_mode() {
    let mut c = client();
    c.websocket = Some(true);
    let plan = c.get_request(&vec![]).unwrap();
    let key = plan.websocket_key.expect("websocket mode carries a key");
    assert_eq!(plan.headers[3].value, key_header_value(&key));
    assert_eq!(plan.headers[3].value.len(), 24);
}

fn response(connection: &str, upgrade: &str, accept: &str) -> ResponseHeaders {
    ResponseHeaders {
        connection: Some(connection.as_bytes().to_vec()),
        upgrade: Some(upgrade.as_bytes().to_vec()),
        sec_websocket_accept: Some(accept.as_bytes().to_vec()),
    }
}

#[test]
fn handshake_check() {
    let c = client();
    let key = Some(*b"the sample nonce");
    let good = response("Upgrade", "WebSocket", "s3pPLMBiTxaQ9kYGzzhZRbK+xOo=");
    assert_eq!(c.handle_response(&good, key), Ok(()));
    assert_eq!(c.handle_response(&response("keep-alive", "websocket", "s3pPLMBiTxaQ9kYGzzhZRbK+xOo="), key), Err(HandshakeError::ConnectionNotUpgrade));
    assert_eq!(c.handle_response(&response("upgrade", "h2c", "s3pPLMBiTxaQ9kYGzzhZRbK+xOo="), key), Err(HandshakeError::UpgradeNotWebsocket));
    assert_eq!(c.handle_response(&response("upgrade", "websocket", "s3pPLMBiTxaQ9kYGzzhZRbK+xOo"), key), Err(HandshakeError::AcceptMismatch));
    let missing = ResponseHeaders { connection: None, upgrade: Some(b"websocket".to_vec()), sec_websocket_accept: None };
    assert_eq!(c.handle_response(&missing, key), Err(HandshakeError::MissingHeaders));
    // without a key nothing is checked
    assert_eq!(c.handle_response(&missing, None), Ok(()));
}

#[test]
fn handshake_roundtrip_with_random_key() {
    let mut c = client();
    c.websocket = Some(true);
    let plan = c.get_request(&vec![]).unwrap();
    let accept = derive_accept_key(plan.headers[3].value.as_bytes());
    let resp = response("upgrade", "websocket", &accept);
    assert_eq!(c.handle_response(&resp, plan.websocket_key), Ok(()));
}

#[test]
fn body_sources() {
    let mut c = client();
    c.stream_request_body = Some(true);
    assert_eq!(c.request_body_source(), RequestBodySource::StreamedChunked);
    c.buffer_request_body = Some(true);
    c.buffer_request_body_size_hint = Some(4096);
    assert_eq!(c.request_body_source(), RequestBodySource::StreamedBuffered { capacity: 4096 });

    let mut c = client();
    c.request_body = Some(NodeId(9));
    assert_eq!(c.request_body_source(), RequestBodySource::Subnode { node: NodeId(9), buffered: false });
    assert_eq!(c.subnode_body(SourceKind::ByteStream), Err(RunError::ByteStreamNotBuffered));
    assert_eq!(c.subnode_body(SourceKind::Datagrams), Ok(SubnodeBody::Forward));
    assert_eq!(c.subnode_body(SourceKind::Nothing), Ok(SubnodeBody::Empty));
    c.buffer_request_body = Some(true);
    c.buffer_request_body_size_hint = Some(16);
    assert_eq!(c.subnode_body(SourceKind::ByteStream), Ok(SubnodeBody::ReadToEnd { capacity: 16 }));
    assert_eq!(c.subnode_body(SourceKind::Datagrams), Ok(SubnodeBody::Collect { capacity: 16 }));
    assert_eq!(c.subnode_body(SourceKind::Nothing), Ok(SubnodeBody::Empty));

    assert_eq!(client().request_body_source(), RequestBodySource::Empty);
}

#[test]
fn response_modes() {
    let mut c = client();
    assert_eq!(c.response_mode(), ResponseMode::BodyDatagrams);
    c.upgrade = Some(true);
    assert_eq!(c.response_mode(), ResponseMode::Upgraded);
}

#[test]
fn body_flag() {
    let mut c = client();
    assert!(!c.request_supposed_to_contain_body());
    c.stream_request_body = Some(false);
    assert!(!c.request_supposed_to_contain_body());
    c.request_body = Some(NodeId(0));
    assert!(c.request_supposed_to_contain_body());
}

#[test]
fn ignorant_default_ignores_its_argument() {
    assert_eq!(ignorant_default(&42i64), 0);
    assert_eq!(ignorant_default(&Some(3u8)), None);
    assert_eq!(ignorant_default(&"text".to_string()), String::new());
}

#[test]
fn handshake_values_are_padded() {
    for key in [*b"the sample nonce", [0u8; 16], [255u8; 16]] {
        let sent = key_header_value(&key);
        assert_eq!(sent.len(), 24);
        assert!(sent.ends_with("=="));
        let accept = derive_accept_key(sent.as_bytes());
        assert_eq!(accept.len(), 28);
        assert!(accept.ends_with('='));
    }
}
