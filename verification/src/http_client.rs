//! The `http-highlevel-client` node: its options, their validation, the shape
//! of the HTTP request it sends, the check of the server's answer in
//! WebSocket mode, and the choices it makes while running.
use vstd::prelude::*;
use vstd::utf8::encode_utf8;
use crate::handshake::{
    accept_key, base64_text, lemma_base64_shape, derive_accept_key, key_header_value, random_key,
};
use crate::http_syntax::{
    bytes_eq, bytes_eq_ignore_ascii_case, eq_ignore_ascii_case, header_name_accepts,
    header_name_from_bytes_ok, header_value_accepts, header_value_from_bytes_ok, lemma_printable_value,
    lemma_token_name, method_accepts, method_from_bytes_ok,
};

verus! {

/// Identifies another node of the session (a subnode this one refers to).
#[derive(Clone, Copy, Debug, PartialEq, Eq, Structural)]
pub struct NodeId(pub usize);

/// The options of an `http-highlevel-client` node.
#[derive(Clone, Debug)]
pub struct HttpClient {
    /// Expect and work upon upgrades
    pub upgrade: Option<bool>,
    /// Immediately return connection, stream bytes into request body.
    pub stream_request_body: Option<bool>,
    /// Subnode to read request body from
    pub request_body: Option<NodeId>,
    /// Fully read request body into memory prior to sending it
    pub buffer_request_body: Option<bool>,
    /// Preallocate this amount of memory for caching request body
    pub buffer_request_body_size_hint: Option<i64>,
    /// Override HTTP request verb
    pub method: Option<String>,
    /// Set request content_type to `application/json`
    pub json: Option<bool>,
    /// Set request content_type to `text/plain`
    pub textplain: Option<bool>,
    /// Add these headers to HTTP request
    pub request_headers: Vec<NodeId>,
    /// Request URI
    pub uri: Option<String>,
    /// Request WebSocket upgrade from server
    pub websocket: Option<bool>,
}

/// The options with strings taken as character sequences.
pub struct HttpClientView {
    pub upgrade: Option<bool>,
    pub stream_request_body: Option<bool>,
    pub request_body: Option<NodeId>,
    pub buffer_request_body: Option<bool>,
    pub buffer_request_body_size_hint: Option<i64>,
    pub method: Option<Seq<char>>,
    pub json: Option<bool>,
    pub textplain: Option<bool>,
    pub request_headers: Seq<NodeId>,
    pub uri: Option<Seq<char>>,
    pub websocket: Option<bool>,
}

impl View for HttpClient {
    type V = HttpClientView;

    open spec fn view(&self) -> HttpClientView {
        HttpClientView {
            upgrade: self.upgrade,
            stream_request_body: self.stream_request_body,
            request_body: self.request_body,
            buffer_request_body: self.buffer_request_body,
            buffer_request_body_size_hint: self.buffer_request_body_size_hint,
            method: crate::model::opt_view(self.method),
            json: self.json,
            textplain: self.textplain,
            request_headers: self.request_headers@,
            uri: crate::model::opt_view(self.uri),
            websocket: self.websocket,
        }
    }
}

/// Why `validate` refuses a set of options.
#[derive(Clone, Copy, Debug, PartialEq, Eq, Structural)]
pub enum ValidateError {
    /// Cannot set both `upgrade` and `stream_request_body` options at the same time
    UpgradeWithStreamedBody,
    /// Cannot set both `body` and `stream_request_body` options at the same time
    BodyWithStreamedBody,
    /// buffer_request_body option is meaningless without stream_request_body or request_body options
    BufferWithoutBody,
    /// buffer_request_body_size_hint option is meaningless without buffer_request_body option
    SizeHintWithoutBuffer,
    /// buffer_request_body_size_hint option should have nonnegative value
    NegativeSizeHint,
    /// The `method` option is not a valid HTTP method
    InvalidMethod,
    /// Cannot set both textplain and json options to true
    TextplainAndJson,
    /// stream_request_body and websocket options are incompatible
    StreamedBodyWithWebsocket,
}

/// An option that is set to `true`.
pub open spec fn on(o: Option<bool>) -> bool {
    o == Some(true)
}

fn is_on(o: Option<bool>) -> (r: bool)
    ensures
        r == on(o),
{
    match o {
        Some(b) => b,
        None => false,
    }
}

/// The bytes of a method name.
pub open spec fn method_ok(m: Seq<char>) -> bool {
    method_accepts(encode_utf8(m))
}

/// What `validate` does to a set of options: the options afterwards, and
/// whether they were accepted. The size hint of a buffered body defaults to
/// 1024, and the `websocket` option turns `upgrade` on.
pub open spec fn validate_outcome(c: HttpClientView) -> (HttpClientView, Result<(), ValidateError>) {
    if on(c.stream_request_body) && on(c.upgrade) {
        (c, Err(ValidateError::UpgradeWithStreamedBody))
    } else if on(c.stream_request_body) && c.request_body is Some {
        (c, Err(ValidateError::BodyWithStreamedBody))
    } else if on(c.buffer_request_body) && c.request_body is None && !on(c.stream_request_body) {
        (c, Err(ValidateError::BufferWithoutBody))
    } else if !on(c.buffer_request_body) && c.buffer_request_body_size_hint is Some {
        (c, Err(ValidateError::SizeHintWithoutBuffer))
    } else if c.buffer_request_body_size_hint matches Some(sz) && sz < 0 {
        (c, Err(ValidateError::NegativeSizeHint))
    } else {
        let c1 = if on(c.buffer_request_body) && c.buffer_request_body_size_hint is None {
            HttpClientView { buffer_request_body_size_hint: Some(1024), ..c }
        } else {
            c
        };
        if c1.method matches Some(m) && !method_ok(m) {
            (c1, Err(ValidateError::InvalidMethod))
        } else if on(c1.textplain) && on(c1.json) {
            (c1, Err(ValidateError::TextplainAndJson))
        } else if on(c1.stream_request_body) && on(c1.websocket) {
            (c1, Err(ValidateError::StreamedBodyWithWebsocket))
        } else if on(c1.websocket) {
            (HttpClientView { upgrade: Some(true), ..c1 }, Ok(()))
        } else {
            (c1, Ok(()))
        }
    }
}

/// Options that hold together: what `validate` establishes.
pub open spec fn consistent(c: HttpClientView) -> bool {
    &&& !(on(c.stream_request_body) && on(c.upgrade))
    &&& !(on(c.stream_request_body) && c.request_body is Some)
    &&& !(on(c.buffer_request_body) && c.request_body is None && !on(c.stream_request_body))
    &&& (on(c.buffer_request_body) <==> c.buffer_request_body_size_hint is Some)
    &&& (c.buffer_request_body_size_hint matches Some(sz) ==> sz >= 0)
    &&& (c.method matches Some(m) ==> method_ok(m))
    &&& !(on(c.textplain) && on(c.json))
    &&& !(on(c.stream_request_body) && on(c.websocket))
    &&& (on(c.websocket) ==> on(c.upgrade))
}

/// Options that `validate` accepts come out consistent.
pub proof fn lemma_validate_establishes_consistency(c: HttpClientView)
    ensures
        validate_outcome(c).1 is Ok ==> consistent(validate_outcome(c).0),
{
}

/// Consistent options pass `validate` unchanged.
pub proof fn lemma_validate_keeps_consistent(c: HttpClientView)
    requires
        consistent(c),
    ensures
        validate_outcome(c) == (c, Ok::<(), ValidateError>(())),
{
}

/// Validation is idempotent: validating options a second time accepts them
/// and changes nothing.
pub proof fn lemma_validate_idempotent(c: HttpClientView)
    requires
        validate_outcome(c).1 is Ok,
    ensures
        validate_outcome(validate_outcome(c).0) == (validate_outcome(c).0, Ok::<(), ValidateError>(())),
{
    lemma_validate_establishes_consistency(c);
    lemma_validate_keeps_consistent(validate_outcome(c).0);
}

/// A request header as name and value text.
#[derive(Debug)]
pub struct HeaderEntry {
    pub name: String,
    pub value: String,
}

/// The method the request is sent with.
#[derive(Debug)]
pub enum RequestMethod {
    /// The default of a new request, `GET`.
    Get,
    Post,
    /// The method named by the `method` option.
    Named(String),
}

pub enum RequestMethodView {
    Get,
    Post,
    Named(Seq<char>),
}

/// What the request is made of: its method, the header insertions in the
/// order they are made (a later insertion of a name replaces an earlier one),
/// its URI if one is set, and the WebSocket key it carries in WebSocket mode.
#[derive(Debug)]
pub struct RequestPlan {
    pub method: RequestMethod,
    pub headers: Vec<HeaderEntry>,
    pub uri: Option<String>,
    pub websocket_key: Option<[u8; 16]>,
}

pub struct RequestPlanView {
    pub method: RequestMethodView,
    pub headers: Seq<(Seq<char>, Seq<char>)>,
    pub uri: Option<Seq<char>>,
    pub websocket_key: Option<Seq<u8>>,
}

impl View for RequestMethod {
    type V = RequestMethodView;

    open spec fn view(&self) -> RequestMethodView {
        match self {
            RequestMethod::Get => RequestMethodView::Get,
            RequestMethod::Post => RequestMethodView::Post,
            RequestMethod::Named(m) => RequestMethodView::Named(m@),
        }
    }
}

pub open spec fn headers_view(hs: Seq<HeaderEntry>) -> Seq<(Seq<char>, Seq<char>)> {
    hs.map_values(|h: HeaderEntry| (h.name@, h.value@))
}

impl View for RequestPlan {
    type V = RequestPlanView;

    open spec fn view(&self) -> RequestPlanView {
        RequestPlanView {
            method: self.method@,
            headers: headers_view(self.headers@),
            uri: crate::model::opt_view(self.uri),
            websocket_key: match self.websocket_key {
                Some(k) => Some(k@),
                None => None,
            },
        }
    }
}

/// Why a request cannot be built.
#[derive(Clone, Copy, Debug, PartialEq, Eq, Structural)]
pub enum RequestError {
    /// The `method` option is not a valid HTTP method.
    InvalidMethod,
    /// http-client's array elements must be `header` nodes
    NotHeaderNode,
    /// A header node's name is not a valid header name.
    InvalidHeaderName,
    /// A header node's value is not a valid header value.
    InvalidHeaderValue,
}

/// The request has a body: it streams one, or reads one from a subnode.
pub open spec fn supposed_to_contain_body(c: HttpClientView) -> bool {
    on(c.stream_request_body) || c.request_body is Some
}

/// The headers of the WebSocket opening handshake for a key.
pub open spec fn websocket_headers(key: Seq<u8>) -> Seq<(Seq<char>, Seq<char>)> {
    seq![
        ("connection"@, "Upgrade"@),
        ("upgrade"@, "websocket"@),
        ("sec-websocket-version"@, "13"@),
        ("sec-websocket-key"@, base64_text(key)),
    ]
}

/// The `content-type` headers that the `json` and `textplain` options ask for.
pub open spec fn content_type_headers(c: HttpClientView) -> Seq<(Seq<char>, Seq<char>)> {
    (if on(c.json) {
        seq![("content-type"@, "application/json"@)]
    } else {
        Seq::empty()
    }) + (if on(c.textplain) {
        seq![("content-type"@, "text/plain"@)]
    } else {
        Seq::empty()
    })
}

/// The headers that the `request_headers` nodes give, in order; each node
/// must be a header node (`Some((name, value))`) with a valid name and value.
pub open spec fn node_headers(nodes: Seq<Option<(Seq<char>, Seq<char>)>>) -> Result<
    Seq<(Seq<char>, Seq<char>)>,
    RequestError,
>
    decreases nodes.len(),
{
    if nodes.len() == 0 {
        Ok(Seq::empty())
    } else {
        match node_headers(nodes.drop_last()) {
            Err(e) => Err(e),
            Ok(hs) => match nodes.last() {
                None => Err(RequestError::NotHeaderNode),
                Some((n, v)) => if !header_name_accepts(encode_utf8(n)) {
                    Err(RequestError::InvalidHeaderName)
                } else if !header_value_accepts(encode_utf8(v)) {
                    Err(RequestError::InvalidHeaderValue)
                } else {
                    Ok(hs.push((n, v)))
                },
            },
        }
    }
}

/// The request for the given options, WebSocket key and resolved header
/// nodes, or why it cannot be built.
pub open spec fn request_outcome(
    c: HttpClientView,
    key: Seq<u8>,
    nodes: Seq<Option<(Seq<char>, Seq<char>)>>,
) -> Result<RequestPlanView, RequestError> {
    let ws = on(c.websocket);
    let method = match c.method {
        Some(m) => if method_ok(m) {
            Ok(RequestMethodView::Named(m))
        } else {
            Err(RequestError::InvalidMethod)
        },
        None => if supposed_to_contain_body(c) {
            Ok(RequestMethodView::Post)
        } else {
            Ok(RequestMethodView::Get)
        },
    };
    match method {
        Err(e) => Err(e),
        Ok(m) => match node_headers(nodes) {
            Err(e) => Err(e),
            Ok(hs) => Ok(
                RequestPlanView {
                    method: m,
                    headers: (if ws {
                        websocket_headers(key)
                    } else {
                        Seq::empty()
                    }) + content_type_headers(c) + hs,
                    uri: c.uri,
                    websocket_key: if ws {
                        Some(key)
                    } else {
                        None
                    },
                },
            ),
        },
    }
}

/// `hyper` accepts both the name and the value of a header.
pub open spec fn header_accepted(h: (Seq<char>, Seq<char>)) -> bool {
    header_name_accepts(encode_utf8(h.0)) && header_value_accepts(encode_utf8(h.1))
}

proof fn lemma_node_headers_accepted(nodes: Seq<Option<(Seq<char>, Seq<char>)>>)
    ensures
        node_headers(nodes) matches Ok(hs) ==> forall|i: int|
            0 <= i < hs.len() ==> header_accepted(#[trigger] hs[i]),
    decreases nodes.len(),
{
    if nodes.len() > 0 {
        lemma_node_headers_accepted(nodes.drop_last());
    }
}

proof fn lemma_fixed_headers_accepted(c: HttpClientView, key: Seq<u8>)
    ensures
        forall|i: int| 0 <= i < websocket_headers(key).len() ==> header_accepted(#[trigger] websocket_headers(key)[i]),
        forall|i: int| 0 <= i < content_type_headers(c).len() ==> header_accepted(
            #[trigger] content_type_headers(c)[i],
        ),
{
    reveal_strlit("connection");
    reveal_strlit("Upgrade");
    reveal_strlit("upgrade");
    reveal_strlit("websocket");
    reveal_strlit("sec-websocket-version");
    reveal_strlit("13");
    reveal_strlit("sec-websocket-key");
    reveal_strlit("content-type");
    reveal_strlit("application/json");
    reveal_strlit("text/plain");
    lemma_token_name("connection"@);
    lemma_printable_value("Upgrade"@);
    lemma_token_name("upgrade"@);
    lemma_printable_value("websocket"@);
    lemma_token_name("sec-websocket-version"@);
    lemma_printable_value("13"@);
    lemma_token_name("sec-websocket-key"@);
    lemma_base64_shape(key);
    lemma_printable_value(base64_text(key));
    assert(header_accepted(websocket_headers(key)[3]));
    lemma_token_name("content-type"@);
    lemma_printable_value("application/json"@);
    lemma_printable_value("text/plain"@);
}

/// Every header a request carries is one `hyper` accepts.
proof fn lemma_request_headers_accepted(c: HttpClientView, key: Seq<u8>, nodes: Seq<Option<(Seq<char>, Seq<char>)>>)
    ensures
        request_outcome(c, key, nodes) matches Ok(plan) ==> forall|i: int|
            0 <= i < plan.headers.len() ==> header_accepted(#[trigger] plan.headers[i]),
{
    lemma_fixed_headers_accepted(c, key);
    lemma_node_headers_accepted(nodes);
    if request_outcome(c, key, nodes) is Ok {
        let plan = request_outcome(c, key, nodes)->Ok_0;
        let ws: Seq<(Seq<char>, Seq<char>)> = if on(c.websocket) {
            websocket_headers(key)
        } else {
            Seq::empty()
        };
        let ct = content_type_headers(c);
        let hs = node_headers(nodes)->Ok_0;
        assert(plan.headers == ws + ct + hs);
        assert forall|i: int| 0 <= i < plan.headers.len() implies header_accepted(#[trigger] plan.headers[i]) by {
            if i < ws.len() {
                assert(plan.headers[i] == ws[i]);
            } else if i < ws.len() + ct.len() {
                assert(plan.headers[i] == ct[i - ws.len()]);
            } else {
                assert(plan.headers[i] == hs[i - ws.len() - ct.len()]);
            }
        }
    }
}

/// The view of the resolved header nodes.
pub open spec fn nodes_view(nodes: Seq<Option<(String, String)>>) -> Seq<Option<(Seq<char>, Seq<char>)>> {
    nodes.map_values(
        |o: Option<(String, String)>|
            match o {
                Some((n, v)) => Some((n@, v@)),
                None => None,
            },
    )
}

/// The response headers the WebSocket check looks at, each the first value of
/// its name if present.
pub struct ResponseHeaders {
    pub connection: Option<Vec<u8>>,
    pub upgrade: Option<Vec<u8>>,
    pub sec_websocket_accept: Option<Vec<u8>>,
}

pub open spec fn opt_bytes(o: Option<Vec<u8>>) -> Option<Seq<u8>> {
    match o {
        Some(v) => Some(v@),
        None => None,
    }
}

/// Why the server's answer to a WebSocket request is refused.
#[derive(Clone, Copy, Debug, PartialEq, Eq, Structural)]
pub enum HandshakeError {
    /// http-client is in websocket mode `Connection:` is not `upgrade`
    ConnectionNotUpgrade,
    /// http-client is in websocket mode `Upgrade:` is not `websocket`
    UpgradeNotWebsocket,
    /// Sec-Websocket-Accept key mismatch
    AcceptMismatch,
    /// some of the three websocket response headers are not found
    MissingHeaders,
}

/// The `Sec-WebSocket-Accept` bytes that answer the request sent with `key`.
pub open spec fn expected_accept(key: Seq<u8>) -> Seq<u8> {
    encode_utf8(accept_key(encode_utf8(base64_text(key))))
}

/// The outcome of checking the server's answer. Without a WebSocket key there
/// is nothing to check; with one, `Connection` must be `upgrade` and `Upgrade`
/// `websocket` (ignoring ASCII case), and `Sec-WebSocket-Accept` must be the
/// value derived from the key.
pub open spec fn response_outcome(
    key: Option<Seq<u8>>,
    connection: Option<Seq<u8>>,
    upgrade: Option<Seq<u8>>,
    accept: Option<Seq<u8>>,
) -> Result<(), HandshakeError> {
    match key {
        None => Ok(()),
        Some(k) => match (connection, upgrade, accept) {
            (Some(c), Some(u), Some(a)) => if !eq_ignore_ascii_case(c, encode_utf8("upgrade"@)) {
                Err(HandshakeError::ConnectionNotUpgrade)
            } else if !eq_ignore_ascii_case(u, encode_utf8("websocket"@)) {
                Err(HandshakeError::UpgradeNotWebsocket)
            } else if a != expected_accept(k) {
                Err(HandshakeError::AcceptMismatch)
            } else {
                Ok(())
            },
            _ => Err(HandshakeError::MissingHeaders),
        },
    }
}

/// Where the request body comes from while the node runs.
#[derive(Clone, Copy, Debug, PartialEq, Eq, Structural)]
pub enum RequestBodySource {
    /// Data written to the node is sent as the body, chunk by chunk.
    StreamedChunked,
    /// Data written to the node is collected, then sent as one body.
    StreamedBuffered { capacity: u64 },
    /// The body is read from the `request_body` subnode.
    Subnode { node: NodeId, buffered: bool },
    /// The request has an empty body.
    Empty,
}

/// The kind of data source a subnode offers.
#[derive(Clone, Copy, Debug, PartialEq, Eq, Structural)]
pub enum SourceKind {
    ByteStream,
    Datagrams,
    Nothing,
}

/// How a subnode's source becomes the request body.
#[derive(Clone, Copy, Debug, PartialEq, Eq, Structural)]
pub enum SubnodeBody {
    /// Read the byte stream to its end into a buffer of this initial capacity.
    ReadToEnd { capacity: u64 },
    /// Collect the datagrams into a buffer of this initial capacity.
    Collect { capacity: u64 },
    /// Forward the datagrams as body chunks while the request is sent.
    Forward,
    /// The source is empty: send an empty body.
    Empty,
}

/// Why the node cannot run.
#[derive(Clone, Copy, Debug, PartialEq, Eq, Structural)]
pub enum RunError {
    /// Use datagram-based subnode for HTTP request body, or the buffer_request_body setting.
    ByteStreamNotBuffered,
    /// The request could not be built.
    Request(RequestError),
    /// The server's answer was refused.
    Handshake(HandshakeError),
}

/// What the node offers after the response has arrived.
#[derive(Clone, Copy, Debug, PartialEq, Eq, Structural)]
pub enum ResponseMode {
    /// Take over the upgraded connection.
    Upgraded,
    /// Read the response body as datagrams; nothing can be written.
    BodyDatagrams,
}

/// The size hint as a buffer capacity, where buffering is on.
pub open spec fn buffer_capacity(c: HttpClientView) -> u64 {
    match c.buffer_request_body_size_hint {
        Some(sz) => sz as u64,
        None => 0,
    }
}

/// Where the request body comes from, for the given options.
pub open spec fn body_source(c: HttpClientView) -> RequestBodySource {
    if on(c.stream_request_body) {
        if on(c.buffer_request_body) {
            RequestBodySource::StreamedBuffered { capacity: buffer_capacity(c) }
        } else {
            RequestBodySource::StreamedChunked
        }
    } else {
        match c.request_body {
            Some(node) => RequestBodySource::Subnode { node, buffered: on(c.buffer_request_body) },
            None => RequestBodySource::Empty,
        }
    }
}

/// How a subnode's source becomes the request body, for the given options.
pub open spec fn subnode_outcome(c: HttpClientView, source: SourceKind) -> Result<SubnodeBody, RunError> {
    if on(c.buffer_request_body) {
        match source {
            SourceKind::ByteStream => Ok(SubnodeBody::ReadToEnd { capacity: buffer_capacity(c) }),
            SourceKind::Datagrams => Ok(SubnodeBody::Collect { capacity: buffer_capacity(c) }),
            SourceKind::Nothing => Ok(SubnodeBody::Empty),
        }
    } else {
        match source {
            SourceKind::ByteStream => Err(RunError::ByteStreamNotBuffered),
            SourceKind::Datagrams => Ok(SubnodeBody::Forward),
            SourceKind::Nothing => Ok(SubnodeBody::Empty),
        }
    }
}

/// What the node offers once the response is in, for the given options.
pub open spec fn response_mode_of(c: HttpClientView) -> ResponseMode {
    if on(c.upgrade) {
        ResponseMode::Upgraded
    } else {
        ResponseMode::BodyDatagrams
    }
}

/// A size hint above this many bytes (100 MiB) draws a warning.
pub open spec fn large_hint_limit() -> int {
    104857600
}

/// `validate` warns about the size hint: the options get past the checks
/// before it, and the hint exceeds 100 MiB.
pub open spec fn warns_large_hint(c: HttpClientView) -> bool {
    &&& !(on(c.stream_request_body) && on(c.upgrade))
    &&& !(on(c.stream_request_body) && c.request_body is Some)
    &&& !(on(c.buffer_request_body) && c.request_body is None && !on(c.stream_request_body))
    &&& !(!on(c.buffer_request_body) && c.buffer_request_body_size_hint is Some)
    &&& c.buffer_request_body_size_hint matches Some(sz) && sz > large_hint_limit()
}

/// A buffered body comes with a usable size hint (as `validate` ensures).
pub open spec fn buffer_hint_usable(c: HttpClientView) -> bool {
    on(c.buffer_request_body) ==> (c.buffer_request_body_size_hint matches Some(sz) && sz >= 0)
}

fn clone_node_headers(nodes: &Vec<Option<(String, String)>>, i: usize) -> (r: Option<(String, String)>)
    requires
        i < nodes@.len(),
    ensures
        nodes_view(nodes@)[i as int] == match r {
            Some((n, v)) => Some((n@, v@)),
            None => None::<(Seq<char>, Seq<char>)>,
        },
{
    match &nodes[i] {
        Some((n, v)) => Some((n.clone(), v.clone())),
        None => None,
    }
}

proof fn lemma_node_headers_err_sticks(s: Seq<Option<(Seq<char>, Seq<char>)>>, i: int)
    requires
        0 <= i <= s.len(),
        node_headers(s.take(i)) is Err,
    ensures
        node_headers(s) == node_headers(s.take(i)),
    decreases s.len() - i,
{
    if s.len() == i {
        assert(s.take(i) =~= s);
    } else {
        assert(s.drop_last().take(i) =~= s.take(i));
        lemma_node_headers_err_sticks(s.drop_last(), i);
    }
}

fn header(name: &str, value: &str) -> (r: HeaderEntry)
    ensures
        r.name@ == name@,
        r.value@ == value@,
{
    HeaderEntry { name: name.to_owned(), value: value.to_owned() }
}

impl HttpClient {
    /// Checks the options and completes them: refuses combinations that make
    /// no sense, defaults the size hint of a buffered body to 1024, and turns
    /// `upgrade` on for WebSocket requests.
    pub fn validate(&mut self) -> (r: Result<(), ValidateError>)
        ensures
            (final(self)@, r) == validate_outcome(old(self)@),
    {
        let stream = is_on(self.stream_request_body);
        if stream {
            if is_on(self.upgrade) {
                return Err(ValidateError::UpgradeWithStreamedBody);
            }
            if self.request_body.is_some() {
                return Err(ValidateError::BodyWithStreamedBody);
            }
        }
        let buffer = is_on(self.buffer_request_body);
        if buffer && (self.request_body.is_none() && !stream) {
            return Err(ValidateError::BufferWithoutBody);
        }
        if !buffer && self.buffer_request_body_size_hint.is_some() {
            return Err(ValidateError::SizeHintWithoutBuffer);
        }
        if let Some(sz) = self.buffer_request_body_size_hint {
            if sz < 0 {
                return Err(ValidateError::NegativeSizeHint);
            }
        }
        if buffer && self.buffer_request_body_size_hint.is_none() {
            self.buffer_request_body_size_hint = Some(1024);
        }
        if let Some(verb) = &self.method {
            if !method_from_bytes_ok(verb.as_str().as_bytes()) {
                return Err(ValidateError::InvalidMethod);
            }
        }
        if is_on(self.textplain) && is_on(self.json) {
            return Err(ValidateError::TextplainAndJson);
        }
        if stream && is_on(self.websocket) {
            return Err(ValidateError::StreamedBodyWithWebsocket);
        }
        if is_on(self.websocket) {
            self.upgrade = Some(true);
        }
        Ok(())
    }

    /// Whether `validate` warns that the size hint is suspiciously large
    /// (above 100 MiB); the warning comes after the checks that precede it
    /// and does not refuse the options.
    pub fn large_size_hint_warning(&self) -> (r: bool)
        ensures
            r == warns_large_hint(self@),
    {
        let stream = is_on(self.stream_request_body);
        let buffer = is_on(self.buffer_request_body);
        if stream && (is_on(self.upgrade) || self.request_body.is_some()) {
            return false;
        }
        if buffer && self.request_body.is_none() && !stream {
            return false;
        }
        if !buffer && self.buffer_request_body_size_hint.is_some() {
            return false;
        }
        match self.buffer_request_body_size_hint {
            Some(sz) => sz > 104857600,
            None => false,
        }
    }

    /// The request has a body: it streams one, or reads one from a subnode.
    pub fn request_supposed_to_contain_body(&self) -> (r: bool)
        ensures
            r == supposed_to_contain_body(self@),
    {
        is_on(self.stream_request_body) || self.request_body.is_some()
    }

    /// The request for these options with the given WebSocket key (used only
    /// in WebSocket mode) and the header nodes named by `request_headers`,
    /// resolved by the caller: each to its `n` and `v` string properties, or
    /// `None` when the node has no such pair.
    pub fn request_plan(&self, key: &[u8; 16], header_nodes: &Vec<Option<(String, String)>>) -> (r: Result<
        RequestPlan,
        RequestError,
    >)
        ensures
            match request_outcome(self@, key@, nodes_view(header_nodes@)) {
                Ok(pv) => r matches Ok(p) && p@ == pv,
                Err(e) => r matches Err(e2) && e2 == e,
            },
            r matches Ok(p) ==> forall|i: int|
                0 <= i < p@.headers.len() ==> header_accepted(#[trigger] p@.headers[i]),
            r matches Ok(p) ==> (self.method matches Some(m) ==> p@.method == RequestMethodView::Named(m@)),
    {
        let ghost nv = nodes_view(header_nodes@);
        let ws = is_on(self.websocket);
        let mut headers: Vec<HeaderEntry> = Vec::new();
        if ws {
            headers.push(header("connection", "Upgrade"));
            headers.push(header("upgrade", "websocket"));
            headers.push(header("sec-websocket-version", "13"));
            let k = key_header_value(key);
            headers.push(HeaderEntry { name: "sec-websocket-key".to_owned(), value: k });
            proof {
                lemma_request_headers_accepted(self@, key@, nv);
            }
            assert(headers_view(headers@) =~= websocket_headers(key@));
        } else {
            assert(headers_view(headers@) =~= Seq::<(Seq<char>, Seq<char>)>::empty());
            proof {
                lemma_request_headers_accepted(self@, key@, nv);
            }
        }
        let method = match &self.method {
            Some(verb) => {
                if !method_from_bytes_ok(verb.as_str().as_bytes()) {
                    return Err(RequestError::InvalidMethod);
                }
                RequestMethod::Named(verb.clone())
            },
            None => if self.request_supposed_to_contain_body() {
                RequestMethod::Post
            } else {
                RequestMethod::Get
            },
        };
        let ghost before_ct = headers_view(headers@);
        if is_on(self.json) {
            headers.push(header("content-type", "application/json"));
        }
        if is_on(self.textplain) {
            headers.push(header("content-type", "text/plain"));
        }
        assert(headers_view(headers@) =~= before_ct + content_type_headers(self@));
        let ghost fixed = headers_view(headers@);
        let mut i: usize = 0;
        while i < header_nodes.len()
            invariant
                i <= header_nodes@.len(),
                nv == nodes_view(header_nodes@),
                self@.method matches Some(m) ==> method_ok(m),
                node_headers(nv.take(i as int)) matches Ok(hs) && headers_view(headers@) == fixed + hs,
            decreases header_nodes@.len() - i,
        {
            assert(nv.take(i + 1).drop_last() =~= nv.take(i as int));
            assert(nv.take(i + 1).last() == nv[i as int]);
            let ghost hs0 = headers_view(headers@);
            match clone_node_headers(header_nodes, i) {
                None => {
                    proof {
                        lemma_node_headers_err_sticks(nv, i + 1);
                    }
                    return Err(RequestError::NotHeaderNode);
                },
                Some((n, v)) => {
                    if !header_name_from_bytes_ok(n.as_str().as_bytes()) {
                        proof {
                            lemma_node_headers_err_sticks(nv, i + 1);
                        }
                        return Err(RequestError::InvalidHeaderName);
                    }
                    if !header_value_from_bytes_ok(v.as_str().as_bytes()) {
                        proof {
                            lemma_node_headers_err_sticks(nv, i + 1);
                        }
                        return Err(RequestError::InvalidHeaderValue);
                    }
                    let ghost entry = (n@, v@);
                    headers.push(HeaderEntry { name: n, value: v });
                    assert(headers_view(headers@) =~= hs0.push(entry));
                },
            }
            i += 1;
        }
        assert(nv.take(header_nodes@.len() as int) =~= nv);
        let uri = crate::class_info::clone_opt_string(&self.uri);
        let websocket_key = if ws {
            Some(*key)
        } else {
            None
        };
        Ok(RequestPlan { method, headers, uri, websocket_key })
    }

    /// The request for these options, with a fresh random key in WebSocket mode.
    pub fn get_request(&self, header_nodes: &Vec<Option<(String, String)>>) -> (r: Result<
        RequestPlan,
        RequestError,
    >)
        ensures
            exists|key: Seq<u8>|
                key.len() == 16 && match #[trigger] request_outcome(self@, key, nodes_view(header_nodes@)) {
                    Ok(pv) => r matches Ok(p) && p@ == pv,
                    Err(e) => r matches Err(e2) && e2 == e,
                },
            r matches Ok(p) ==> forall|i: int|
                0 <= i < p@.headers.len() ==> header_accepted(#[trigger] p@.headers[i]),
    {
        let key = random_key();
        let r = self.request_plan(&key, header_nodes);
        assert(key@.len() == 16);
        r
    }

    /// Checks the server's answer. In WebSocket mode (`wskey` is the key the
    /// request carried) the answer must agree to the upgrade and carry the
    /// `Sec-WebSocket-Accept` value derived from the key. Comparing its bytes
    /// is the same as comparing the text: the derived value is ASCII.
    pub fn handle_response(&self, resp: &ResponseHeaders, wskey: Option<[u8; 16]>) -> (r: Result<
        (),
        HandshakeError,
    >)
        ensures
            r == response_outcome(
                match wskey {
                    Some(k) => Some(k@),
                    None => None,
                },
                opt_bytes(resp.connection),
                opt_bytes(resp.upgrade),
                opt_bytes(resp.sec_websocket_accept),
            ),
    {
        match wskey {
            None => Ok(()),
            Some(key) => match (&resp.connection, &resp.upgrade, &resp.sec_websocket_accept) {
                (Some(c), Some(u), Some(a)) => {
                    if !bytes_eq_ignore_ascii_case(c.as_slice(), "upgrade".as_bytes()) {
                        return Err(HandshakeError::ConnectionNotUpgrade);
                    }
                    if !bytes_eq_ignore_ascii_case(u.as_slice(), "websocket".as_bytes()) {
                        return Err(HandshakeError::UpgradeNotWebsocket);
                    }
                    let sent = key_header_value(&key);
                    let accept = derive_accept_key(sent.as_str().as_bytes());
                    if !bytes_eq(accept.as_str().as_bytes(), a.as_slice()) {
                        return Err(HandshakeError::AcceptMismatch);
                    }
                    Ok(())
                },
                _ => Err(HandshakeError::MissingHeaders),
            },
        }
    }

    /// Where the request body comes from.
    pub fn request_body_source(&self) -> (r: RequestBodySource)
        requires
            buffer_hint_usable(self@),
        ensures
            r == body_source(self@),
    {
        let buffered = is_on(self.buffer_request_body);
        if is_on(self.stream_request_body) {
            if buffered {
                RequestBodySource::StreamedBuffered { capacity: self.size_hint_capacity() }
            } else {
                RequestBodySource::StreamedChunked
            }
        } else {
            match self.request_body {
                Some(node) => RequestBodySource::Subnode { node, buffered },
                None => RequestBodySource::Empty,
            }
        }
    }

    fn size_hint_capacity(&self) -> (r: u64)
        requires
            buffer_hint_usable(self@),
            on(self@.buffer_request_body),
        ensures
            r == buffer_capacity(self@),
    {
        match self.buffer_request_body_size_hint {
            Some(sz) => sz as u64,
            None => 0,
        }
    }

    /// How a `request_body` subnode's source becomes the body: buffered
    /// sources are read completely; unbuffered datagrams are forwarded, and an
    /// unbuffered byte stream is refused; an empty source gives an empty body.
    pub fn subnode_body(&self, source: SourceKind) -> (r: Result<SubnodeBody, RunError>)
        requires
            buffer_hint_usable(self@),
        ensures
            r == subnode_outcome(self@, source),
    {
        if is_on(self.buffer_request_body) {
            match source {
                SourceKind::ByteStream => Ok(SubnodeBody::ReadToEnd { capacity: self.size_hint_capacity() }),
                SourceKind::Datagrams => Ok(SubnodeBody::Collect { capacity: self.size_hint_capacity() }),
                SourceKind::Nothing => Ok(SubnodeBody::Empty),
            }
        } else {
            match source {
                SourceKind::ByteStream => Err(RunError::ByteStreamNotBuffered),
                SourceKind::Datagrams => Ok(SubnodeBody::Forward),
                SourceKind::Nothing => Ok(SubnodeBody::Empty),
            }
        }
    }

    /// What the node offers once the response is in: the upgraded connection
    /// when `upgrade` is on, else the response body.
    pub fn response_mode(&self) -> (r: ResponseMode)
        ensures
            r == response_mode_of(self@),
    {
        if is_on(self.upgrade) {
            ResponseMode::Upgraded
        } else {
            ResponseMode::BodyDatagrams
        }
    }
}

/// The value of `Default::default()` for the type, whatever the argument:
/// what the node's client handle is reset to when the node is cloned.
pub fn ignorant_default<T: Default>(_x: &T) -> (r: T)
    ensures
        call_ensures(T::default, (), r),
{
    T::default()
}

/// A WebSocket request and a conforming server agree: the request carries
/// the Base64 of its key as `Sec-WebSocket-Key`, and the client accepts an
/// answer that agrees to the upgrade and carries the `Sec-WebSocket-Accept`
/// value a server derives from that header.
pub proof fn lemma_handshake_roundtrip(
    c: HttpClientView,
    key: Seq<u8>,
    nodes: Seq<Option<(Seq<char>, Seq<char>)>>,
    connection: Seq<u8>,
    upgrade: Seq<u8>,
)
    requires
        on(c.websocket),
        request_outcome(c, key, nodes) is Ok,
        eq_ignore_ascii_case(connection, encode_utf8("upgrade"@)),
        eq_ignore_ascii_case(upgrade, encode_utf8("websocket"@)),
    ensures
        request_outcome(c, key, nodes) matches Ok(plan) && plan.websocket_key == Some(key)
            && plan.headers[3] == ("sec-websocket-key"@, base64_text(key)) && response_outcome(
            plan.websocket_key,
            Some(connection),
            Some(upgrade),
            Some(encode_utf8(accept_key(encode_utf8(plan.headers[3].1)))),
        ) == Ok::<(), HandshakeError>(()),
{
    let plan = request_outcome(c, key, nodes)->Ok_0;
    let ct = content_type_headers(c);
    let hs = node_headers(nodes)->Ok_0;
    assert(plan.headers == websocket_headers(key) + ct + hs);
    assert(plan.headers[3] == websocket_headers(key)[3]);
}

/// In WebSocket mode, a validated client always asks for the upgrade.
pub proof fn lemma_validated_websocket_upgrades(c: HttpClientView)
    requires
        on(c.websocket),
        validate_outcome(c).1 is Ok,
    ensures
        on(validate_outcome(c).0.upgrade),
        !on(validate_outcome(c).0.stream_request_body),
{
}

/// The `method` option, when valid, is the request's method whether or not the
/// request has a body; without it, a request with a body is a POST and one
/// without is a GET. An invalid `method` option refuses the request.
pub proof fn lemma_method_option_sets_method(
    c: HttpClientView,
    key: Seq<u8>,
    nodes: Seq<Option<(Seq<char>, Seq<char>)>>,
)
    ensures
        c.method matches Some(m) ==> (request_outcome(c, key, nodes) is Ok ==> request_outcome(
            c,
            key,
            nodes,
        )->Ok_0.method == RequestMethodView::Named(m)),
        c.method matches Some(m) ==> (!method_ok(m) ==> request_outcome(c, key, nodes) == Err::<
            RequestPlanView,
            RequestError,
        >(RequestError::InvalidMethod)),
        c.method is None && request_outcome(c, key, nodes) is Ok ==> request_outcome(c, key, nodes)->Ok_0.method
            == (if on(c.stream_request_body) || c.request_body is Some {
            RequestMethodView::Post
        } else {
            RequestMethodView::Get
        }),
{
}

} // verus!
