//! The course of one run of the `http-highlevel-client` node, as a step
//! function from the current phase and what just happened to the next phase
//! and what to do: choose where the body comes from, start the body subnode,
//! prepare the body, send the request, check the answer, deliver.
use vstd::prelude::*;
use vstd::utf8::encode_utf8;
use crate::handshake::{accept_key, random_key};
use crate::http_syntax::eq_ignore_ascii_case;
use crate::http_client::{
    body_source, buffer_hint_usable, lemma_handshake_roundtrip, nodes_view, on, opt_bytes, request_outcome,
    response_mode_of, response_outcome, subnode_outcome, HttpClient, NodeId, RequestBodySource, RequestPlan,
    RequestPlanView, ResponseHeaders, ResponseMode, RunError, SourceKind, SubnodeBody,
};

verus! {

/// The phase a run is in.
#[derive(Debug)]
pub enum RunState {
    /// Nothing has happened yet.
    Start,
    /// The `request_body` subnode is being started.
    AwaitingSubnode,
    /// The body is being prepared (written to the node when `streamed`).
    AwaitingBody { streamed: bool },
    /// The request is on its way; `wskey` is the key its answer is checked against.
    AwaitingResponse { streamed: bool, wskey: Option<[u8; 16]> },
    /// The answer was accepted and delivered.
    Finished,
}

/// What happened since the last step.
pub enum RunEvent {
    /// The run begins.
    Begin,
    /// The body subnode has started and offers this kind of source.
    SubnodeStarted(SourceKind),
    /// The body is ready; the header nodes are resolved (see `request_plan`).
    BodyReady(Vec<Option<(String, String)>>),
    /// The server's answer has arrived.
    ResponseArrived(ResponseHeaders),
}

/// What to do next.
#[derive(Debug)]
pub enum RunAction {
    /// Hand out a sink that takes the body as it is written.
    OpenStreamedBody(RequestBodySource),
    /// Run the subnode the body is read from.
    StartSubnode(NodeId),
    /// Turn the subnode's source into the body this way.
    PrepareBody(SubnodeBody),
    /// Send the request with an empty body.
    UseEmptyBody,
    /// Build and send this request.
    Send(RequestPlan),
    /// Offer the answer this way.
    Deliver(ResponseMode),
}

pub enum RunStateView {
    Start,
    AwaitingSubnode,
    AwaitingBody { streamed: bool },
    AwaitingResponse { streamed: bool, wskey: Option<Seq<u8>> },
    Finished,
}

pub enum RunEventView {
    Begin,
    SubnodeStarted(SourceKind),
    BodyReady(Seq<Option<(Seq<char>, Seq<char>)>>),
    ResponseArrived(Option<Seq<u8>>, Option<Seq<u8>>, Option<Seq<u8>>),
}

pub enum RunActionView {
    OpenStreamedBody(RequestBodySource),
    StartSubnode(NodeId),
    PrepareBody(SubnodeBody),
    UseEmptyBody,
    Send(RequestPlanView),
    Deliver(ResponseMode),
}

pub open spec fn opt_key(k: Option<[u8; 16]>) -> Option<Seq<u8>> {
    match k {
        Some(k) => Some(k@),
        None => None,
    }
}

impl View for RunState {
    type V = RunStateView;

    open spec fn view(&self) -> RunStateView {
        match self {
            RunState::Start => RunStateView::Start,
            RunState::AwaitingSubnode => RunStateView::AwaitingSubnode,
            RunState::AwaitingBody { streamed } => RunStateView::AwaitingBody { streamed: *streamed },
            RunState::AwaitingResponse { streamed, wskey } => RunStateView::AwaitingResponse {
                streamed: *streamed,
                wskey: opt_key(*wskey),
            },
            RunState::Finished => RunStateView::Finished,
        }
    }
}

impl View for RunEvent {
    type V = RunEventView;

    open spec fn view(&self) -> RunEventView {
        match self {
            RunEvent::Begin => RunEventView::Begin,
            RunEvent::SubnodeStarted(k) => RunEventView::SubnodeStarted(*k),
            RunEvent::BodyReady(nodes) => RunEventView::BodyReady(nodes_view(nodes@)),
            RunEvent::ResponseArrived(h) => RunEventView::ResponseArrived(
                opt_bytes(h.connection),
                opt_bytes(h.upgrade),
                opt_bytes(h.sec_websocket_accept),
            ),
        }
    }
}

impl View for RunAction {
    type V = RunActionView;

    open spec fn view(&self) -> RunActionView {
        match self {
            RunAction::OpenStreamedBody(s) => RunActionView::OpenStreamedBody(*s),
            RunAction::StartSubnode(n) => RunActionView::StartSubnode(*n),
            RunAction::PrepareBody(b) => RunActionView::PrepareBody(*b),
            RunAction::UseEmptyBody => RunActionView::UseEmptyBody,
            RunAction::Send(p) => RunActionView::Send(p@),
            RunAction::Deliver(m) => RunActionView::Deliver(*m),
        }
    }
}

/// The events each phase waits for; a finished run waits for none.
pub open spec fn event_fits(s: RunStateView, e: RunEventView) -> bool {
    match (s, e) {
        (RunStateView::Start, RunEventView::Begin) => true,
        (RunStateView::AwaitingSubnode, RunEventView::SubnodeStarted(_)) => true,
        (RunStateView::AwaitingBody { .. }, RunEventView::BodyReady(_)) => true,
        (RunStateView::AwaitingResponse { .. }, RunEventView::ResponseArrived(..)) => true,
        _ => false,
    }
}

/// One step of a run, for the options `c`, with `key` as the WebSocket key a
/// request would carry. A streamed body is written to the node, so the run
/// offers a sink at once and sends the request when the body is complete; its
/// answer is checked without a key and always delivered as a body. Otherwise
/// the body comes from the subnode or is empty, the answer is checked against
/// the key the request carried, and it is delivered as `response_mode` says.
pub open spec fn step_outcome(c: crate::http_client::HttpClientView, s: RunStateView, e: RunEventView, key: Seq<u8>) -> Result<
    (RunStateView, RunActionView),
    RunError,
> {
    match (s, e) {
        (RunStateView::Start, RunEventView::Begin) => match body_source(c) {
            RequestBodySource::Subnode { node, .. } => Ok(
                (RunStateView::AwaitingSubnode, RunActionView::StartSubnode(node)),
            ),
            RequestBodySource::Empty => Ok(
                (RunStateView::AwaitingBody { streamed: false }, RunActionView::UseEmptyBody),
            ),
            src => Ok((RunStateView::AwaitingBody { streamed: true }, RunActionView::OpenStreamedBody(src))),
        },
        (RunStateView::AwaitingSubnode, RunEventView::SubnodeStarted(kind)) => match subnode_outcome(c, kind) {
            Ok(b) => Ok((RunStateView::AwaitingBody { streamed: false }, RunActionView::PrepareBody(b))),
            Err(err) => Err(err),
        },
        (RunStateView::AwaitingBody { streamed }, RunEventView::BodyReady(nodes)) => match request_outcome(
            c,
            key,
            nodes,
        ) {
            Ok(plan) => Ok(
                (
                    RunStateView::AwaitingResponse {
                        streamed,
                        wskey: if streamed {
                            None
                        } else {
                            plan.websocket_key
                        },
                    },
                    RunActionView::Send(plan),
                ),
            ),
            Err(err) => Err(RunError::Request(err)),
        },
        (
            RunStateView::AwaitingResponse { streamed, wskey },
            RunEventView::ResponseArrived(connection, upgrade, accept),
        ) => match response_outcome(wskey, connection, upgrade, accept) {
            Ok(()) => Ok(
                (
                    RunStateView::Finished,
                    RunActionView::Deliver(
                        if streamed {
                            ResponseMode::BodyDatagrams
                        } else {
                            response_mode_of(c)
                        },
                    ),
                ),
            ),
            Err(err) => Err(RunError::Handshake(err)),
        },
        _ => vstd::pervasive::arbitrary(),
    }
}

impl HttpClient {
    /// One step of a run with a given WebSocket key.
    pub fn run_step_with_key(&self, state: &RunState, event: &RunEvent, key: &[u8; 16]) -> (r: Result<
        (RunState, RunAction),
        RunError,
    >)
        requires
            buffer_hint_usable(self@),
            event_fits(state@, event@),
        ensures
            match step_outcome(self@, state@, event@, key@) {
                Ok((s, a)) => r matches Ok((s2, a2)) && s2@ == s && a2@ == a,
                Err(e) => r matches Err(e2) && e2 == e,
            },
    {
        match (state, event) {
            (RunState::Start, RunEvent::Begin) => {
                let src = self.request_body_source();
                match src {
                    RequestBodySource::Subnode { node, .. } => Ok(
                        (RunState::AwaitingSubnode, RunAction::StartSubnode(node)),
                    ),
                    RequestBodySource::Empty => Ok(
                        (RunState::AwaitingBody { streamed: false }, RunAction::UseEmptyBody),
                    ),
                    _ => Ok((RunState::AwaitingBody { streamed: true }, RunAction::OpenStreamedBody(src))),
                }
            },
            (RunState::AwaitingSubnode, RunEvent::SubnodeStarted(kind)) => match self.subnode_body(*kind) {
                Ok(b) => Ok((RunState::AwaitingBody { streamed: false }, RunAction::PrepareBody(b))),
                Err(err) => Err(err),
            },
            (RunState::AwaitingBody { streamed }, RunEvent::BodyReady(nodes)) => match self.request_plan(
                key,
                nodes,
            ) {
                Ok(plan) => {
                    let wskey = if *streamed {
                        None
                    } else {
                        plan.websocket_key
                    };
                    Ok((RunState::AwaitingResponse { streamed: *streamed, wskey }, RunAction::Send(plan)))
                },
                Err(err) => Err(RunError::Request(err)),
            },
            (RunState::AwaitingResponse { streamed, wskey }, RunEvent::ResponseArrived(h)) => {
                match self.handle_response(h, *wskey) {
                    Ok(()) => {
                        let mode = if *streamed {
                            ResponseMode::BodyDatagrams
                        } else {
                            self.response_mode()
                        };
                        Ok((RunState::Finished, RunAction::Deliver(mode)))
                    },
                    Err(err) => Err(RunError::Handshake(err)),
                }
            },
            _ => vstd::pervasive::unreached(),
        }
    }

    /// One step of a run; when the body is ready, a fresh random key is drawn
    /// for the request.
    pub fn run_step(&self, state: &RunState, event: &RunEvent) -> (r: Result<(RunState, RunAction), RunError>)
        requires
            buffer_hint_usable(self@),
            event_fits(state@, event@),
        ensures
            exists|key: Seq<u8>|
                key.len() == 16 && match #[trigger] step_outcome(self@, state@, event@, key) {
                    Ok((s, a)) => r matches Ok((s2, a2)) && s2@ == s && a2@ == a,
                    Err(e) => r matches Err(e2) && e2 == e,
                },
    {
        let key: [u8; 16] = match event {
            RunEvent::BodyReady(_) => random_key(),
            _ => [0u8; 16],
        };
        let r = self.run_step_with_key(state, event, &key);
        assert(key@.len() == 16);
        r
    }
}

/// A run that is not refused passes through its phases in order: body source,
/// (subnode,) body, request, answer, and ends after the answer is delivered.
pub proof fn lemma_run_phases(
    c: crate::http_client::HttpClientView,
    s: RunStateView,
    e: RunEventView,
    key: Seq<u8>,
)
    requires
        event_fits(s, e),
        step_outcome(c, s, e, key) is Ok,
    ensures
        ({
            let next = step_outcome(c, s, e, key)->Ok_0.0;
            match s {
                RunStateView::Start => next is AwaitingSubnode || next is AwaitingBody,
                RunStateView::AwaitingSubnode => next == RunStateView::AwaitingBody { streamed: false },
                RunStateView::AwaitingBody { streamed } => next matches RunStateView::AwaitingResponse {
                    streamed: st,
                    ..
                } && st == streamed,
                RunStateView::AwaitingResponse { .. } => next is Finished,
                RunStateView::Finished => false,
            }
        }),
{
}

/// A WebSocket run checks the answer against the key its request carried: the
/// request step records that key, and an answer that agrees to the upgrade and
/// carries the `Sec-WebSocket-Accept` value derived from the request's
/// `Sec-WebSocket-Key` header ends the run, delivered as `response_mode` says.
pub proof fn lemma_websocket_run_accepts_conforming_answer(
    c: crate::http_client::HttpClientView,
    key: Seq<u8>,
    nodes: Seq<Option<(Seq<char>, Seq<char>)>>,
    connection: Seq<u8>,
    upgrade: Seq<u8>,
)
    requires
        on(c.websocket),
        request_outcome(c, key, nodes) is Ok,
        eq_ignore_ascii_case(connection, encode_utf8("upgrade"@)),
        eq_ignore_ascii_case(upgrade, encode_utf8("websocket"@)),
    ensures
        step_outcome(c, RunStateView::AwaitingBody { streamed: false }, RunEventView::BodyReady(nodes), key) matches Ok(
            (s1, RunActionView::Send(plan)),
        ) && s1 == (RunStateView::AwaitingResponse { streamed: false, wskey: Some(key) }) && step_outcome(
            c,
            s1,
            RunEventView::ResponseArrived(
                Some(connection),
                Some(upgrade),
                Some(encode_utf8(accept_key(encode_utf8(plan.headers[3].1)))),
            ),
            key,
        ) == Ok::<(RunStateView, RunActionView), RunError>(
            (RunStateView::Finished, RunActionView::Deliver(response_mode_of(c))),
        ),
{
    lemma_handshake_roundtrip(c, key, nodes, connection, upgrade);
}

/// A run whose body is streamed checks no key: once its request is sent, any
/// answer ends the run and its body is delivered.
pub proof fn lemma_streamed_run_accepts_any_answer(
    c: crate::http_client::HttpClientView,
    key: Seq<u8>,
    nodes: Seq<Option<(Seq<char>, Seq<char>)>>,
    connection: Option<Seq<u8>>,
    upgrade: Option<Seq<u8>>,
    accept: Option<Seq<u8>>,
)
    requires
        request_outcome(c, key, nodes) is Ok,
    ensures
        step_outcome(c, RunStateView::AwaitingBody { streamed: true }, RunEventView::BodyReady(nodes), key) matches Ok(
            (s1, _),
        ) && step_outcome(c, s1, RunEventView::ResponseArrived(connection, upgrade, accept), key) == Ok::<
            (RunStateView, RunActionView),
            RunError,
        >((RunStateView::Finished, RunActionView::Deliver(ResponseMode::BodyDatagrams))),
{
}

} // verus!
