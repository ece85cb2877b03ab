//! The handlers: what the process does with one message.
//!
//! A handler changes the [`State`] and says what is to be sent; it sends
//! nothing itself.

use crate::command::{CounterMessage, CounterResponse};
use crate::envelope::{
    enveloped_event, parse_server_request, request_path, requested_path, InboundEvent,
    InboundMessage, ServerRequest,
};
use crate::state::{State, StateView};
use kinode_process_lib::http::IncomingHttpRequest;
use vstd::prelude::*;

verus! {

/// What the caller of a handler has to do next.
#[derive(Clone, Copy, Debug, PartialEq, Eq, Structural)]
pub enum Action {
    /// Nothing is to be sent.
    Nothing,
    /// Let the asset server serve the user interface at the root path.
    ServeUi,
    /// Answer the HTTP request with status 404 and an empty body.
    NotFound,
    /// A frame arrived on this channel: fetch its payload and hand both to
    /// [`handle_ws_message`].
    FetchPayload(u32),
}

/// Why a message could not be handled. No such error ends the process.
#[derive(Clone, Copy, Debug, PartialEq, Eq, Structural)]
pub enum HandlerError {
    /// A frame arrived without a payload.
    MissingPayload,
    /// The payload of a frame is not a command.
    MalformedCommand,
    /// The body of a request is not an envelope of the HTTP server.
    MalformedEnvelope,
    /// The URL of an HTTP request cannot be read.
    InvalidUrl,
}

/// A text frame to push to a channel.
#[derive(Clone, Debug, PartialEq, Eq)]
pub struct Reply {
    pub channel_id: u32,
    pub body: Vec<u8>,
}

/// What a [`Reply`] stands for.
pub struct ReplyView {
    pub channel_id: u32,
    pub body: Seq<u8>,
}

impl View for Reply {
    type V = ReplyView;

    open spec fn view(&self) -> ReplyView {
        ReplyView { channel_id: self.channel_id, body: self.body@ }
    }
}

/// The action that answers an HTTP request for `path`: only the root path is
/// served.
pub open spec fn routed(path: Seq<char>) -> Action {
    if path == "/"@ {
        Action::ServeUi
    } else {
        Action::NotFound
    }
}

/// The answer to an HTTP request that yields `path`: a path is routed, and
/// the lack of one is an error.
pub open spec fn http_answer(path: Option<Seq<char>>) -> Result<Action, HandlerError> {
    match path {
        Some(p) => Ok(routed(p)),
        None => Err(HandlerError::InvalidUrl),
    }
}

/// What a push does: the state after it, and the reply or the error.
pub open spec fn push_outcome(pre: StateView, channel_id: u32, blob: Option<Seq<u8>>) -> (
    StateView,
    Result<ReplyView, HandlerError>,
) {
    match blob {
        None => (pre, Err(HandlerError::MissingPayload)),
        Some(payload) => match CounterMessage::decoded(payload) {
            None => (pre, Err(HandlerError::MalformedCommand)),
            Some(message) => {
                let post = pre.applied(message);
                let body = CounterResponse { value: post.counter }.encoded();
                (post, Ok(ReplyView { channel_id, body }))
            },
        },
    }
}

/// The bytes of a payload, if there is one.
pub open spec fn blob_view(blob: Option<&[u8]>) -> Option<Seq<u8>> {
    match blob {
        Some(payload) => Some(payload@),
        None => None,
    }
}

/// What the result of a push stands for.
pub open spec fn reply_view(res: Result<Reply, HandlerError>) -> Result<ReplyView, HandlerError> {
    match res {
        Ok(reply) => Ok(reply@),
        Err(e) => Err(e),
    }
}

/// Picks the action for an HTTP request by its path.
pub fn route(path: &str) -> (action: Action)
    ensures
        action == routed(path@),
{
    if path.to_owned() == "/".to_owned() {
        Action::ServeUi
    } else {
        Action::NotFound
    }
}

/// Handles an HTTP request: the root path is served, any other path is not
/// found. A request that yields no path, because its URL cannot be read, is
/// an error, and such a request gets no response at all.
pub fn handle_http_request(request: &IncomingHttpRequest) -> (res: Result<Action, HandlerError>)
    ensures
        res == http_answer(requested_path(*request)),
{
    answer_path(request_path(request))
}

/// Answers an HTTP request, given what asking it for its path gave: a path
/// is routed, and the lack of one is an error.
pub fn answer_path(path: Result<String, anyhow::Error>) -> (res: Result<Action, HandlerError>)
    ensures
        res == http_answer(
            match path {
                Ok(p) => Some(p@),
                Err(_) => None,
            },
        ),
{
    match path {
        Ok(p) => Ok(route(p.as_str())),
        Err(_) => Err(HandlerError::InvalidUrl),
    }
}

/// Handles a frame that arrived on channel `channel_id` with payload `blob`.
///
/// The payload is decoded as a command, the command is applied to the
/// counter, and the counter comes back as the reply for the same channel.
/// Without a payload, or with one that is no command, the state stays as it
/// is and there is no reply. Whether the channel is open is not looked at.
pub fn handle_ws_message(state: &mut State, channel_id: u32, blob: Option<&[u8]>) -> (res: Result<
    Reply,
    HandlerError,
>)
    ensures
        (final(state)@, reply_view(res)) == push_outcome(old(state)@, channel_id, blob_view(blob)),
        blob matches Some(payload) && payload@.len() == 0 ==> res == Err::<Reply, HandlerError>(
            HandlerError::MalformedCommand,
        ),
{
    let payload = match blob {
        Some(payload) => payload,
        None => { return Err(HandlerError::MissingPayload); },
    };
    let message = match CounterMessage::decode(payload) {
        Some(message) => message,
        None => { return Err(HandlerError::MalformedCommand); },
    };
    let response = state.apply(message);
    Ok(Reply { channel_id, body: response.encode() })
}

/// The state after a decoded event was handled: opening and closing a
/// channel is recorded in the registry, and nothing else changes anything.
pub open spec fn recorded(pre: StateView, event: InboundEvent) -> StateView {
    match event {
        InboundEvent::ChannelOpen(id) => pre.opened(id),
        InboundEvent::ChannelClose(id) => pre.closed(id),
        InboundEvent::HttpRequest(_) => pre,
        InboundEvent::ChannelPush(_) => pre,
    }
}

/// What handling a decoded event gives.
///
/// After opening and closing a channel nothing is to be sent. For a frame
/// the payload is asked for. An HTTP request is answered by its path.
pub open spec fn answer(event: InboundEvent) -> Result<Action, HandlerError> {
    match event {
        InboundEvent::ChannelOpen(_) => Ok(Action::Nothing),
        InboundEvent::ChannelClose(_) => Ok(Action::Nothing),
        InboundEvent::ChannelPush(id) => Ok(Action::FetchPayload(id)),
        InboundEvent::HttpRequest(path) => http_answer(path),
    }
}

/// Whether the process looks at `message` at all: it must be a request that
/// comes from the node the process runs on.
pub open spec fn accepted(our_node: Seq<char>, message: InboundMessage) -> bool {
    message.source_node@ == our_node && message.is_request
}

/// Handles a decoded envelope.
///
/// Opening and closing a channel is recorded in the registry. A frame is
/// not handled here: its payload has to be fetched first. An HTTP request
/// goes to [`handle_http_request`].
pub fn handle_request(state: &mut State, request: ServerRequest) -> (res: Result<
    Action,
    HandlerError,
>)
    ensures
        final(state)@ == recorded(old(state)@, request@),
        res == answer(request@),
{
    match request {
        ServerRequest::Http(http_request) => handle_http_request(&http_request),
        ServerRequest::WebSocketOpen { channel_id } => {
            state.record_open(channel_id);
            Ok(Action::Nothing)
        },
        ServerRequest::WebSocketClose(channel_id) => {
            state.record_close(channel_id);
            Ok(Action::Nothing)
        },
        ServerRequest::WebSocketPush { channel_id } => Ok(Action::FetchPayload(channel_id)),
    }
}

/// Handles one message that reached the process on node `our_node`.
///
/// A message from another node, or one that is no request, is dropped
/// without a trace. The body of any other message must be an envelope of the
/// HTTP server, and is handled as [`handle_request`] says.
pub fn handle_message(our_node: &str, state: &mut State, message: &InboundMessage) -> (res: Result<
    Action,
    HandlerError,
>)
    ensures
        !accepted(our_node@, *message) ==> {
            &&& final(state)@ == old(state)@
            &&& res == Ok::<Action, HandlerError>(Action::Nothing)
        },
        accepted(our_node@, *message) ==> match enveloped_event(message.body@) {
            Some(event) => {
                &&& final(state)@ == recorded(old(state)@, event)
                &&& res == answer(event)
            },
            None => {
                &&& final(state)@ == old(state)@
                &&& res == Err::<Action, HandlerError>(HandlerError::MalformedEnvelope)
            },
        },
{
    if message.source_node != our_node.to_owned() {
        return Ok(Action::Nothing);
    }
    if !message.is_request {
        return Ok(Action::Nothing);
    }
    match parse_server_request(message.body.as_slice()) {
        Ok(request) => handle_request(state, request),
        Err(_) => Err(HandlerError::MalformedEnvelope),
    }
}

} // verus!
