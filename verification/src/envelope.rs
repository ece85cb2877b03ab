//! What the HTTP server of the node hands to the process: a message whose
//! body is a JSON envelope around one HTTP or WebSocket event.
//!
//! The envelope is read by `serde_json` into the request type of
//! `kinode_process_lib`. Everything in this module that touches either crate
//! is trusted: Verus takes the contracts below as given.

use kinode_process_lib::http::{HttpServerRequest, IncomingHttpRequest};
use vstd::prelude::*;

verus! {

/// An HTTP request as `kinode_process_lib` holds it. Of a value of it only
/// [`requested_path`] is spoken of.
#[verifier::external_type_specification]
#[verifier::external_body]
pub struct ExIncomingHttpRequest(kinode_process_lib::http::IncomingHttpRequest);

/// The error type of `anyhow`. Nothing is known of a value of it.
#[verifier::external_type_specification]
#[verifier::external_body]
pub struct ExAnyhowError(anyhow::Error);

/// A message as it reaches the process, reduced to what the dispatch reads.
#[derive(Clone, Debug, PartialEq, Eq)]
pub struct InboundMessage {
    /// The node that sent the message.
    pub source_node: String,
    /// Whether the message is a request; if not, it is a response.
    pub is_request: bool,
    /// The body of the message.
    pub body: Vec<u8>,
}

/// The events an envelope can hold, with what the dispatch reads of each.
pub enum InboundEvent {
    /// A plain HTTP request, with its path; `None` when its URL cannot be
    /// read.
    HttpRequest(Option<Seq<char>>),
    /// A client opened the channel with this id.
    ChannelOpen(u32),
    /// The channel with this id was closed.
    ChannelClose(u32),
    /// A frame arrived on the channel with this id. Its payload travels
    /// apart from the envelope.
    ChannelPush(u32),
}

/// An envelope, decoded.
#[derive(Debug)]
pub enum ServerRequest {
    Http(IncomingHttpRequest),
    WebSocketOpen { channel_id: u32 },
    WebSocketPush { channel_id: u32 },
    WebSocketClose(u32),
}

impl View for ServerRequest {
    type V = InboundEvent;

    open spec fn view(&self) -> InboundEvent {
        match self {
            ServerRequest::Http(request) => InboundEvent::HttpRequest(requested_path(*request)),
            ServerRequest::WebSocketOpen { channel_id } => InboundEvent::ChannelOpen(*channel_id),
            ServerRequest::WebSocketPush { channel_id } => InboundEvent::ChannelPush(*channel_id),
            ServerRequest::WebSocketClose(channel_id) => InboundEvent::ChannelClose(*channel_id),
        }
    }
}

/// The path of an HTTP request as `kinode_process_lib` gives it: what
/// follows the first segment of the path of its URL, which names the process,
/// with a slash in front; `None` when the URL cannot be read.
pub uninterp spec fn requested_path(request: IncomingHttpRequest) -> Option<Seq<char>>;

/// The event that the bytes of an envelope stand for, as `serde_json` reads
/// them into the server request type of `kinode_process_lib`: `None` when the
/// bytes are no such envelope.
pub uninterp spec fn enveloped_event(body: Seq<u8>) -> Option<InboundEvent>;

/// Calls `serde_json::from_slice` at type
/// `kinode_process_lib::http::HttpServerRequest` and tells the variants apart.
///
/// Trusted: the call reads nothing but `body`, so which event comes out, or
/// that none does, is [`enveloped_event`] of the bytes; for an HTTP request
/// that includes the path that the request yields.
#[verifier::external_body]
pub(crate) fn parse_server_request(body: &[u8]) -> (res: Result<ServerRequest, serde_json::Error>)
    ensures
        match res {
            Ok(request) => enveloped_event(body@) == Some(request@),
            Err(_) => enveloped_event(body@) is None,
        },
{
    match serde_json::from_slice::<HttpServerRequest>(body)? {
        HttpServerRequest::Http(request) => Ok(ServerRequest::Http(request)),
        HttpServerRequest::WebSocketOpen { channel_id, .. } => {
            Ok(ServerRequest::WebSocketOpen { channel_id })
        },
        HttpServerRequest::WebSocketPush { channel_id, .. } => {
            Ok(ServerRequest::WebSocketPush { channel_id })
        },
        HttpServerRequest::WebSocketClose(channel_id) => Ok(ServerRequest::WebSocketClose(channel_id)),
    }
}

/// Calls `IncomingHttpRequest::path` of `kinode_process_lib`.
///
/// Trusted: the call reads nothing but the URL that the request holds, so
/// its outcome is [`requested_path`] of the request.
#[verifier::external_body]
pub(crate) fn request_path(request: &IncomingHttpRequest) -> (res: Result<String, anyhow::Error>)
    ensures
        match res {
            Ok(path) => requested_path(*request) == Some(path@),
            Err(_) => requested_path(*request) is None,
        },
{
    request.path()
}

} // verus!
