//! What a server decides about each client message; running the transport
//! and writing the replies is left to the caller.

use vstd::prelude::*;
use crate::schema::zerocopy::{
    ClientMessage, ClientRequest, Message, RequestId, ServerMessage, ServerResult,
};
use crate::text::TextView;

verus! {

/// A tool that the server offers.
pub trait Tool {}

/// A resource that the server offers.
pub trait Resource {}

/// The response to request `id`, with result `result`, in the version
/// `jsonrpc` that the request carried.
pub fn respond_to(jsonrpc: TextView, id: RequestId, result: ServerResult) -> (m: ServerMessage)
    ensures
        m == (ServerMessage::Response { jsonrpc, id, result }),
{
    Message::Response { jsonrpc, id, result }
}

/// How the server answers a request.
#[derive(Clone, Copy, Debug, PartialEq, Eq, Structural)]
pub enum Reply {
    /// The server's capabilities and identity, with the protocol version
    /// that the client asked for.
    Initialize,
    /// An empty result.
    Empty,
    /// An empty list of resources.
    Resources,
    /// An empty list of prompts.
    Prompts,
    /// An empty list of tools.
    Tools,
    /// The server does not serve this method.
    Unsupported,
}

/// How the server answers a request of variant index `kind`: it initializes,
/// answers pings, and lists its (empty) resources, prompts and tools.
pub open spec fn reply_for(kind: int) -> Reply {
    if kind == 0 {
        Reply::Initialize
    } else if kind == 1 {
        Reply::Empty
    } else if kind == 2 {
        Reply::Resources
    } else if kind == 7 {
        Reply::Prompts
    } else if kind == 9 {
        Reply::Tools
    } else {
        Reply::Unsupported
    }
}

/// How the server answers `request`.
pub fn reply_to(request: &ClientRequest) -> (r: Reply)
    ensures
        r == reply_for(request.kind()),
{
    match request {
        ClientRequest::Initialize(_) => Reply::Initialize,
        ClientRequest::Ping(_) => Reply::Empty,
        ClientRequest::ListResources(_) => Reply::Resources,
        ClientRequest::ListPrompts(_) => Reply::Prompts,
        ClientRequest::ListTools(_) => Reply::Tools,
        _ => Reply::Unsupported,
    }
}

/// What the server does with client message `message`: a request gets a
/// reply; responses, notifications and errors get none.
pub fn handle(message: &ClientMessage) -> (r: Option<Reply>)
    ensures
        match message {
            Message::Request { request, .. } => r == Some(reply_for(request.kind())),
            _ => r is None,
        },
{
    match message {
        Message::Request { jsonrpc: _, id: _, request } => Some(reply_to(request)),
        _ => None,
    }
}

} // verus!
