//! The protocol's message envelope in its owned representation, where every
//! text is a `String` of its own; [`zerocopy`] holds the view representation.
//! Both decode the same frame, the top-level members of one message, by the
//! rule [`decode_model`].

use vstd::prelude::*;
use crate::methods::{
    client_notification_kind, client_notification_method, client_notification_method_name,
    client_request_kind, client_request_method, client_request_method_name,
    find_client_notification, find_client_request, server_notification_method,
    server_notification_method_name, server_request_method, server_request_method_name,
};
use crate::text::{owned, same_text};

pub mod zerocopy;

verus! {

/// The protocol revision these messages follow.
pub const VERSION: &'static str = "2024-11-05";

/// The JSON-RPC version that every message carries.
pub const JSONRPC_VERSION: &'static str = "2.0";

#[verifier::external_type_specification]
#[verifier::external_body]
pub struct ExValidationError(serde_valid::validation::Error);

/// Relies on serde_valid::validation::Error::Custom: builds the validation
/// error that carries `message`.
#[verifier::external_body]
pub(crate) fn custom_error(message: String) -> serde_valid::validation::Error {
    serde_valid::validation::Error::Custom(message)
}

/// Validation of a decoded message: `val` must be the JSON-RPC version.
pub fn validate_jsonrpc_version(val: &str) -> (r: Result<(), serde_valid::validation::Error>)
    ensures
        r is Ok <==> val@ == JSONRPC_VERSION@,
{
    if same_text(val, JSONRPC_VERSION) {
        Ok(())
    } else {
        Err(custom_error(owned("JSONRPC version must be 2.0")))
    }
}

/// Validation of a decoded error message: it must carry the JSON-RPC version.
pub fn validate_jsonrpc_error(err: &JsonrpcError) -> (r: Result<(), serde_valid::validation::Error>)
    ensures
        r is Ok <==> err.jsonrpc@ == JSONRPC_VERSION@,
{
    validate_jsonrpc_version(err.jsonrpc.as_str())
}

/// A request identifier, as plain values.
pub ghost enum IdModel {
    Number(int),
    Text(Seq<char>),
}

/// A request identifier: a number or a text.
pub enum RequestId {
    Number(i64),
    Text(String),
}

impl View for RequestId {
    type V = IdModel;

    open spec fn view(&self) -> IdModel {
        match self {
            RequestId::Number(n) => IdModel::Number(*n as int),
            RequestId::Text(s) => IdModel::Text(s@),
        }
    }
}

impl RequestId {
    /// A copy of the identifier.
    pub fn copy(&self) -> (r: RequestId)
        ensures
            r@ == self@,
    {
        match self {
            RequestId::Number(n) => RequestId::Number(*n),
            RequestId::Text(s) => RequestId::Text(s.clone()),
        }
    }
}

/// A JSON-RPC error reply to the request `id`.
pub struct JsonrpcError {
    pub jsonrpc: String,
    pub id: RequestId,
    pub code: i64,
    pub message: String,
}

/// Anything sent from one side: a request, a notification, an error or a
/// response.
pub enum Message<RQ, RS, N> {
    Request { jsonrpc: String, id: RequestId, request: RQ },
    Notification { jsonrpc: String, notification: N },
    Error(JsonrpcError),
    Response { jsonrpc: String, id: RequestId, result: RS },
}

/// A message sent by a client.
pub type ClientMessage = Message<ClientRequest, ClientResult, ClientNotification>;

/// A message sent by a server.
pub type ServerMessage = Message<ServerRequest, ServerResult, ServerNotification>;

/// Request made by the client: the method selects the variant, which carries the raw
/// parameters, if any.
pub enum ClientRequest {
    Initialize(Option<String>),
    Ping(Option<String>),
    ListResources(Option<String>),
    ListResourceTemplates(Option<String>),
    ReadResource(Option<String>),
    Subscribe(Option<String>),
    Unsubscribe(Option<String>),
    ListPrompts(Option<String>),
    GetPrompt(Option<String>),
    ListTools(Option<String>),
    CallTool(Option<String>),
    SetLevel(Option<String>),
    Complete(Option<String>),
}

impl ClientRequest {
    /// The index of the variant.
    pub open spec fn kind(&self) -> int {
        match self {
            ClientRequest::Initialize(_) => 0,
            ClientRequest::Ping(_) => 1,
            ClientRequest::ListResources(_) => 2,
            ClientRequest::ListResourceTemplates(_) => 3,
            ClientRequest::ReadResource(_) => 4,
            ClientRequest::Subscribe(_) => 5,
            ClientRequest::Unsubscribe(_) => 6,
            ClientRequest::ListPrompts(_) => 7,
            ClientRequest::GetPrompt(_) => 8,
            ClientRequest::ListTools(_) => 9,
            ClientRequest::CallTool(_) => 10,
            ClientRequest::SetLevel(_) => 11,
            ClientRequest::Complete(_) => 12,
        }
    }

    /// The raw parameters.
    pub open spec fn params(&self) -> Option<String> {
        match self {
            ClientRequest::Initialize(p) => *p,
            ClientRequest::Ping(p) => *p,
            ClientRequest::ListResources(p) => *p,
            ClientRequest::ListResourceTemplates(p) => *p,
            ClientRequest::ReadResource(p) => *p,
            ClientRequest::Subscribe(p) => *p,
            ClientRequest::Unsubscribe(p) => *p,
            ClientRequest::ListPrompts(p) => *p,
            ClientRequest::GetPrompt(p) => *p,
            ClientRequest::ListTools(p) => *p,
            ClientRequest::CallTool(p) => *p,
            ClientRequest::SetLevel(p) => *p,
            ClientRequest::Complete(p) => *p,
        }
    }

    /// The method name that selects the variant.
    pub fn method(&self) -> (m: &'static str)
        ensures
            m@ == client_request_method(self.kind()),
    {
        match self {
            ClientRequest::Initialize(_) => client_request_method_name(0),
            ClientRequest::Ping(_) => client_request_method_name(1),
            ClientRequest::ListResources(_) => client_request_method_name(2),
            ClientRequest::ListResourceTemplates(_) => client_request_method_name(3),
            ClientRequest::ReadResource(_) => client_request_method_name(4),
            ClientRequest::Subscribe(_) => client_request_method_name(5),
            ClientRequest::Unsubscribe(_) => client_request_method_name(6),
            ClientRequest::ListPrompts(_) => client_request_method_name(7),
            ClientRequest::GetPrompt(_) => client_request_method_name(8),
            ClientRequest::ListTools(_) => client_request_method_name(9),
            ClientRequest::CallTool(_) => client_request_method_name(10),
            ClientRequest::SetLevel(_) => client_request_method_name(11),
            ClientRequest::Complete(_) => client_request_method_name(12),
        }
    }

    /// The variant of index `k`, with the parameters `params`.
    pub fn from_kind(k: usize, params: Option<String>) -> (r: Self)
        requires
            k < 13,
        ensures
            r.kind() == k,
            r.params() == params,
    {
        match k {
            0 => ClientRequest::Initialize(params),
            1 => ClientRequest::Ping(params),
            2 => ClientRequest::ListResources(params),
            3 => ClientRequest::ListResourceTemplates(params),
            4 => ClientRequest::ReadResource(params),
            5 => ClientRequest::Subscribe(params),
            6 => ClientRequest::Unsubscribe(params),
            7 => ClientRequest::ListPrompts(params),
            8 => ClientRequest::GetPrompt(params),
            9 => ClientRequest::ListTools(params),
            10 => ClientRequest::CallTool(params),
            11 => ClientRequest::SetLevel(params),
            _ => ClientRequest::Complete(params),
        }
    }
}

/// Notification sent by the client: the method selects the variant, which carries the raw
/// parameters, if any.
pub enum ClientNotification {
    Cancelled(Option<String>),
    Initialized(Option<String>),
    Progress(Option<String>),
    RootsListChanged(Option<String>),
}

impl ClientNotification {
    /// The index of the variant.
    pub open spec fn kind(&self) -> int {
        match self {
            ClientNotification::Cancelled(_) => 0,
            ClientNotification::Initialized(_) => 1,
            ClientNotification::Progress(_) => 2,
            ClientNotification::RootsListChanged(_) => 3,
        }
    }

    /// The raw parameters.
    pub open spec fn params(&self) -> Option<String> {
        match self {
            ClientNotification::Cancelled(p) => *p,
            ClientNotification::Initialized(p) => *p,
            ClientNotification::Progress(p) => *p,
            ClientNotification::RootsListChanged(p) => *p,
        }
    }

    /// The method name that selects the variant.
    pub fn method(&self) -> (m: &'static str)
        ensures
            m@ == client_notification_method(self.kind()),
    {
        match self {
            ClientNotification::Cancelled(_) => client_notification_method_name(0),
            ClientNotification::Initialized(_) => client_notification_method_name(1),
            ClientNotification::Progress(_) => client_notification_method_name(2),
            ClientNotification::RootsListChanged(_) => client_notification_method_name(3),
        }
    }

    /// The variant of index `k`, with the parameters `params`.
    pub fn from_kind(k: usize, params: Option<String>) -> (r: Self)
        requires
            k < 4,
        ensures
            r.kind() == k,
            r.params() == params,
    {
        match k {
            0 => ClientNotification::Cancelled(params),
            1 => ClientNotification::Initialized(params),
            2 => ClientNotification::Progress(params),
            _ => ClientNotification::RootsListChanged(params),
        }
    }
}

/// Request made by the server: the method selects the variant, which carries the raw
/// parameters, if any.
pub enum ServerRequest {
    Ping(Option<String>),
    CreateMessage(Option<String>),
    ListRoots(Option<String>),
}

impl ServerRequest {
    /// The index of the variant.
    pub open spec fn kind(&self) -> int {
        match self {
            ServerRequest::Ping(_) => 0,
            ServerRequest::CreateMessage(_) => 1,
            ServerRequest::ListRoots(_) => 2,
        }
    }

    /// The raw parameters.
    pub open spec fn params(&self) -> Option<String> {
        match self {
            ServerRequest::Ping(p) => *p,
            ServerRequest::CreateMessage(p) => *p,
            ServerRequest::ListRoots(p) => *p,
        }
    }

    /// The method name that selects the variant.
    pub fn method(&self) -> (m: &'static str)
        ensures
            m@ == server_request_method(self.kind()),
    {
        match self {
            ServerRequest::Ping(_) => server_request_method_name(0),
            ServerRequest::CreateMessage(_) => server_request_method_name(1),
            ServerRequest::ListRoots(_) => server_request_method_name(2),
        }
    }
}

/// Notification sent by the server: the method selects the variant, which carries the raw
/// parameters, if any.
pub enum ServerNotification {
    Cancelled(Option<String>),
    Progress(Option<String>),
    ResourceListChanged(Option<String>),
    ResourceUpdated(Option<String>),
    PromptListChanged(Option<String>),
    ToolListChanged(Option<String>),
    LoggingMessage(Option<String>),
}

impl ServerNotification {
    /// The index of the variant.
    pub open spec fn kind(&self) -> int {
        match self {
            ServerNotification::Cancelled(_) => 0,
            ServerNotification::Progress(_) => 1,
            ServerNotification::ResourceListChanged(_) => 2,
            ServerNotification::ResourceUpdated(_) => 3,
            ServerNotification::PromptListChanged(_) => 4,
            ServerNotification::ToolListChanged(_) => 5,
            ServerNotification::LoggingMessage(_) => 6,
        }
    }

    /// The raw parameters.
    pub open spec fn params(&self) -> Option<String> {
        match self {
            ServerNotification::Cancelled(p) => *p,
            ServerNotification::Progress(p) => *p,
            ServerNotification::ResourceListChanged(p) => *p,
            ServerNotification::ResourceUpdated(p) => *p,
            ServerNotification::PromptListChanged(p) => *p,
            ServerNotification::ToolListChanged(p) => *p,
            ServerNotification::LoggingMessage(p) => *p,
        }
    }

    /// The method name that selects the variant.
    pub fn method(&self) -> (m: &'static str)
        ensures
            m@ == server_notification_method(self.kind()),
    {
        match self {
            ServerNotification::Cancelled(_) => server_notification_method_name(0),
            ServerNotification::Progress(_) => server_notification_method_name(1),
            ServerNotification::ResourceListChanged(_) => server_notification_method_name(2),
            ServerNotification::ResourceUpdated(_) => server_notification_method_name(3),
            ServerNotification::PromptListChanged(_) => server_notification_method_name(4),
            ServerNotification::ToolListChanged(_) => server_notification_method_name(5),
            ServerNotification::LoggingMessage(_) => server_notification_method_name(6),
        }
    }
}

/// Result sent by the client: the variants are told apart by shape, in order; each carries
/// the raw result.
pub enum ClientResult {
    Result(String),
    CreateMessage(String),
    ListRoots(String),
}

impl ClientResult {
    /// The raw result.
    pub open spec fn raw(&self) -> String {
        match self {
            ClientResult::Result(r) => *r,
            ClientResult::CreateMessage(r) => *r,
            ClientResult::ListRoots(r) => *r,
        }
    }
}

/// Result sent by the server: the variants are told apart by shape, in order; each carries
/// the raw result.
pub enum ServerResult {
    Empty(String),
    Initialize(String),
    ListResources(String),
    ListResourceTemplates(String),
    ReadResource(String),
    ListPrompts(String),
    GetPrompt(String),
    ListTools(String),
    CallTool(String),
    Complete(String),
}

impl ServerResult {
    /// The raw result.
    pub open spec fn raw(&self) -> String {
        match self {
            ServerResult::Empty(r) => *r,
            ServerResult::Initialize(r) => *r,
            ServerResult::ListResources(r) => *r,
            ServerResult::ListResourceTemplates(r) => *r,
            ServerResult::ReadResource(r) => *r,
            ServerResult::ListPrompts(r) => *r,
            ServerResult::GetPrompt(r) => *r,
            ServerResult::ListTools(r) => *r,
            ServerResult::CallTool(r) => *r,
            ServerResult::Complete(r) => *r,
        }
    }
}

/// Why a frame is not a message.
#[derive(Clone, Copy, Debug, PartialEq, Eq, Structural)]
pub enum DecodeError {
    /// No variant of the envelope has the frame's shape.
    Shape,
    /// The frame has a shape, but not the JSON-RPC version.
    Version,
    /// A text of the frame does not lie within the buffer, or is not UTF-8.
    Text,
}

/// The top-level members of one message, as plain values; each is absent
/// where the message lacks it.
pub ghost struct FrameModel {
    pub jsonrpc: Option<Seq<char>>,
    pub id: Option<IdModel>,
    pub method: Option<Seq<char>>,
    pub params: Option<Seq<char>>,
    pub result: Option<Seq<char>>,
    pub error: Option<ErrorModel>,
}

/// The code and the message of an error member, as plain values.
pub ghost struct ErrorModel {
    pub code: int,
    pub message: Seq<char>,
}

/// A client message, as plain values: what both representations agree on.
pub ghost enum MessageModel {
    Request { jsonrpc: Seq<char>, id: IdModel, method: Seq<char>, params: Option<Seq<char>> },
    Notification { jsonrpc: Seq<char>, method: Seq<char>, params: Option<Seq<char>> },
    Error { jsonrpc: Seq<char>, id: IdModel, code: int, message: Seq<char> },
    Response { jsonrpc: Seq<char>, id: IdModel, result: Seq<char> },
}

/// The variant of the client envelope that frame `f` has the shape of, trying
/// them in order: a request (an identifier and a request method), a
/// notification (a notification method), a response (an identifier and a
/// result), an error (an identifier and an error).
pub open spec fn shape_model(f: FrameModel, jsonrpc: Seq<char>) -> Result<MessageModel, DecodeError> {
    if f.id is Some && f.method is Some && client_request_kind(f.method->0) is Some {
        Ok(MessageModel::Request { jsonrpc, id: f.id->0, method: f.method->0, params: f.params })
    } else if f.method is Some && client_notification_kind(f.method->0) is Some {
        Ok(MessageModel::Notification { jsonrpc, method: f.method->0, params: f.params })
    } else if f.id is Some && f.result is Some {
        Ok(MessageModel::Response { jsonrpc, id: f.id->0, result: f.result->0 })
    } else if f.id is Some && f.error is Some {
        Ok(
            MessageModel::Error {
                jsonrpc,
                id: f.id->0,
                code: f.error->0.code,
                message: f.error->0.message,
            },
        )
    } else {
        Err(DecodeError::Shape)
    }
}

/// The client message that frame `f` decodes to: every variant needs the
/// version member, and a frame of some shape is rejected unless it carries
/// the JSON-RPC version.
pub open spec fn decode_model(f: FrameModel) -> Result<MessageModel, DecodeError> {
    match f.jsonrpc {
        None => Err(DecodeError::Shape),
        Some(v) => match shape_model(f, v) {
            Ok(m) => if v == JSONRPC_VERSION@ {
                Ok(m)
            } else {
                Err(DecodeError::Version)
            },
            Err(e) => Err(e),
        },
    }
}

/// An optional owned text, as plain values.
pub open spec fn opt_text(s: Option<String>) -> Option<Seq<char>> {
    match s {
        Some(t) => Some(t@),
        None => None,
    }
}

/// The code and message of an error member.
pub struct ErrorFrame {
    pub code: i64,
    pub message: String,
}

/// The top-level members of one message, with owned text.
pub struct Frame {
    pub jsonrpc: Option<String>,
    pub id: Option<RequestId>,
    pub method: Option<String>,
    pub params: Option<String>,
    pub result: Option<String>,
    pub error: Option<ErrorFrame>,
}

impl View for Frame {
    type V = FrameModel;

    open spec fn view(&self) -> FrameModel {
        FrameModel {
            jsonrpc: opt_text(self.jsonrpc),
            id: match self.id {
                Some(i) => Some(i@),
                None => None,
            },
            method: opt_text(self.method),
            params: opt_text(self.params),
            result: opt_text(self.result),
            error: match self.error {
                Some(e) => Some(ErrorModel { code: e.code as int, message: e.message@ }),
                None => None,
            },
        }
    }
}

/// Client message `m`, as plain values.
pub open spec fn client_message_model(m: ClientMessage) -> MessageModel {
    match m {
        Message::Request { jsonrpc, id, request } => MessageModel::Request {
            jsonrpc: jsonrpc@,
            id: id@,
            method: client_request_method(request.kind()),
            params: opt_text(request.params()),
        },
        Message::Notification { jsonrpc, notification } => MessageModel::Notification {
            jsonrpc: jsonrpc@,
            method: client_notification_method(notification.kind()),
            params: opt_text(notification.params()),
        },
        Message::Error(e) => MessageModel::Error {
            jsonrpc: e.jsonrpc@,
            id: e.id@,
            code: e.code as int,
            message: e.message@,
        },
        Message::Response { jsonrpc, id, result } => MessageModel::Response {
            jsonrpc: jsonrpc@,
            id: id@,
            result: result.raw()@,
        },
    }
}

/// The outcome of decoding, as plain values.
pub open spec fn decoded_model(r: Result<ClientMessage, DecodeError>) -> Result<MessageModel, DecodeError> {
    match r {
        Ok(m) => Ok(client_message_model(m)),
        Err(e) => Err(e),
    }
}

/// A copy of an optional owned text.
fn copy_opt(s: &Option<String>) -> (r: Option<String>)
    ensures
        opt_text(r) == opt_text(*s),
{
    match s {
        Some(t) => Some(t.clone()),
        None => None,
    }
}

/// The variant of the client envelope that `frame` has the shape of, with
/// `jsonrpc` as its version member.
fn shape_client(frame: &Frame, jsonrpc: &String) -> (r: Result<ClientMessage, DecodeError>)
    ensures
        decoded_model(r) == shape_model(frame@, jsonrpc@),
{
    if let (Some(id), Some(m)) = (&frame.id, &frame.method) {
        if let Some(k) = find_client_request(m.as_str()) {
            let request = ClientRequest::from_kind(k, copy_opt(&frame.params));
            return Ok(Message::Request { jsonrpc: jsonrpc.clone(), id: id.copy(), request });
        }
    }
    if let Some(m) = &frame.method {
        if let Some(k) = find_client_notification(m.as_str()) {
            let notification = ClientNotification::from_kind(k, copy_opt(&frame.params));
            return Ok(Message::Notification { jsonrpc: jsonrpc.clone(), notification });
        }
    }
    if let (Some(id), Some(res)) = (&frame.id, &frame.result) {
        let result = ClientResult::Result(res.clone());
        return Ok(Message::Response { jsonrpc: jsonrpc.clone(), id: id.copy(), result });
    }
    if let (Some(id), Some(e)) = (&frame.id, &frame.error) {
        return Ok(
            Message::Error(
                JsonrpcError {
                    jsonrpc: jsonrpc.clone(),
                    id: id.copy(),
                    code: e.code,
                    message: e.message.clone(),
                },
            ),
        );
    }
    Err(DecodeError::Shape)
}

/// Decodes the client message that `frame` holds, into the owned
/// representation.
pub fn decode_client(frame: &Frame) -> (r: Result<ClientMessage, DecodeError>)
    ensures
        decoded_model(r) == decode_model(frame@),
{
    let jsonrpc = match &frame.jsonrpc {
        Some(v) => v,
        None => return Err(DecodeError::Shape),
    };
    match shape_client(frame, jsonrpc) {
        Ok(m) => if same_text(jsonrpc.as_str(), JSONRPC_VERSION) {
            Ok(m)
        } else {
            Err(DecodeError::Version)
        },
        Err(e) => Err(e),
    }
}

} // verus!
