//! The protocol's message envelope in its view representation: every text is
//! a [`TextView`] of the buffer that the message was read into, and a decoded
//! message stays bound to that buffer in a [`ClientEnvelope`].

use vstd::prelude::*;
use crate::methods::{
    client_notification_method, client_notification_method_name, client_request_method,
    client_request_method_name, find_client_notification, find_client_request,
    server_notification_method, server_notification_method_name, server_request_method,
    server_request_method_name,
};
use crate::schema::{
    self as owned_schema, decode_model, DecodeError, ErrorModel, FrameModel, IdModel,
    MessageModel, JSONRPC_VERSION,
};
use crate::text::{owned, same_text, TextView};

verus! {

/// A request identifier: a number, or a text of the buffer.
#[derive(Clone, Copy, Debug, PartialEq, Eq)]
pub enum RequestId {
    Number(i64),
    Text(TextView),
}

impl RequestId {
    /// The identifier in `buf`, as plain values.
    pub open spec fn model(self, buf: Seq<u8>) -> IdModel {
        match self {
            RequestId::Number(n) => IdModel::Number(n as int),
            RequestId::Text(t) => IdModel::Text(t.text(buf)),
        }
    }

    /// Whether the identifier's text, if any, lies within `buf` as UTF-8.
    pub open spec fn valid(self, buf: Seq<u8>) -> bool {
        match self {
            RequestId::Number(_) => true,
            RequestId::Text(t) => t.valid(buf),
        }
    }
}

/// A JSON-RPC error reply to the request `id`.
pub struct JsonrpcError {
    pub jsonrpc: TextView,
    pub id: RequestId,
    pub code: i64,
    pub message: TextView,
}

/// Anything sent from one side: a request, a notification, an error or a
/// response.
pub enum Message<RQ, RS, N> {
    Request { jsonrpc: TextView, id: RequestId, request: RQ },
    Notification { jsonrpc: TextView, notification: N },
    Error(JsonrpcError),
    Response { jsonrpc: TextView, id: RequestId, result: RS },
}

/// A message sent by a client.
pub type ClientMessage = Message<ClientRequest, ClientResult, ClientNotification>;

/// A message sent by a server.
pub type ServerMessage = Message<ServerRequest, ServerResult, ServerNotification>;

/// Request made by the client: the method selects the variant, which carries the raw
/// parameters, if any.
pub enum ClientRequest {
    Initialize(Option<TextView>),
    Ping(Option<TextView>),
    ListResources(Option<TextView>),
    ListResourceTemplates(Option<TextView>),
    ReadResource(Option<TextView>),
    Subscribe(Option<TextView>),
    Unsubscribe(Option<TextView>),
    ListPrompts(Option<TextView>),
    GetPrompt(Option<TextView>),
    ListTools(Option<TextView>),
    CallTool(Option<TextView>),
    SetLevel(Option<TextView>),
    Complete(Option<TextView>),
}

impl ClientRequest {
    /// The index of the variant.
    pub open spec fn kind(&self) -> int {
        match self {
            ClientRequest::Initialize(_) => 0,
            ClientRequest::Ping(_) => 1,
            ClientRequest::ListResources(_) => 2,
            ClientRequest::ListResourceTemplates(_) => 3,
            ClientRequest::ReadResource(_) => 4,
            ClientRequest::Subscribe(_) => 5,
            ClientRequest::Unsubscribe(_) => 6,
            ClientRequest::ListPrompts(_) => 7,
            ClientRequest::GetPrompt(_) => 8,
            ClientRequest::ListTools(_) => 9,
            ClientRequest::CallTool(_) => 10,
            ClientRequest::SetLevel(_) => 11,
            ClientRequest::Complete(_) => 12,
        }
    }

    /// The raw parameters.
    pub open spec fn params(&self) -> Option<TextView> {
        match self {
            ClientRequest::Initialize(p) => *p,
            ClientRequest::Ping(p) => *p,
            ClientRequest::ListResources(p) => *p,
            ClientRequest::ListResourceTemplates(p) => *p,
            ClientRequest::ReadResource(p) => *p,
            ClientRequest::Subscribe(p) => *p,
            ClientRequest::Unsubscribe(p) => *p,
            ClientRequest::ListPrompts(p) => *p,
            ClientRequest::GetPrompt(p) => *p,
            ClientRequest::ListTools(p) => *p,
            ClientRequest::CallTool(p) => *p,
            ClientRequest::SetLevel(p) => *p,
            ClientRequest::Complete(p) => *p,
        }
    }

    /// The method name that selects the variant.
    pub fn method(&self) -> (m: &'static str)
        ensures
            m@ == client_request_method(self.kind()),
    {
        match self {
            ClientRequest::Initialize(_) => client_request_method_name(0),
            ClientRequest::Ping(_) => client_request_method_name(1),
            ClientRequest::ListResources(_) => client_request_method_name(2),
            ClientRequest::ListResourceTemplates(_) => client_request_method_name(3),
            ClientRequest::ReadResource(_) => client_request_method_name(4),
            ClientRequest::Subscribe(_) => client_request_method_name(5),
            ClientRequest::Unsubscribe(_) => client_request_method_name(6),
            ClientRequest::ListPrompts(_) => client_request_method_name(7),
            ClientRequest::GetPrompt(_) => client_request_method_name(8),
            ClientRequest::ListTools(_) => client_request_method_name(9),
            ClientRequest::CallTool(_) => client_request_method_name(10),
            ClientRequest::SetLevel(_) => client_request_method_name(11),
            ClientRequest::Complete(_) => client_request_method_name(12),
        }
    }

    /// The variant of index `k`, with the parameters `params`.
    pub fn from_kind(k: usize, params: Option<TextView>) -> (r: Self)
        requires
            k < 13,
        ensures
            r.kind() == k,
            r.params() == params,
    {
        match k {
            0 => ClientRequest::Initialize(params),
            1 => ClientRequest::Ping(params),
            2 => ClientRequest::ListResources(params),
            3 => ClientRequest::ListResourceTemplates(params),
            4 => ClientRequest::ReadResource(params),
            5 => ClientRequest::Subscribe(params),
            6 => ClientRequest::Unsubscribe(params),
            7 => ClientRequest::ListPrompts(params),
            8 => ClientRequest::GetPrompt(params),
            9 => ClientRequest::ListTools(params),
            10 => ClientRequest::CallTool(params),
            11 => ClientRequest::SetLevel(params),
            _ => ClientRequest::Complete(params),
        }
    }
}

/// Notification sent by the client: the method selects the variant, which carries the raw
/// parameters, if any.
pub enum ClientNotification {
    Cancelled(Option<TextView>),
    Initialized(Option<TextView>),
    Progress(Option<TextView>),
    RootsListChanged(Option<TextView>),
}

impl ClientNotification {
    /// The index of the variant.
    pub open spec fn kind(&self) -> int {
        match self {
            ClientNotification::Cancelled(_) => 0,
            ClientNotification::Initialized(_) => 1,
            ClientNotification::Progress(_) => 2,
            ClientNotification::RootsListChanged(_) => 3,
        }
    }

    /// The raw parameters.
    pub open spec fn params(&self) -> Option<TextView> {
        match self {
            ClientNotification::Cancelled(p) => *p,
            ClientNotification::Initialized(p) => *p,
            ClientNotification::Progress(p) => *p,
            ClientNotification::RootsListChanged(p) => *p,
        }
    }

    /// The method name that selects the variant.
    pub fn method(&self) -> (m: &'static str)
        ensures
            m@ == client_notification_method(self.kind()),
    {
        match self {
            ClientNotification::Cancelled(_) => client_notification_method_name(0),
            ClientNotification::Initialized(_) => client_notification_method_name(1),
            ClientNotification::Progress(_) => client_notification_method_name(2),
            ClientNotification::RootsListChanged(_) => client_notification_method_name(3),
        }
    }

    /// The variant of index `k`, with the parameters `params`.
    pub fn from_kind(k: usize, params: Option<TextView>) -> (r: Self)
        requires
            k < 4,
        ensures
            r.kind() == k,
            r.params() == params,
    {
        match k {
            0 => ClientNotification::Cancelled(params),
            1 => ClientNotification::Initialized(params),
            2 => ClientNotification::Progress(params),
            _ => ClientNotification::RootsListChanged(params),
        }
    }
}

/// Request made by the server: the method selects the variant, which carries the raw
/// parameters, if any.
pub enum ServerRequest {
    Ping(Option<TextView>),
    CreateMessage(Option<TextView>),
    ListRoots(Option<TextView>),
}

impl ServerRequest {
    /// The index of the variant.
    pub open spec fn kind(&self) -> int {
        match self {
            ServerRequest::Ping(_) => 0,
            ServerRequest::CreateMessage(_) => 1,
            ServerRequest::ListRoots(_) => 2,
        }
    }

    /// The raw parameters.
    pub open spec fn params(&self) -> Option<TextView> {
        match self {
            ServerRequest::Ping(p) => *p,
            ServerRequest::CreateMessage(p) => *p,
            ServerRequest::ListRoots(p) => *p,
        }
    }

    /// The method name that selects the variant.
    pub fn method(&self) -> (m: &'static str)
        ensures
            m@ == server_request_method(self.kind()),
    {
        match self {
            ServerRequest::Ping(_) => server_request_method_name(0),
            ServerRequest::CreateMessage(_) => server_request_method_name(1),
            ServerRequest::ListRoots(_) => server_request_method_name(2),
        }
    }
}

/// Notification sent by the server: the method selects the variant, which carries the raw
/// parameters, if any.
pub enum ServerNotification {
    Cancelled(Option<TextView>),
    Progress(Option<TextView>),
    ResourceListChanged(Option<TextView>),
    ResourceUpdated(Option<TextView>),
    PromptListChanged(Option<TextView>),
    ToolListChanged(Option<TextView>),
    LoggingMessage(Option<TextView>),
}

impl ServerNotification {
    /// The index of the variant.
    pub open spec fn kind(&self) -> int {
        match self {
            ServerNotification::Cancelled(_) => 0,
            ServerNotification::Progress(_) => 1,
            ServerNotification::ResourceListChanged(_) => 2,
            ServerNotification::ResourceUpdated(_) => 3,
            ServerNotification::PromptListChanged(_) => 4,
            ServerNotification::ToolListChanged(_) => 5,
            ServerNotification::LoggingMessage(_) => 6,
        }
    }

    /// The raw parameters.
    pub open spec fn params(&self) -> Option<TextView> {
        match self {
            ServerNotification::Cancelled(p) => *p,
            ServerNotification::Progress(p) => *p,
            ServerNotification::ResourceListChanged(p) => *p,
            ServerNotification::ResourceUpdated(p) => *p,
            ServerNotification::PromptListChanged(p) => *p,
            ServerNotification::ToolListChanged(p) => *p,
            ServerNotification::LoggingMessage(p) => *p,
        }
    }

    /// The method name that selects the variant.
    pub fn method(&self) -> (m: &'static str)
        ensures
            m@ == server_notification_method(self.kind()),
    {
        match self {
            ServerNotification::Cancelled(_) => server_notification_method_name(0),
            ServerNotification::Progress(_) => server_notification_method_name(1),
            ServerNotification::ResourceListChanged(_) => server_notification_method_name(2),
            ServerNotification::ResourceUpdated(_) => server_notification_method_name(3),
            ServerNotification::PromptListChanged(_) => server_notification_method_name(4),
            ServerNotification::ToolListChanged(_) => server_notification_method_name(5),
            ServerNotification::LoggingMessage(_) => server_notification_method_name(6),
        }
    }
}

/// Result sent by the client: the variants are told apart by shape, in order; each carries
/// the raw result.
pub enum ClientResult {
    Result(TextView),
    CreateMessage(TextView),
    ListRoots(TextView),
}

impl ClientResult {
    /// The raw result.
    pub open spec fn raw(&self) -> TextView {
        match self {
            ClientResult::Result(r) => *r,
            ClientResult::CreateMessage(r) => *r,
            ClientResult::ListRoots(r) => *r,
        }
    }
}

/// Result sent by the server: the variants are told apart by shape, in order; each carries
/// the raw result.
pub enum ServerResult {
    Empty(TextView),
    Initialize(TextView),
    ListResources(TextView),
    ListResourceTemplates(TextView),
    ReadResource(TextView),
    ListPrompts(TextView),
    GetPrompt(TextView),
    ListTools(TextView),
    CallTool(TextView),
    Complete(TextView),
}

impl ServerResult {
    /// The raw result.
    pub open spec fn raw(&self) -> TextView {
        match self {
            ServerResult::Empty(r) => *r,
            ServerResult::Initialize(r) => *r,
            ServerResult::ListResources(r) => *r,
            ServerResult::ListResourceTemplates(r) => *r,
            ServerResult::ReadResource(r) => *r,
            ServerResult::ListPrompts(r) => *r,
            ServerResult::GetPrompt(r) => *r,
            ServerResult::ListTools(r) => *r,
            ServerResult::CallTool(r) => *r,
            ServerResult::Complete(r) => *r,
        }
    }
}

/// An optional view of `buf`, as plain values.
pub open spec fn opt_text(v: Option<TextView>, buf: Seq<u8>) -> Option<Seq<char>> {
    match v {
        Some(t) => Some(t.text(buf)),
        None => None,
    }
}

/// Whether an optional view, if present, lies within `buf` as UTF-8.
pub open spec fn opt_valid(v: Option<TextView>, buf: Seq<u8>) -> bool {
    match v {
        Some(t) => t.valid(buf),
        None => true,
    }
}

/// The code and message of an error member.
#[derive(Clone, Copy, Debug, PartialEq, Eq)]
pub struct ErrorFrame {
    pub code: i64,
    pub message: TextView,
}

/// The top-level members of one message, as views of its buffer.
#[derive(Clone, Copy, Debug, PartialEq, Eq)]
pub struct Frame {
    pub jsonrpc: Option<TextView>,
    pub id: Option<RequestId>,
    pub method: Option<TextView>,
    pub params: Option<TextView>,
    pub result: Option<TextView>,
    pub error: Option<ErrorFrame>,
}

impl Frame {
    /// Whether every view of the frame lies within `buf` as UTF-8.
    pub open spec fn valid(self, buf: Seq<u8>) -> bool {
        &&& opt_valid(self.jsonrpc, buf)
        &&& (self.id matches Some(i) ==> i.valid(buf))
        &&& opt_valid(self.method, buf)
        &&& opt_valid(self.params, buf)
        &&& opt_valid(self.result, buf)
        &&& (self.error matches Some(e) ==> e.message.valid(buf))
    }

    /// The frame in `buf`, as plain values.
    pub open spec fn model(self, buf: Seq<u8>) -> FrameModel {
        FrameModel {
            jsonrpc: opt_text(self.jsonrpc, buf),
            id: match self.id {
                Some(i) => Some(i.model(buf)),
                None => None,
            },
            method: opt_text(self.method, buf),
            params: opt_text(self.params, buf),
            result: opt_text(self.result, buf),
            error: match self.error {
                Some(e) => Some(ErrorModel { code: e.code as int, message: e.message.text(buf) }),
                None => None,
            },
        }
    }

    /// Whether every view of the frame lies within `buf` as UTF-8.
    pub fn check(&self, buf: &[u8]) -> (ok: bool)
        ensures
            ok == self.valid(buf@),
    {
        let id_ok = match self.id {
            Some(RequestId::Text(t)) => t.read(buf).is_some(),
            _ => true,
        };
        let error_ok = match self.error {
            Some(e) => e.message.read(buf).is_some(),
            None => true,
        };
        id_ok && error_ok && check_opt(self.jsonrpc, buf) && check_opt(self.method, buf)
            && check_opt(self.params, buf) && check_opt(self.result, buf)
    }

    /// The same frame with owned text: each view of `buf` copied out.
    pub fn to_owned(&self, buf: &[u8]) -> (r: owned_schema::Frame)
        requires
            self.valid(buf@),
        ensures
            r@ == self.model(buf@),
    {
        let id = match self.id {
            Some(RequestId::Number(n)) => Some(owned_schema::RequestId::Number(n)),
            Some(RequestId::Text(t)) => Some(owned_schema::RequestId::Text(copy_text(t, buf))),
            None => None,
        };
        let error = match self.error {
            Some(e) => Some(
                owned_schema::ErrorFrame { code: e.code, message: copy_text(e.message, buf) },
            ),
            None => None,
        };
        owned_schema::Frame {
            jsonrpc: copy_opt(self.jsonrpc, buf),
            id,
            method: copy_opt(self.method, buf),
            params: copy_opt(self.params, buf),
            result: copy_opt(self.result, buf),
            error,
        }
    }
}

/// Whether an optional view, if present, lies within `buf` as UTF-8.
fn check_opt(v: Option<TextView>, buf: &[u8]) -> (ok: bool)
    ensures
        ok == opt_valid(v, buf@),
{
    match v {
        Some(t) => t.read(buf).is_some(),
        None => true,
    }
}

/// The text of view `t` of `buf`, copied out.
fn copy_text(t: TextView, buf: &[u8]) -> (r: String)
    requires
        t.valid(buf@),
    ensures
        r@ == t.text(buf@),
{
    match t.read(buf) {
        Some(s) => owned(s),
        None => String::new(),
    }
}

/// The text of an optional view of `buf`, copied out.
fn copy_opt(v: Option<TextView>, buf: &[u8]) -> (r: Option<String>)
    requires
        opt_valid(v, buf@),
    ensures
        owned_schema::opt_text(r) == opt_text(v, buf@),
{
    match v {
        Some(t) => Some(copy_text(t, buf)),
        None => None,
    }
}

/// Client message `m` in `buf`, as plain values.
pub open spec fn client_message_model(m: ClientMessage, buf: Seq<u8>) -> MessageModel {
    match m {
        Message::Request { jsonrpc, id, request } => MessageModel::Request {
            jsonrpc: jsonrpc.text(buf),
            id: id.model(buf),
            method: client_request_method(request.kind()),
            params: opt_text(request.params(), buf),
        },
        Message::Notification { jsonrpc, notification } => MessageModel::Notification {
            jsonrpc: jsonrpc.text(buf),
            method: client_notification_method(notification.kind()),
            params: opt_text(notification.params(), buf),
        },
        Message::Error(e) => MessageModel::Error {
            jsonrpc: e.jsonrpc.text(buf),
            id: e.id.model(buf),
            code: e.code as int,
            message: e.message.text(buf),
        },
        Message::Response { jsonrpc, id, result } => MessageModel::Response {
            jsonrpc: jsonrpc.text(buf),
            id: id.model(buf),
            result: result.raw().text(buf),
        },
    }
}

/// Whether every view of client message `m` lies within `buf` as UTF-8.
pub open spec fn client_message_valid(m: ClientMessage, buf: Seq<u8>) -> bool {
    match m {
        Message::Request { jsonrpc, id, request } => jsonrpc.valid(buf) && id.valid(buf)
            && opt_valid(request.params(), buf),
        Message::Notification { jsonrpc, notification } => jsonrpc.valid(buf) && opt_valid(
            notification.params(),
            buf,
        ),
        Message::Error(e) => e.jsonrpc.valid(buf) && e.id.valid(buf) && e.message.valid(buf),
        Message::Response { jsonrpc, id, result } => jsonrpc.valid(buf) && id.valid(buf)
            && result.raw().valid(buf),
    }
}

/// The outcome of decoding in `buf`, as plain values.
pub open spec fn decoded_model(r: Result<ClientMessage, DecodeError>, buf: Seq<u8>) -> Result<
    MessageModel,
    DecodeError,
> {
    match r {
        Ok(m) => Ok(client_message_model(m, buf)),
        Err(e) => Err(e),
    }
}

/// The variant of the client envelope that `frame` has the shape of, with
/// `jsonrpc` as its version member.
fn shape_client(buf: &[u8], frame: &Frame, jsonrpc: TextView) -> (r: Result<
    ClientMessage,
    DecodeError,
>)
    requires
        frame.valid(buf@),
        frame.jsonrpc == Some(jsonrpc),
    ensures
        decoded_model(r, buf@) == owned_schema::shape_model(frame.model(buf@), jsonrpc.text(buf@)),
        r matches Ok(m) ==> client_message_valid(m, buf@),
{
    let method = match frame.method {
        Some(m) => m.read(buf),
        None => None,
    };
    if let (Some(id), Some(m)) = (frame.id, method) {
        if let Some(k) = find_client_request(m) {
            let request = ClientRequest::from_kind(k, frame.params);
            return Ok(Message::Request { jsonrpc, id, request });
        }
    }
    if let Some(m) = method {
        if let Some(k) = find_client_notification(m) {
            let notification = ClientNotification::from_kind(k, frame.params);
            return Ok(Message::Notification { jsonrpc, notification });
        }
    }
    if let (Some(id), Some(res)) = (frame.id, frame.result) {
        return Ok(Message::Response { jsonrpc, id, result: ClientResult::Result(res) });
    }
    if let (Some(id), Some(e)) = (frame.id, frame.error) {
        return Ok(Message::Error(JsonrpcError { jsonrpc, id, code: e.code, message: e.message }));
    }
    Err(DecodeError::Shape)
}

/// Decodes the client message that `frame` holds, as views of `buf`; a frame
/// with a view outside `buf`, or not UTF-8, is rejected.
pub fn decode_client(buf: &[u8], frame: &Frame) -> (r: Result<ClientMessage, DecodeError>)
    ensures
        frame.valid(buf@) ==> decoded_model(r, buf@) == decode_model(frame.model(buf@)),
        !frame.valid(buf@) ==> r == Err::<ClientMessage, DecodeError>(DecodeError::Text),
        r matches Ok(m) ==> client_message_valid(m, buf@),
{
    if !frame.check(buf) {
        return Err(DecodeError::Text);
    }
    let jsonrpc = match frame.jsonrpc {
        Some(v) => v,
        None => return Err(DecodeError::Shape),
    };
    match shape_client(buf, frame, jsonrpc) {
        Ok(m) => {
            let version = match jsonrpc.read(buf) {
                Some(s) => same_text(s, JSONRPC_VERSION),
                None => false,
            };
            if version {
                Ok(m)
            } else {
                Err(DecodeError::Version)
            }
        },
        Err(e) => Err(e),
    }
}

/// A client message bound to the buffer that it was decoded from: the views
/// it holds cannot be parted from their buffer, and the pair moves as one.
pub struct ClientEnvelope {
    buffer: Vec<u8>,
    message: ClientMessage,
}

impl ClientEnvelope {
    /// Whether every view of the message lies within the buffer as UTF-8.
    pub closed spec fn wf(&self) -> bool {
        client_message_valid(self.message, self.buffer@)
    }

    /// The buffer, as plain values.
    pub closed spec fn buffer_model(&self) -> Seq<u8> {
        self.buffer@
    }

    /// The message, as plain values.
    pub closed spec fn model(&self) -> MessageModel {
        client_message_model(self.message, self.buffer@)
    }

    /// Decodes the client message that `frame` holds, as views of `buffer`,
    /// and binds the two together.
    pub fn decode(buffer: Vec<u8>, frame: &Frame) -> (r: Result<ClientEnvelope, DecodeError>)
        ensures
            frame.valid(buffer@) ==> match r {
                Ok(e) => decode_model(frame.model(buffer@)) == Ok::<MessageModel, DecodeError>(
                    e.model(),
                ),
                Err(d) => decode_model(frame.model(buffer@)) == Err::<MessageModel, DecodeError>(
                    d,
                ),
            },
            !frame.valid(buffer@) ==> r matches Err(DecodeError::Text),
            r matches Ok(e) ==> e.wf() && e.buffer_model() == buffer@,
    {
        match decode_client(buffer.as_slice(), frame) {
            Ok(message) => Ok(ClientEnvelope { buffer, message }),
            Err(e) => Err(e),
        }
    }

    /// The message, as views of the buffer.
    pub fn message(&self) -> (m: &ClientMessage)
        ensures
            client_message_model(*m, self.buffer_model()) == self.model(),
    {
        &self.message
    }

    /// The buffer.
    pub fn buffer(&self) -> (b: &[u8])
        ensures
            b@ == self.buffer_model(),
    {
        self.buffer.as_slice()
    }

    /// The text of view `t` of the buffer, where it lies within the buffer as
    /// UTF-8.
    pub fn text(&self, t: TextView) -> (s: Option<&str>)
        ensures
            s is Some <==> t.valid(self.buffer_model()),
            s is Some ==> s->0@ == t.text(self.buffer_model()),
    {
        t.read(self.buffer.as_slice())
    }
}

/// Validation of a decoded error message whose views lie in `buf`: it must
/// carry the JSON-RPC version.
pub fn validate_jsonrpc_error(buf: &[u8], err: &JsonrpcError) -> (r: Result<
    (),
    serde_valid::validation::Error,
>)
    ensures
        r is Ok <==> err.jsonrpc.valid(buf@) && err.jsonrpc.text(buf@) == JSONRPC_VERSION@,
{
    match err.jsonrpc.read(buf) {
        Some(v) => owned_schema::validate_jsonrpc_version(v),
        None => Err(owned_schema::custom_error(owned("JSONRPC version must be 2.0"))),
    }
}

/// Validating an error message in the owned representation and in the view
/// representation agree: for an owned error whose version text is that of a
/// view error lying in `buf`, the two validations both pass or both fail.
pub proof fn lemma_validations_agree(
    buf: Seq<u8>,
    copy: owned_schema::JsonrpcError,
    view: JsonrpcError,
    by_owned: Result<(), serde_valid::validation::Error>,
    by_view: Result<(), serde_valid::validation::Error>,
)
    requires
        view.jsonrpc.valid(buf),
        copy.jsonrpc@ == view.jsonrpc.text(buf),
        by_owned is Ok <==> copy.jsonrpc@ == JSONRPC_VERSION@,
        by_view is Ok <==> view.jsonrpc.valid(buf) && view.jsonrpc.text(buf) == JSONRPC_VERSION@,
    ensures
        by_owned is Ok <==> by_view is Ok,
{
}

/// Decoding a message through the owned representation and through the view
/// representation gives field-wise equal values: for a frame whose views lie
/// within `buf`, and its owned copy, the two decoders' outcomes agree.
pub proof fn lemma_owned_and_view_agree(
    buf: Seq<u8>,
    view: Frame,
    copy: owned_schema::Frame,
    by_view: Result<ClientMessage, DecodeError>,
    by_owned: Result<owned_schema::ClientMessage, DecodeError>,
)
    requires
        view.valid(buf),
        copy@ == view.model(buf),
        decoded_model(by_view, buf) == decode_model(view.model(buf)),
        owned_schema::decoded_model(by_owned) == decode_model(copy@),
    ensures
        decoded_model(by_view, buf) == owned_schema::decoded_model(by_owned),
{
}

} // verus!
