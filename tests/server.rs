use mcp::schema::zerocopy::{ClientMessage, ClientNotification, ClientRequest, Message, RequestId, ServerResult};
use mcp::server::{handle, reply_to, respond_to, Reply};
use mcp::text::TextView;

#[test]
fn responds_with_the_request_version_and_id() {
    let v = TextView { start: 0, end: 3 };
    let r = TextView { start: 5, end: 7 };
    match respond_to(v, RequestId::Number(4), ServerResult::Empty(r)) {
        Message::Response { jsonrpc, id: RequestId::Number(4), result: ServerResult::Empty(x) } => {
            assert_eq!(jsonrpc, v);
            assert_eq!(x, r);
        }
        _ => panic!("expected a response"),
    }
}

#[test]
fn replies_by_request_kind() {
    assert_eq!(reply_to(&ClientRequest::Initialize(None)), Reply::Initialize);
    assert_eq!(reply_to(&ClientRequest::Ping(None)), Reply::Empty);
    assert_eq!(reply_to(&ClientRequest::ListResources(None)), Reply::Resources);
    assert_eq!(reply_to(&ClientRequest::ListPrompts(None)), Reply::Prompts);
    assert_eq!(reply_to(&ClientRequest::ListTools(None)), Reply::Tools);
    assert_eq!(reply_to(&ClientRequest::CallTool(None)), Reply::Unsupported);
    assert_eq!(reply_to(&ClientRequest::Complete(None)), Reply::Unsupported);
}

#[test]
fn only_requests_get_replies() {
    let v = TextView { start: 0, end: 3 };
    let request: ClientMessage = Message::Request { jsonrpc: v, id: RequestId::Number(1), request: ClientRequest::Ping(None) };
    assert_eq!(handle(&request), Some(Reply::Empty));
    let note: ClientMessage = Message::Notification { jsonrpc: v, notification: ClientNotification::Initialized(None) };
    assert_eq!(handle(&note), None);
}
