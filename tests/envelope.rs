use mcp::schema::zerocopy::{self, ClientEnvelope};
use mcp::schema::{
    decode_client, validate_jsonrpc_error, validate_jsonrpc_version, ClientNotification,
    ClientRequest, ClientResult, DecodeError, ErrorFrame, Frame, JsonrpcError, Message, RequestId,
    ServerNotification, ServerRequest, JSONRPC_VERSION, VERSION,
};
use mcp::text::TextView;

fn s(t: &str) -> Option<String> {
    Some(t.to_string())
}

fn frame() -> Frame {
    Frame { jsonrpc: None, id: None, method: None, params: None, result: None, error: None }
}

/// The view of the first occurrence of `needle` in `buf`.
fn view_of(buf: &[u8], needle: &str) -> TextView {
    let n = needle.as_bytes();
    let start = buf.windows(n.len()).position(|w| w == n).expect("needle in buffer");
    TextView { start, end: start + n.len() }
}

#[test]
fn decodes_a_request() {
    let f = Frame {
        jsonrpc: s("2.0"),
        id: Some(RequestId::Number(1)),
        method: s("initialize"),
        params: s("{\"protocolVersion\":\"2024-11-05\"}"),
        ..frame()
    };
    match decode_client(&f).unwrap() {
        Message::Request { jsonrpc, id: RequestId::Number(1), request: ClientRequest::Initialize(Some(p)) } => {
            assert_eq!(jsonrpc, "2.0");
            assert_eq!(p, "{\"protocolVersion\":\"2024-11-05\"}");
        }
        _ => panic!("expected an initialize request"),
    }
}

#[test]
fn decodes_each_request_method() {
    let methods = [
        "initialize", "ping", "resources/list", "resources/templates/list", "resources/read",
        "resources/subscribe", "resources/unsubscribe", "prompts/list", "prompts/get",
        "tools/list", "tools/call", "logging/setlevel", "completion/complete",
    ];
    for m in methods {
        let f = Frame { jsonrpc: s("2.0"), id: Some(RequestId::Number(3)), method: s(m), ..frame() };
        match decode_client(&f).unwrap() {
            Message::Request { request, .. } => assert_eq!(request.method(), m),
            _ => panic!("expected a request"),
        }
    }
}

#[test]
fn decodes_a_notification_even_with_an_id() {
    let f = Frame { jsonrpc: s("2.0"), method: s("notifications/initialized"), ..frame() };
    assert!(matches!(
        decode_client(&f).unwrap(),
        Message::Notification { notification: ClientNotification::Initialized(None), .. }
    ));
    let g = Frame {
        jsonrpc: s("2.0"),
        id: Some(RequestId::Text("x".to_string())),
        method: s("notifications/cancelled"),
        ..frame()
    };
    assert!(matches!(
        decode_client(&g).unwrap(),
        Message::Notification { notification: ClientNotification::Cancelled(None), .. }
    ));
}

#[test]
fn decodes_response_before_error() {
    let f = Frame {
        jsonrpc: s("2.0"),
        id: Some(RequestId::Text("a".to_string())),
        result: s("{}"),
        error: Some(ErrorFrame { code: -1, message: "bad".to_string() }),
        ..frame()
    };
    match decode_client(&f).unwrap() {
        Message::Response { id: RequestId::Text(i), result: ClientResult::Result(r), .. } => {
            assert_eq!(i, "a");
            assert_eq!(r, "{}");
        }
        _ => panic!("expected a response"),
    }
}

#[test]
fn decodes_an_error() {
    let f = Frame {
        jsonrpc: s("2.0"),
        id: Some(RequestId::Number(9)),
        error: Some(ErrorFrame { code: -32601, message: "Method not found".to_string() }),
        ..frame()
    };
    match decode_client(&f).unwrap() {
        Message::Error(JsonrpcError { code, message, .. }) => {
            assert_eq!(code, -32601);
            assert_eq!(message, "Method not found");
        }
        _ => panic!("expected an error"),
    }
}

#[test]
fn rejects_a_wrong_version() {
    let f = Frame { jsonrpc: s("1.0"), id: Some(RequestId::Number(1)), method: s("ping"), ..frame() };
    assert!(matches!(decode_client(&f), Err(DecodeError::Version)));
}

#[test]
fn rejects_unknown_shapes() {
    let missing_version = Frame { id: Some(RequestId::Number(1)), method: s("ping"), ..frame() };
    assert!(matches!(decode_client(&missing_version), Err(DecodeError::Shape)));
    let unknown = Frame { jsonrpc: s("2.0"), id: Some(RequestId::Number(1)), method: s("nope"), ..frame() };
    assert!(matches!(decode_client(&unknown), Err(DecodeError::Shape)));
    let no_id = Frame { jsonrpc: s("2.0"), result: s("{}"), ..frame() };
    assert!(matches!(decode_client(&no_id), Err(DecodeError::Shape)));
}

#[test]
fn validates_the_version() {
    assert!(validate_jsonrpc_version("2.0").is_ok());
    assert!(validate_jsonrpc_version("2.1").is_err());
    assert!(validate_jsonrpc_version("").is_err());
    let e = JsonrpcError { jsonrpc: "1.0".to_string(), id: RequestId::Number(0), code: 1, message: String::new() };
    assert!(validate_jsonrpc_error(&e).is_err());
    assert_eq!(JSONRPC_VERSION, "2.0");
    assert_eq!(VERSION, "2024-11-05");
}

#[test]
fn server_method_names() {
    assert_eq!(ServerRequest::CreateMessage(None).method(), "sampling/createMessage");
    assert_eq!(ServerRequest::ListRoots(None).method(), "roots/list");
    assert_eq!(ServerNotification::LoggingMessage(None).method(), "notifications/message");
    assert_eq!(
        ServerNotification::ResourceListChanged(None).method(),
        "notifications/resources/list_changed"
    );
}

const LINE: &str = r#"{"jsonrpc":"2.0","id":"r-7","method":"tools/call","params":{"name":"écho"}}"#;

fn view_frame(buf: &[u8]) -> zerocopy::Frame {
    zerocopy::Frame {
        jsonrpc: Some(view_of(buf, "2.0")),
        id: Some(zerocopy::RequestId::Text(view_of(buf, "r-7"))),
        method: Some(view_of(buf, "tools/call")),
        params: Some(view_of(buf, "{\"name\":\"écho\"}")),
        result: None,
        error: None,
    }
}

#[test]
fn view_decoding_borrows_from_the_buffer() {
    let buf = LINE.as_bytes();
    let f = view_frame(buf);
    match zerocopy::decode_client(buf, &f).unwrap() {
        zerocopy::Message::Request {
            jsonrpc,
            id: zerocopy::RequestId::Text(id),
            request: zerocopy::ClientRequest::CallTool(Some(p)),
        } => {
            assert_eq!(jsonrpc.read(buf), Some("2.0"));
            assert_eq!(id.read(buf), Some("r-7"));
            assert_eq!(p.read(buf), Some("{\"name\":\"écho\"}"));
        }
        _ => panic!("expected a tool call"),
    }
}

#[test]
fn owned_and_view_decoding_agree() {
    let buf = LINE.as_bytes();
    let f = view_frame(buf);
    let copy = f.to_owned(buf);
    let by_view = zerocopy::decode_client(buf, &f).unwrap();
    let by_owned = decode_client(&copy).unwrap();
    match (by_view, by_owned) {
        (
            zerocopy::Message::Request { jsonrpc: vj, id: zerocopy::RequestId::Text(vi), request: vr },
            Message::Request { jsonrpc: oj, id: RequestId::Text(oi), request: or },
        ) => {
            assert_eq!(vj.read(buf).unwrap(), oj);
            assert_eq!(vi.read(buf).unwrap(), oi);
            assert_eq!(vr.method(), or.method());
            match (vr, or) {
                (zerocopy::ClientRequest::CallTool(Some(vp)), ClientRequest::CallTool(Some(op))) => {
                    assert_eq!(vp.read(buf).unwrap(), op)
                }
                _ => panic!("expected tool calls"),
            }
        }
        _ => panic!("expected requests"),
    }
}

#[test]
fn view_decoding_rejects_bad_views() {
    let buf = LINE.as_bytes();
    let mut f = view_frame(buf);
    f.params = Some(TextView { start: 10, end: buf.len() + 1 });
    assert!(matches!(zerocopy::decode_client(buf, &f), Err(DecodeError::Text)));
    let bytes: Vec<u8> = vec![b'2', b'.', b'0', 0xff];
    let g = zerocopy::Frame {
        jsonrpc: Some(TextView { start: 0, end: 3 }),
        id: Some(zerocopy::RequestId::Number(1)),
        method: None,
        params: None,
        result: Some(TextView { start: 3, end: 4 }),
        error: None,
    };
    assert!(matches!(zerocopy::decode_client(&bytes, &g), Err(DecodeError::Text)));
}

#[test]
fn envelope_binds_message_and_buffer() {
    let buf = LINE.as_bytes().to_vec();
    let f = view_frame(&buf);
    let env = ClientEnvelope::decode(buf.clone(), &f).unwrap();
    let moved = env;
    assert_eq!(moved.buffer(), LINE.as_bytes());
    match moved.message() {
        zerocopy::Message::Request { id: zerocopy::RequestId::Text(id), .. } => {
            assert_eq!(moved.text(*id), Some("r-7"))
        }
        _ => panic!("expected a request"),
    }
    let mut bad = f;
    bad.jsonrpc = Some(view_of(&buf, "r-7"));
    assert!(matches!(ClientEnvelope::decode(buf, &bad), Err(DecodeError::Version)));
}

#[test]
fn view_validation_agrees_with_owned_validation() {
    let buf = br#"{"jsonrpc":"2.0","bad":"1.0"}"#;
    let good = zerocopy::JsonrpcError {
        jsonrpc: view_of(buf, "2.0"),
        id: zerocopy::RequestId::Number(1),
        code: -1,
        message: view_of(buf, "bad"),
    };
    assert!(zerocopy::validate_jsonrpc_error(buf, &good).is_ok());
    let wrong = zerocopy::JsonrpcError { jsonrpc: view_of(buf, "1.0"), ..good };
    assert!(zerocopy::validate_jsonrpc_error(buf, &wrong).is_err());
    let outside = zerocopy::JsonrpcError { jsonrpc: TextView { start: 40, end: 43 }, ..good };
    assert!(zerocopy::validate_jsonrpc_error(buf, &outside).is_err());
    let owned_good = JsonrpcError { jsonrpc: "2.0".to_string(), id: RequestId::Number(1), code: -1, message: "bad".to_string() };
    let owned_wrong = JsonrpcError { jsonrpc: "1.0".to_string(), ..owned_good };
    assert!(validate_jsonrpc_error(&owned_wrong).is_err());
}
