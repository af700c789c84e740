use codex::json::{parse_json, JsonValue};
use codex::jsonrpc::{
    decode_message, parse_app_notification, parse_codex_event, parse_request_id, parse_u64_exec,
    reader_step, response_outcome, AppNotification, ApprovalKind, CodexEvent, Incoming, McpError,
    NotificationHook, PendingRequests, ReaderStep, RpcResponse,
};

fn json(text: &str) -> JsonValue {
    parse_json(text).expect("valid JSON")
}

fn is_str(v: &JsonValue, s: &str) -> bool {
    matches!(v, JsonValue::String(x) if x == s)
}

#[test]
fn request_ids_are_numbers_or_numeric_strings() {
    assert_eq!(parse_request_id(&json("7")), Some(7));
    assert_eq!(parse_request_id(&json("18446744073709551615")), Some(u64::MAX));
    assert_eq!(parse_request_id(&json("\"42\"")), Some(42));
    assert_eq!(parse_request_id(&json("\"+5\"")), Some(5));
    assert_eq!(parse_request_id(&json("-1")), None);
    assert_eq!(parse_request_id(&json("1.5")), None);
    assert_eq!(parse_request_id(&json("\"x1\"")), None);
    assert_eq!(parse_request_id(&json("null")), None);
    assert_eq!(parse_u64_exec(""), None);
    assert_eq!(parse_u64_exec("+"), None);
    assert_eq!(parse_u64_exec("18446744073709551616"), None);
    assert_eq!(parse_u64_exec("007"), Some(7));
}

#[test]
fn decoding_tells_responses_from_notifications() {
    match decode_message(json(r#"{"jsonrpc":"2.0","method":"codex/event","params":{"type":"error"}}"#)) {
        Some(Incoming::Notification(n)) => {
            assert_eq!(n.method, "codex/event");
            assert!(n.params.is_some());
        }
        other => panic!("expected a notification, got {other:?}"),
    }
    match decode_message(json(r#"{"id":3,"result":null}"#)) {
        Some(Incoming::Response(r)) => {
            assert_eq!(parse_request_id(&r.id), Some(3));
            assert!(r.result.is_none());
            assert!(r.error.is_none());
        }
        other => panic!("expected a response, got {other:?}"),
    }
    match decode_message(json(r#"{"id":"9","error":{"code":-32601,"message":"no such method","data":[1]}}"#)) {
        Some(Incoming::Response(r)) => {
            let e = r.error.expect("error");
            assert_eq!(e.code, -32601);
            assert_eq!(e.message, "no such method");
            assert!(e.data.is_some());
        }
        other => panic!("expected a response, got {other:?}"),
    }
    // A notification's method must be a string; a malformed error spoils the response.
    assert!(decode_message(json(r#"{"method":5}"#)).is_none());
    assert!(decode_message(json(r#"{"id":1,"error":{"code":"x","message":"m"}}"#)).is_none());
    assert!(decode_message(json(r#"{"result":1}"#)).is_none());
    assert!(decode_message(json("[1,2]")).is_none());
    // serde also reads the error struct from a three-element array.
    match decode_message(json(r#"{"id":1,"error":[-32800,"cancelled",null]}"#)) {
        Some(Incoming::Response(r)) => assert_eq!(r.error.expect("error").code, -32800),
        other => panic!("expected a response, got {other:?}"),
    }
}

#[test]
fn responses_resolve_to_result_or_error() {
    let response = |text: &str| -> RpcResponse {
        match decode_message(json(text)) {
            Some(Incoming::Response(r)) => r,
            other => panic!("expected a response, got {other:?}"),
        }
    };
    assert!(matches!(
        response_outcome(response(r#"{"id":1,"result":{"ok":true}}"#)),
        Ok(JsonValue::Object(_))
    ));
    assert!(matches!(
        response_outcome(response(r#"{"id":1,"error":{"code":-32800,"message":"cancelled"}}"#)),
        Err(McpError::Cancelled)
    ));
    match response_outcome(response(r#"{"id":1,"error":{"code":-32000,"message":"boom"}}"#)) {
        Err(McpError::Rpc { code, message, data }) => {
            assert_eq!(code, -32000);
            assert_eq!(message, "boom");
            assert!(data.is_none());
        }
        other => panic!("unexpected {other:?}"),
    }
    match response_outcome(response(r#"{"id":1}"#)) {
        Err(McpError::Transport(m)) => assert_eq!(m, "response missing result and error"),
        other => panic!("unexpected {other:?}"),
    }
}

#[test]
fn codex_events_are_parsed_from_payloads() {
    match parse_codex_event(&json(r#"{"type":"task_complete","thread_id":"t1","result":{"text":"done"}}"#)) {
        Some(CodexEvent::TaskComplete { conversation_id, result }) => {
            assert_eq!(conversation_id, "t1");
            assert!(matches!(result, JsonValue::Object(_)));
        }
        other => panic!("unexpected {other:?}"),
    }
    // The payload may sit under `msg`; the first present id key decides, even when it is not a string.
    match parse_codex_event(&json(r#"{"msg":{"type":"task_complete","threadId":5,"session_id":"s"}}"#)) {
        Some(CodexEvent::TaskComplete { conversation_id, result }) => {
            assert_eq!(conversation_id, "");
            assert!(matches!(result, JsonValue::Object(_)));
        }
        other => panic!("unexpected {other:?}"),
    }
    match parse_codex_event(&json(r#"{"type":"approval_required","kind":"EXEC","approval_id":"a1"}"#)) {
        Some(CodexEvent::ApprovalRequired(req)) => {
            assert_eq!(req.approval_id, "a1");
            assert!(matches!(req.kind, ApprovalKind::Exec));
        }
        other => panic!("unexpected {other:?}"),
    }
    match parse_codex_event(&json(r#"{"type":"approval","approval_kind":"Patch","id":"a2"}"#)) {
        Some(CodexEvent::ApprovalRequired(req)) => {
            assert_eq!(req.approval_id, "a2");
            assert!(matches!(req.kind, ApprovalKind::Unknown(ref k) if k == "patch"));
        }
        other => panic!("unexpected {other:?}"),
    }
    match parse_codex_event(&json(r#"{"type":"canceled","reason":"user"}"#)) {
        Some(CodexEvent::Cancelled { conversation_id, reason }) => {
            assert!(conversation_id.is_none());
            assert_eq!(reason.as_deref(), Some("user"));
        }
        other => panic!("unexpected {other:?}"),
    }
    match parse_codex_event(&json(r#"{"type":"error","error":"bad","data":null}"#)) {
        Some(CodexEvent::Error { message, data }) => {
            assert_eq!(message, "bad");
            assert!(matches!(data, Some(JsonValue::Null)));
        }
        other => panic!("unexpected {other:?}"),
    }
    assert!(parse_codex_event(&json(r#"{"type":"progress"}"#)).is_none());
    assert!(parse_codex_event(&json(r#"{"kind":"exec"}"#)).is_none());
}

#[test]
fn app_notifications_are_parsed_by_type() {
    match parse_app_notification("turn/completed", &json(r#"{"type":"TaskComplete","threadId":"th","turn_id":"tu"}"#)) {
        AppNotification::TaskComplete { thread_id, turn_id, result } => {
            assert_eq!(thread_id, "th");
            assert_eq!(turn_id.as_deref(), Some("tu"));
            assert!(matches!(result, JsonValue::Null));
        }
        other => panic!("unexpected {other:?}"),
    }
    // `extract_string` takes the first key whose value is a string.
    match parse_app_notification("item", &json(r#"{"type":"item","thread_id":1,"threadId":"x","item":{"id":"i"}}"#)) {
        AppNotification::Item { thread_id, turn_id, item } => {
            assert_eq!(thread_id, "x");
            assert!(turn_id.is_none());
            assert!(matches!(item, JsonValue::Object(_)));
        }
        other => panic!("unexpected {other:?}"),
    }
    match parse_app_notification("thread/status", &json(r#"{"type":"status"}"#)) {
        AppNotification::Raw { method, params } => {
            assert_eq!(method, "thread/status");
            assert!(matches!(params, JsonValue::Object(_)));
        }
        other => panic!("unexpected {other:?}"),
    }
}

#[test]
fn reader_steps_route_each_line() {
    assert!(matches!(reader_step("   ", NotificationHook::Codex), ReaderStep::Skip));
    assert!(matches!(reader_step("not json", NotificationHook::Codex), ReaderStep::NotJson));
    assert!(matches!(reader_step("[1]", NotificationHook::Codex), ReaderStep::Malformed));
    match reader_step(r#"{"id":"4","result":"ok"}"#, NotificationHook::App) {
        ReaderStep::Response { id, outcome } => {
            assert_eq!(id, Some(4));
            assert!(matches!(outcome, Ok(ref v) if is_str(v, "ok")));
        }
        other => panic!("unexpected {other:?}"),
    }
    match reader_step(
        r#"{"jsonrpc":"2.0","method":"codex/event","params":{"type":"task_complete","message":"Summary ready","turn_id":"turn-1","thread_id":"demo-thread"}}"#,
        NotificationHook::Codex,
    ) {
        ReaderStep::Codex(CodexEvent::TaskComplete { conversation_id, .. }) => assert_eq!(conversation_id, "demo-thread"),
        other => panic!("unexpected {other:?}"),
    }
    match reader_step(r#"{"method":"codex/event","params":{"type":"progress"}}"#, NotificationHook::Codex) {
        ReaderStep::Codex(CodexEvent::Raw { method, .. }) => assert_eq!(method, "codex/event"),
        other => panic!("unexpected {other:?}"),
    }
    assert!(matches!(reader_step(r#"{"method":"other"}"#, NotificationHook::Codex), ReaderStep::Ignored));
    match reader_step(r#"{"method":"thread/started"}"#, NotificationHook::App) {
        ReaderStep::App(AppNotification::Raw { method, params }) => {
            assert_eq!(method, "thread/started");
            assert!(matches!(params, JsonValue::Null));
        }
        other => panic!("unexpected {other:?}"),
    }
}

#[test]
fn pending_requests_resolve_once_and_fail_on_close() {
    let mut pending = PendingRequests::new();
    let first = pending.begin();
    let second = pending.begin();
    assert_eq!((first, second), (1, 2));
    assert!(pending.complete(first));
    assert!(!pending.complete(first));
    let third = pending.begin();
    assert_eq!(third, 3);
    let mut left = pending.close();
    left.sort();
    assert_eq!(left, vec![2, 3]);
    assert!(!pending.complete(second));
    assert!(pending.close().is_empty());
}
