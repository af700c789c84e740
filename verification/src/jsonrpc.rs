//! The JSON-RPC side of the stdio MCP and app servers: request ids, decoding of incoming
//! lines into responses and notifications, the outcome a response gives its request, the
//! parsing of `codex/event` and app-server notifications, and the table of pending requests.

use vstd::prelude::*;
use crate::json::{clone_json, jview, jview_members, m_get, member_get, parse_json, json_parse, JsonValue, JsonView};
use crate::jsonl::{opt_view, str_of};
use crate::text::{chars_of, trim, trim_chars, CharClass};
use crate::time::TimeSpan;

verus! {

/// Identifier of a JSON-RPC request.
pub type RequestId = u64;

pub open spec fn is_digit(c: char) -> bool {
    '0' <= c && c <= '9'
}

pub open spec fn all_digits(s: Seq<char>) -> bool {
    forall|i: int| 0 <= i < s.len() ==> is_digit(#[trigger] s[i])
}

/// The value of a string of decimal digits.
pub open spec fn decimal(s: Seq<char>) -> nat
    decreases s.len(),
{
    if s.len() == 0 {
        0
    } else {
        decimal(s.drop_last()) * 10 + ((s.last() as u32) - ('0' as u32)) as nat
    }
}

/// `str::parse::<u64>`: an optional `+`, then one or more decimal digits whose value fits.
pub open spec fn parse_u64(s: Seq<char>) -> Option<u64> {
    let d = if s.len() > 0 && s[0] == '+' { s.drop_first() } else { s };
    if d.len() > 0 && all_digits(d) && decimal(d) <= u64::MAX {
        Some(decimal(d) as u64)
    } else {
        None
    }
}

/// `as_u64` of a JSON number, by the text `serde_json` prints for it: a non-negative
/// integer prints as its decimal digits, any other number with a sign, a point or an
/// exponent.
pub open spec fn number_u64(t: Seq<char>) -> Option<u64> {
    if t.len() > 0 && all_digits(t) && decimal(t) <= u64::MAX {
        Some(decimal(t) as u64)
    } else {
        None
    }
}

/// A JSON number read as an `i64` (how `serde` deserializes one): a non-negative integer up
/// to `i64::MAX`, or `-` and the digits of a magnitude up to 2^63.
pub open spec fn number_i64(t: Seq<char>) -> Option<i64> {
    if t.len() > 0 && all_digits(t) && decimal(t) <= i64::MAX {
        Some(decimal(t) as i64)
    } else if t.len() > 1 && t[0] == '-' && all_digits(t.drop_first()) && decimal(t.drop_first())
        <= 0x8000_0000_0000_0000 {
        Some((0 - decimal(t.drop_first())) as i64)
    } else {
        None
    }
}

/// The value of the digits `s` when it fits in a `u64`.
fn decimal_exec(s: &[char]) -> (r: Option<u64>)
    requires
        all_digits(s@),
    ensures
        match r {
            Some(v) => v == decimal(s@),
            None => decimal(s@) > u64::MAX,
        },
{
    let mut acc: u64 = 0;
    let mut i: usize = 0;
    while i < s.len()
        invariant
            i <= s@.len(),
            all_digits(s@),
            acc == decimal(s@.take(i as int)),
        decreases s@.len() - i,
    {
        assert(s@.take(i + 1).drop_last() =~= s@.take(i as int));
        let d = (s[i] as u32 - '0' as u32) as u64;
        match acc.checked_mul(10) {
            Some(m) => match m.checked_add(d) {
                Some(n) => {
                    acc = n;
                },
                None => {
                    proof {
                        lemma_decimal_prefix_grows(s@, i as int + 1);
                    }
                    return None;
                },
            },
            None => {
                proof {
                    lemma_decimal_prefix_grows(s@, i as int + 1);
                }
                return None;
            },
        }
        i = i + 1;
    }
    assert(s@.take(s@.len() as int) =~= s@);
    Some(acc)
}

/// A number's value is at least the value of any of its prefixes.
proof fn lemma_decimal_prefix_grows(s: Seq<char>, k: int)
    requires
        0 <= k <= s.len(),
        all_digits(s),
    ensures
        decimal(s.take(k)) <= decimal(s),
    decreases s.len() - k,
{
    if k < s.len() {
        lemma_decimal_prefix_grows(s, k + 1);
        assert(s.take(k + 1).drop_last() =~= s.take(k));
    } else {
        assert(s.take(k) =~= s);
    }
}

fn all_digits_exec(s: &[char]) -> (r: bool)
    ensures
        r == all_digits(s@),
{
    let mut i: usize = 0;
    while i < s.len()
        invariant
            i <= s@.len(),
            forall|j: int| 0 <= j < i ==> is_digit(#[trigger] s@[j]),
        decreases s@.len() - i,
    {
        if !('0' <= s[i] && s[i] <= '9') {
            return false;
        }
        i = i + 1;
    }
    true
}

/// `str::parse::<u64>`.
pub fn parse_u64_exec(s: &str) -> (r: Option<u64>)
    ensures
        r == parse_u64(s@),
{
    let cs = chars_of(s);
    let d: Vec<char> = if cs.len() > 0 && cs[0] == '+' {
        let mut t: Vec<char> = Vec::new();
        let mut i: usize = 1;
        while i < cs.len()
            invariant
                1 <= i <= cs@.len(),
                t@ == cs@.subrange(1, i as int),
            decreases cs@.len() - i,
        {
            t.push(cs[i]);
            assert(t@ =~= cs@.subrange(1, i + 1));
            i = i + 1;
        }
        assert(t@ =~= cs@.drop_first());
        t
    } else {
        cs
    };
    if d.len() == 0 || !all_digits_exec(d.as_slice()) {
        return None;
    }
    decimal_exec(d.as_slice())
}

/// `as_u64` of a JSON number's text (see [`number_u64`]).
fn number_u64_exec(t: &str) -> (r: Option<u64>)
    ensures
        r == number_u64(t@),
{
    let cs = chars_of(t);
    if cs.len() == 0 || !all_digits_exec(cs.as_slice()) {
        return None;
    }
    decimal_exec(cs.as_slice())
}

/// `parse_request_id`: a numeric id, or a string holding one.
pub open spec fn request_id_of(v: JsonView) -> Option<u64> {
    match v {
        JsonView::Number(t) => number_u64(t),
        JsonView::Str(s) => parse_u64(s),
        _ => None,
    }
}

/// The id a response answers: a non-negative integer, or a string that parses as one.
pub fn parse_request_id(value: &JsonValue) -> (r: Option<RequestId>)
    ensures
        r == request_id_of(jview(*value)),
{
    match value {
        JsonValue::Number(t) => number_u64_exec(t.as_str()),
        JsonValue::String(s) => parse_u64_exec(s.as_str()),
        _ => None,
    }
}

/// `number_i64` of a JSON number's text.
fn number_i64_exec(t: &str) -> (r: Option<i64>)
    ensures
        r == number_i64(t@),
{
    let cs = chars_of(t);
    if cs.len() > 0 && all_digits_exec(cs.as_slice()) {
        return match decimal_exec(cs.as_slice()) {
            Some(v) => if v <= 0x7fff_ffff_ffff_ffff { Some(v as i64) } else { None },
            None => None,
        };
    }
    if cs.len() > 1 && cs[0] == '-' {
        let mut mag: Vec<char> = Vec::new();
        let mut i: usize = 1;
        while i < cs.len()
            invariant
                1 <= i <= cs@.len(),
                mag@ == cs@.subrange(1, i as int),
            decreases cs@.len() - i,
        {
            mag.push(cs[i]);
            assert(mag@ =~= cs@.subrange(1, i + 1));
            i = i + 1;
        }
        assert(mag@ =~= cs@.drop_first());
        if !all_digits_exec(mag.as_slice()) {
            return None;
        }
        return match decimal_exec(mag.as_slice()) {
            Some(v) => if v <= 0x7fff_ffff_ffff_ffff {
                Some(0 - (v as i64))
            } else if v == 0x8000_0000_0000_0000 {
                Some(i64::MIN)
            } else {
                None
            },
            None => None,
        };
    }
    None
}

/// `value.get(key)`: the member `key` of an object; nothing for other values.
pub open spec fn jget(v: JsonView, key: Seq<char>) -> Option<JsonView> {
    match v {
        JsonView::Object(m) => m_get(m, key),
        _ => None,
    }
}

/// An optional value as `serde` reads it into an `Option`: `null` is `None`.
pub open spec fn non_null(o: Option<JsonView>) -> Option<JsonView> {
    match o {
        Some(JsonView::Null) => None,
        _ => o,
    }
}

/// `value.get(key)`.
pub fn json_get<'a>(v: &'a JsonValue, key: &str) -> (r: Option<&'a JsonValue>)
    ensures
        match r {
            Some(x) => jget(jview(*v), key@) == Some(jview(*x)),
            None => jget(jview(*v), key@) is None,
        },
{
    match v {
        JsonValue::Object(m) => member_get(m, key),
        _ => None,
    }
}

/// A copy of `value.get(key)` read into an `Option` (`null` is `None`).
fn get_non_null(v: &JsonValue, key: &str) -> (r: Option<JsonValue>)
    ensures
        match r {
            Some(x) => non_null(jget(jview(*v), key@)) == Some(jview(x)),
            None => non_null(jget(jview(*v), key@)) is None,
        },
{
    match json_get(v, key) {
        Some(JsonValue::Null) => None,
        Some(x) => Some(clone_json(x)),
        None => None,
    }
}

/// The `error` member of a JSON-RPC response.
#[derive(Debug)]
pub struct RpcError {
    pub code: i64,
    pub message: String,
    pub data: Option<JsonValue>,
}

/// A JSON-RPC response.
#[derive(Debug)]
pub struct RpcResponse {
    pub id: JsonValue,
    pub result: Option<JsonValue>,
    pub error: Option<RpcError>,
}

/// A JSON-RPC notification.
#[derive(Debug)]
pub struct RpcNotification {
    pub method: String,
    pub params: Option<JsonValue>,
}

/// An incoming message.
#[derive(Debug)]
pub enum Incoming {
    Response(RpcResponse),
    Notification(RpcNotification),
}

/// Plain view of an `RpcError`: code, message, data.
pub type RpcErrorView = (i64, Seq<char>, Option<JsonView>);

/// Plain view of an incoming message.
pub enum IncomingView {
    Response { id: JsonView, result: Option<JsonView>, error: Option<RpcErrorView> },
    Notification { method: Seq<char>, params: Option<JsonView> },
}

pub open spec fn opt_jview(o: Option<JsonValue>) -> Option<JsonView> {
    match o {
        Some(v) => Some(jview(v)),
        None => None,
    }
}

pub open spec fn rpc_error_view(e: RpcError) -> RpcErrorView {
    (e.code, e.message@, opt_jview(e.data))
}

pub open spec fn incoming_view(i: Incoming) -> IncomingView {
    match i {
        Incoming::Response(r) => IncomingView::Response {
            id: jview(r.id),
            result: opt_jview(r.result),
            error: match r.error {
                Some(e) => Some(rpc_error_view(e)),
                None => None,
            },
        },
        Incoming::Notification(n) => IncomingView::Notification { method: n.method@, params: opt_jview(n.params) },
    }
}

/// An `RpcError` read from a JSON value: an object with an integer `code` and a string
/// `message` (and optional `data`), or an array of exactly those three; `None` when the
/// value has another shape.
pub open spec fn rpc_error_of(v: JsonView) -> Option<RpcErrorView> {
    match v {
        JsonView::Object(m) => match m_get(m, "code"@) {
            Some(JsonView::Number(t)) => match m_get(m, "message"@) {
                Some(JsonView::Str(msg)) => match number_i64(t) {
                    Some(c) => Some((c, msg, non_null(m_get(m, "data"@)))),
                    None => None,
                },
                _ => None,
            },
            _ => None,
        },
        JsonView::Array(items) => if items.len() == 3 {
            match items[0] {
                JsonView::Number(t) => match items[1] {
                    JsonView::Str(msg) => match number_i64(t) {
                        Some(c) => Some((c, msg, non_null(Some(items[2])))),
                        None => None,
                    },
                    _ => None,
                },
                _ => None,
            }
        } else {
            None
        },
        _ => None,
    }
}

/// The optional `error` member: absent or `null` reads as no error; `None` when it is present
/// but malformed.
pub open spec fn rpc_error_field(o: Option<JsonView>) -> Option<Option<RpcErrorView>> {
    match non_null(o) {
        None => Some(None),
        Some(v) => match rpc_error_of(v) {
            Some(e) => Some(Some(e)),
            None => None,
        },
    }
}

/// `decode_message`: without an `id` but with a `method`, a notification (whose method must
/// be a string); with an `id`, a response (whose `error`, when present, must be well formed);
/// anything else is not a message.
pub open spec fn decoded(v: JsonView) -> Option<IncomingView> {
    if jget(v, "id"@) is None && jget(v, "method"@) is Some {
        match jget(v, "method"@) {
            Some(JsonView::Str(m)) => Some(IncomingView::Notification { method: m, params: non_null(jget(v, "params"@)) }),
            _ => None,
        }
    } else if jget(v, "id"@) is Some {
        match rpc_error_field(jget(v, "error"@)) {
            Some(err) => Some(
                IncomingView::Response { id: jget(v, "id"@)->Some_0, result: non_null(jget(v, "result"@)), error: err },
            ),
            None => None,
        }
    } else {
        None
    }
}

fn rpc_error_from(v: &JsonValue) -> (r: Option<RpcError>)
    ensures
        match r {
            Some(e) => rpc_error_of(jview(*v)) == Some(rpc_error_view(e)),
            None => rpc_error_of(jview(*v)) is None,
        },
{
    proof {
        reveal_strlit("code");
        reveal_strlit("message");
        reveal_strlit("data");
    }
    match v {
        JsonValue::Object(_) => {
            let code = match json_get(v, "code") {
                Some(JsonValue::Number(t)) => number_i64_exec(t.as_str()),
                _ => None,
            };
            let message = match json_get(v, "message") {
                Some(JsonValue::String(m)) => Some(m.clone()),
                _ => None,
            };
            match (code, message) {
                (Some(c), Some(m)) => Some(RpcError { code: c, message: m, data: get_non_null(v, "data") }),
                _ => None,
            }
        },
        JsonValue::Array(items) => {
            proof {
                crate::json::lemma_jview_items_len(items@);
            }
            if items.len() != 3 {
                return None;
            }
            let code = match &items[0] {
                JsonValue::Number(t) => number_i64_exec(t.as_str()),
                _ => None,
            };
            let message = match &items[1] {
                JsonValue::String(m) => Some(m.clone()),
                _ => None,
            };
            proof {
                crate::json::lemma_jview_items_index(items@, 0);
                crate::json::lemma_jview_items_index(items@, 1);
                crate::json::lemma_jview_items_index(items@, 2);
            }
            match (code, message) {
                (Some(c), Some(m)) => {
                    let data = match &items[2] {
                        JsonValue::Null => None,
                        x => Some(clone_json(x)),
                    };
                    Some(RpcError { code: c, message: m, data })
                },
                _ => None,
            }
        },
        _ => None,
    }
}

/// `decode_message`: the response or notification a JSON value holds (see [`decoded`]).
pub fn decode_message(value: JsonValue) -> (r: Option<Incoming>)
    ensures
        match r {
            Some(i) => decoded(jview(value)) == Some(incoming_view(i)),
            None => decoded(jview(value)) is None,
        },
{
    proof {
        reveal_strlit("id");
        reveal_strlit("method");
        reveal_strlit("params");
        reveal_strlit("result");
        reveal_strlit("error");
    }
    let has_id = json_get(&value, "id").is_some();
    let has_method = json_get(&value, "method").is_some();
    if !has_id && has_method {
        return match json_get(&value, "method") {
            Some(JsonValue::String(m)) => Some(
                Incoming::Notification(RpcNotification { method: m.clone(), params: get_non_null(&value, "params") }),
            ),
            _ => None,
        };
    }
    if has_id {
        let error = match json_get(&value, "error") {
            None => None,
            Some(JsonValue::Null) => None,
            Some(e) => match rpc_error_from(e) {
                Some(x) => Some(x),
                None => {
                    return None;
                },
            },
        };
        let id = match json_get(&value, "id") {
            Some(x) => clone_json(x),
            None => JsonValue::Null,
        };
        return Some(Incoming::Response(RpcResponse { id, result: get_non_null(&value, "result"), error }));
    }
    None
}

/// Failures of a JSON-RPC exchange (spawn and serialization failures are the caller's).
#[derive(Debug)]
pub enum McpError {
    Handshake(String),
    Transport(String),
    Rpc { code: i64, message: String, data: Option<JsonValue> },
    Server(String),
    Cancelled,
    Timeout(TimeSpan),
    ChannelClosed,
}

/// The JSON-RPC error code of a cancelled request.
pub const REQUEST_CANCELLED: i64 = -32800;

/// What a response gives the request it answers: its error (a cancelled request's code
/// becomes `Cancelled`), else its result, else a transport error.
pub fn response_outcome(response: RpcResponse) -> (r: Result<JsonValue, McpError>)
    ensures
        match response.error {
            Some(e) => if e.code == -32800 {
                r matches Err(McpError::Cancelled)
            } else {
                r matches Err(McpError::Rpc { code, message, data }) && code == e.code && message == e.message
                    && data == e.data
            },
            None => match response.result {
                Some(v) => r == Ok::<JsonValue, McpError>(v),
                None => r matches Err(McpError::Transport(m)) && m@ == "response missing result and error"@,
            },
        },
{
    let RpcResponse { id: _, result, error } = response;
    match error {
        Some(e) => if e.code == REQUEST_CANCELLED {
            Err(McpError::Cancelled)
        } else {
            Err(McpError::Rpc { code: e.code, message: e.message, data: e.data })
        },
        None => match result {
            Some(v) => Ok(v),
            None => Err(McpError::Transport("response missing result and error".to_owned())),
        },
    }
}

/// Kind of an approval request.
#[derive(Debug)]
pub enum ApprovalKind {
    Exec,
    Apply,
    Unknown(String),
}

/// An approval the server asks for.
#[derive(Debug)]
pub struct ApprovalRequest {
    pub approval_id: String,
    pub kind: ApprovalKind,
    pub payload: JsonValue,
}

/// A `codex/event` notification of the MCP server.
#[derive(Debug)]
pub enum CodexEvent {
    TaskComplete { conversation_id: String, result: JsonValue },
    ApprovalRequired(ApprovalRequest),
    Cancelled { conversation_id: Option<String>, reason: Option<String> },
    Error { message: String, data: Option<JsonValue> },
    Raw { method: String, params: JsonValue },
}

/// A notification of the app server.
#[derive(Debug)]
pub enum AppNotification {
    TaskComplete { thread_id: String, turn_id: Option<String>, result: JsonValue },
    Item { thread_id: String, turn_id: Option<String>, item: JsonValue },
    Error { message: String, data: Option<JsonValue> },
    Raw { method: String, params: JsonValue },
}

pub enum ApprovalKindView {
    Exec,
    Apply,
    Unknown(Seq<char>),
}

pub enum CodexEventView {
    TaskComplete { conversation_id: Seq<char>, result: JsonView },
    ApprovalRequired { approval_id: Seq<char>, kind: ApprovalKindView, payload: JsonView },
    Cancelled { conversation_id: Option<Seq<char>>, reason: Option<Seq<char>> },
    Error { message: Seq<char>, data: Option<JsonView> },
    Raw { method: Seq<char>, params: JsonView },
}

pub enum AppNotificationView {
    TaskComplete { thread_id: Seq<char>, turn_id: Option<Seq<char>>, result: JsonView },
    Item { thread_id: Seq<char>, turn_id: Option<Seq<char>>, item: JsonView },
    Error { message: Seq<char>, data: Option<JsonView> },
    Raw { method: Seq<char>, params: JsonView },
}

pub open spec fn codex_event_view(e: CodexEvent) -> CodexEventView {
    match e {
        CodexEvent::TaskComplete { conversation_id, result } => CodexEventView::TaskComplete {
            conversation_id: conversation_id@,
            result: jview(result),
        },
        CodexEvent::ApprovalRequired(req) => CodexEventView::ApprovalRequired {
            approval_id: req.approval_id@,
            kind: match req.kind {
                ApprovalKind::Exec => ApprovalKindView::Exec,
                ApprovalKind::Apply => ApprovalKindView::Apply,
                ApprovalKind::Unknown(k) => ApprovalKindView::Unknown(k@),
            },
            payload: jview(req.payload),
        },
        CodexEvent::Cancelled { conversation_id, reason } => CodexEventView::Cancelled {
            conversation_id: opt_view(conversation_id),
            reason: opt_view(reason),
        },
        CodexEvent::Error { message, data } => CodexEventView::Error { message: message@, data: opt_jview(data) },
        CodexEvent::Raw { method, params } => CodexEventView::Raw { method: method@, params: jview(params) },
    }
}

pub open spec fn app_notification_view(n: AppNotification) -> AppNotificationView {
    match n {
        AppNotification::TaskComplete { thread_id, turn_id, result } => AppNotificationView::TaskComplete {
            thread_id: thread_id@,
            turn_id: opt_view(turn_id),
            result: jview(result),
        },
        AppNotification::Item { thread_id, turn_id, item } => AppNotificationView::Item {
            thread_id: thread_id@,
            turn_id: opt_view(turn_id),
            item: jview(item),
        },
        AppNotification::Error { message, data } => AppNotificationView::Error { message: message@, data: opt_jview(data) },
        AppNotification::Raw { method, params } => AppNotificationView::Raw { method: method@, params: jview(params) },
    }
}

/// `a.or_else(|| b)`.
pub open spec fn or_else(a: Option<JsonView>, b: Option<JsonView>) -> Option<JsonView> {
    match a {
        Some(x) => Some(x),
        None => b,
    }
}

/// `unwrap_or_default` of an optional string.
pub open spec fn or_empty(s: Option<Seq<char>>) -> Seq<char> {
    match s {
        Some(x) => x,
        None => Seq::empty(),
    }
}

/// The conversation a `codex/event` payload names: the first of `thread_id`, `threadId`,
/// `session_id`, `conversation_id`, `conversationId` that is present, when it is a string.
pub open spec fn conversation_of(p: JsonView) -> Seq<char> {
    or_empty(
        str_of(
            or_else(
                jget(p, "thread_id"@),
                or_else(
                    jget(p, "threadId"@),
                    or_else(jget(p, "session_id"@), or_else(jget(p, "conversation_id"@), jget(p, "conversationId"@))),
                ),
            ),
        ),
    )
}

/// `parse_codex_event`: the event a `codex/event` payload (or its `msg` member) describes.
pub open spec fn codex_event_of(value: JsonView) -> Option<CodexEventView> {
    let p = match jget(value, "msg"@) {
        Some(m) => m,
        None => value,
    };
    match str_of(jget(p, "type"@)) {
        None => None,
        Some(t) => if t == "task_complete"@ {
            Some(CodexEventView::TaskComplete {
                conversation_id: conversation_of(p),
                result: match jget(p, "result"@) {
                    Some(r) => r,
                    None => p,
                },
            })
        } else if t == "approval_required"@ || t == "approval"@ {
            let raw_kind = match str_of(or_else(jget(p, "kind"@), jget(p, "approval_kind"@))) {
                Some(k) => k,
                None => "unknown"@,
            };
            let l = crate::auth::unicode_lowercase(raw_kind);
            Some(CodexEventView::ApprovalRequired {
                approval_id: or_empty(str_of(or_else(jget(p, "approval_id"@), jget(p, "id"@)))),
                kind: if l == "exec"@ {
                    ApprovalKindView::Exec
                } else if l == "apply"@ {
                    ApprovalKindView::Apply
                } else {
                    ApprovalKindView::Unknown(l)
                },
                payload: p,
            })
        } else if t == "cancelled"@ || t == "canceled"@ {
            Some(CodexEventView::Cancelled {
                conversation_id: str_of(jget(p, "conversation_id"@)),
                reason: str_of(jget(p, "reason"@)),
            })
        } else if t == "error"@ {
            Some(CodexEventView::Error {
                message: or_empty(str_of(or_else(jget(p, "message"@), jget(p, "error"@)))),
                data: jget(p, "data"@),
            })
        } else {
            None
        },
    }
}

/// The first of `a`, `b` whose value is a string (`extract_string`).
pub open spec fn first_str(v: JsonView, a: Seq<char>, b: Seq<char>) -> Option<Seq<char>> {
    match str_of(jget(v, a)) {
        Some(s) => Some(s),
        None => str_of(jget(v, b)),
    }
}

/// `parse_app_notification`: the notification an app-server message carries, by its
/// lowercased `type`; any other type is kept raw with its method.
pub open spec fn app_notification_of(method: Seq<char>, value: JsonView) -> AppNotificationView {
    let t = crate::auth::unicode_lowercase(or_empty(str_of(jget(value, "type"@))));
    let thread_id = or_empty(first_str(value, "thread_id"@, "threadId"@));
    let turn_id = first_str(value, "turn_id"@, "turnId"@);
    if t == "task_complete"@ || t == "taskcomplete"@ {
        AppNotificationView::TaskComplete {
            thread_id,
            turn_id,
            result: match jget(value, "result"@) {
                Some(r) => r,
                None => JsonView::Null,
            },
        }
    } else if t == "item"@ {
        AppNotificationView::Item {
            thread_id,
            turn_id,
            item: match jget(value, "item"@) {
                Some(i) => i,
                None => value,
            },
        }
    } else if t == "error"@ {
        AppNotificationView::Error {
            message: or_empty(str_of(or_else(jget(value, "message"@), jget(value, "error"@)))),
            data: jget(value, "data"@),
        }
    } else {
        AppNotificationView::Raw { method, params: value }
    }
}

pub open spec fn ref_view(o: Option<&JsonValue>) -> Option<JsonView> {
    match o {
        Some(x) => Some(jview(*x)),
        None => None,
    }
}

fn get<'a>(v: &'a JsonValue, key: &str) -> (r: Option<&'a JsonValue>)
    ensures
        ref_view(r) == jget(jview(*v), key@),
{
    json_get(v, key)
}

fn either<'a>(a: Option<&'a JsonValue>, b: Option<&'a JsonValue>) -> (r: Option<&'a JsonValue>)
    ensures
        ref_view(r) == or_else(ref_view(a), ref_view(b)),
{
    match a {
        Some(x) => Some(x),
        None => b,
    }
}

fn as_string(o: Option<&JsonValue>) -> (r: Option<String>)
    ensures
        opt_view(r) == str_of(ref_view(o)),
{
    match o {
        Some(JsonValue::String(s)) => Some(s.clone()),
        _ => None,
    }
}

fn string_or_empty(o: Option<String>) -> (r: String)
    ensures
        r@ == or_empty(opt_view(o)),
{
    match o {
        Some(s) => s,
        None => String::new(),
    }
}

fn copy_ref(o: Option<&JsonValue>) -> (r: Option<JsonValue>)
    ensures
        opt_jview(r) == ref_view(o),
{
    match o {
        Some(x) => Some(clone_json(x)),
        None => None,
    }
}

fn text_is(s: &String, lit: &str) -> (r: bool)
    ensures
        r == (s@ == lit@),
{
    crate::text::eq_chars(chars_of(s.as_str()).as_slice(), chars_of(lit).as_slice())
}

/// `parse_codex_event` (see [`codex_event_of`]).
pub fn parse_codex_event(value: &JsonValue) -> (r: Option<CodexEvent>)
    ensures
        match r {
            Some(e) => codex_event_of(jview(*value)) == Some(codex_event_view(e)),
            None => codex_event_of(jview(*value)) is None,
        },
{
    let p: &JsonValue = match get(value, "msg") {
        Some(m) => m,
        None => value,
    };
    let t = match as_string(get(p, "type")) {
        Some(t) => t,
        None => {
            return None;
        },
    };
    let conv = string_or_empty(
        as_string(
            either(
                get(p, "thread_id"),
                either(
                    get(p, "threadId"),
                    either(get(p, "session_id"), either(get(p, "conversation_id"), get(p, "conversationId"))),
                ),
            ),
        ),
    );
    if text_is(&t, "task_complete") {
        let result = match get(p, "result") {
            Some(r) => clone_json(r),
            None => clone_json(p),
        };
        return Some(CodexEvent::TaskComplete { conversation_id: conv, result });
    }
    if text_is(&t, "approval_required") || text_is(&t, "approval") {
        let approval_id = string_or_empty(as_string(either(get(p, "approval_id"), get(p, "id"))));
        let raw_kind = match as_string(either(get(p, "kind"), get(p, "approval_kind"))) {
            Some(k) => k,
            None => "unknown".to_owned(),
        };
        let l = crate::auth::to_lowercase(raw_kind.as_str());
        let kind = if text_is(&l, "exec") {
            ApprovalKind::Exec
        } else if text_is(&l, "apply") {
            ApprovalKind::Apply
        } else {
            ApprovalKind::Unknown(l)
        };
        return Some(CodexEvent::ApprovalRequired(ApprovalRequest { approval_id, kind, payload: clone_json(p) }));
    }
    if text_is(&t, "cancelled") || text_is(&t, "canceled") {
        return Some(
            CodexEvent::Cancelled {
                conversation_id: as_string(get(p, "conversation_id")),
                reason: as_string(get(p, "reason")),
            },
        );
    }
    if text_is(&t, "error") {
        return Some(
            CodexEvent::Error {
                message: string_or_empty(as_string(either(get(p, "message"), get(p, "error")))),
                data: copy_ref(get(p, "data")),
            },
        );
    }
    None
}

fn first_string(v: &JsonValue, a: &str, b: &str) -> (r: Option<String>)
    ensures
        opt_view(r) == first_str(jview(*v), a@, b@),
{
    match as_string(get(v, a)) {
        Some(s) => Some(s),
        None => as_string(get(v, b)),
    }
}

/// `parse_app_notification` (see [`app_notification_of`]).
pub fn parse_app_notification(method: &str, value: &JsonValue) -> (r: AppNotification)
    ensures
        app_notification_view(r) == app_notification_of(method@, jview(*value)),
{
    let raw = string_or_empty(as_string(get(value, "type")));
    let t = crate::auth::to_lowercase(raw.as_str());
    let thread_id = string_or_empty(first_string(value, "thread_id", "threadId"));
    let turn_id = first_string(value, "turn_id", "turnId");
    if text_is(&t, "task_complete") || text_is(&t, "taskcomplete") {
        let result = match get(value, "result") {
            Some(r) => clone_json(r),
            None => JsonValue::Null,
        };
        AppNotification::TaskComplete { thread_id, turn_id, result }
    } else if text_is(&t, "item") {
        let item = match get(value, "item") {
            Some(i) => clone_json(i),
            None => clone_json(value),
        };
        AppNotification::Item { thread_id, turn_id, item }
    } else if text_is(&t, "error") {
        AppNotification::Error {
            message: string_or_empty(as_string(either(get(value, "message"), get(value, "error")))),
            data: copy_ref(get(value, "data")),
        }
    } else {
        AppNotification::Raw { method: method.to_owned(), params: clone_json(value) }
    }
}

/// The ids in `v`, as a set.
pub open spec fn id_set(v: Seq<u64>) -> Set<u64> {
    Set::new(|x: u64| exists|i: int| 0 <= i < v.len() && v[i] == x)
}

/// No id occurs twice in `v`.
pub open spec fn distinct_ids(v: Seq<u64>) -> bool {
    forall|a: int, b: int| 0 <= a < v.len() && 0 <= b < v.len() && a != b ==> v[a] != v[b]
}

fn id_position(v: &Vec<u64>, id: u64) -> (r: Option<usize>)
    ensures
        match r {
            Some(i) => i < v@.len() && v@[i as int] == id,
            None => !id_set(v@).contains(id),
        },
{
    let mut i: usize = 0;
    while i < v.len()
        invariant
            i <= v@.len(),
            forall|j: int| 0 <= j < i ==> v@[j] != id,
        decreases v@.len() - i,
    {
        if v[i] == id {
            return Some(i);
        }
        i = i + 1;
    }
    None
}

/// The requests sent and not yet answered, and the id the next request gets. The reply
/// channels themselves are the caller's, kept by id.
#[derive(Debug)]
pub struct PendingRequests {
    next_id: u64,
    pending: Vec<u64>,
}

impl PendingRequests {
    pub closed spec fn wf(&self) -> bool {
        distinct_ids(self.pending@)
    }

    /// The ids awaiting a response.
    pub closed spec fn pending_set(&self) -> Set<u64> {
        id_set(self.pending@)
    }

    /// The id the next request gets.
    pub closed spec fn next(&self) -> u64 {
        self.next_id
    }

    /// No request pending; ids start at 1.
    pub fn new() -> (r: Self)
        ensures
            r.wf(),
            r.pending_set() == Set::<u64>::empty(),
            r.next() == 1,
    {
        let r = PendingRequests { next_id: 1, pending: Vec::new() };
        assert(r.pending_set() =~= Set::<u64>::empty());
        r
    }

    /// A new request: it takes the next id (ids count up, wrapping like `AtomicU64::fetch_add`)
    /// and is pending until answered.
    pub fn begin(&mut self) -> (id: RequestId)
        requires
            old(self).wf(),
        ensures
            final(self).wf(),
            id == old(self).next(),
            final(self).next() == (if old(self).next() == u64::MAX { 0 } else { (old(self).next() + 1) as u64 }),
            final(self).pending_set() == old(self).pending_set().insert(id),
    {
        let id = self.next_id;
        self.next_id = self.next_id.wrapping_add(1);
        if id_position(&self.pending, id).is_none() {
            let ghost before = self.pending@;
            self.pending.push(id);
            proof {
                assert forall|a: int, b: int|
                    0 <= a < self.pending@.len() && 0 <= b < self.pending@.len() && a != b implies self.pending@[a]
                    != self.pending@[b] by {
                    if a < before.len() && b < before.len() {
                    } else if a < before.len() {
                        assert(id_set(before).contains(before[a]));
                    } else {
                        assert(id_set(before).contains(before[b]));
                    }
                }
                assert forall|x: u64| #[trigger] id_set(self.pending@).contains(x) <==> id_set(before).insert(id).contains(x) by {
                    if id_set(before).contains(x) {
                        let j = choose|j: int| 0 <= j < before.len() && before[j] == x;
                        assert(self.pending@[j] == before[j]);
                    }
                    if id_set(self.pending@).contains(x) && x != id {
                        let j = choose|j: int| 0 <= j < self.pending@.len() && self.pending@[j] == x;
                        assert(self.pending@[j] == before[j]);
                    }
                    assert(self.pending@[before.len() as int] == id);
                }
                assert(id_set(self.pending@) =~= id_set(before).insert(id));
            }
        } else {
            assert(id_set(self.pending@) =~= id_set(self.pending@).insert(id));
        }
        id
    }

    /// The request `id` is answered (or its message could not be sent): true when it was
    /// pending, and it is pending no more.
    pub fn complete(&mut self, id: RequestId) -> (was_pending: bool)
        requires
            old(self).wf(),
        ensures
            final(self).wf(),
            final(self).next() == old(self).next(),
            was_pending == old(self).pending_set().contains(id),
            final(self).pending_set() == old(self).pending_set().remove(id),
    {
        match id_position(&self.pending, id) {
            None => {
                assert(id_set(self.pending@) =~= id_set(self.pending@).remove(id));
                false
            },
            Some(idx) => {
                let ghost before = self.pending@;
                self.pending.remove(idx);
                proof {
                    assert(self.pending@ =~= before.remove(idx as int));
                    assert forall|a: int, b: int|
                        0 <= a < self.pending@.len() && 0 <= b < self.pending@.len() && a != b implies self.pending@[a]
                        != self.pending@[b] by {
                        let a0 = if a < idx { a } else { a + 1 };
                        let b0 = if b < idx { b } else { b + 1 };
                        assert(self.pending@[a] == before[a0] && self.pending@[b] == before[b0]);
                    }
                    assert forall|x: u64| #[trigger] id_set(self.pending@).contains(x) <==> id_set(before).remove(id).contains(x) by {
                        if id_set(self.pending@).contains(x) {
                            let j = choose|j: int| 0 <= j < self.pending@.len() && self.pending@[j] == x;
                            let j0 = if j < idx { j } else { j + 1 };
                            assert(self.pending@[j] == before[j0]);
                        }
                        if id_set(before).remove(id).contains(x) {
                            let j = choose|j: int| 0 <= j < before.len() && before[j] == x;
                            let j1 = if j < idx { j } else { j - 1 };
                            assert(self.pending@[j1] == before[j]);
                        }
                    }
                    assert(id_set(self.pending@) =~= id_set(before).remove(id));
                    assert(id_set(before).contains(id)) by {
                        assert(before[idx as int] == id);
                    }
                }
                true
            },
        }
    }

    /// The reader has ended: every pending request is failed (`ChannelClosed`); returns their
    /// ids and leaves none pending.
    pub fn close(&mut self) -> (r: Vec<RequestId>)
        requires
            old(self).wf(),
        ensures
            final(self).wf(),
            final(self).next() == old(self).next(),
            final(self).pending_set() == Set::<u64>::empty(),
            id_set(r@) == old(self).pending_set(),
            distinct_ids(r@),
    {
        let mut r: Vec<u64> = Vec::new();
        std::mem::swap(&mut r, &mut self.pending);
        assert(id_set(self.pending@) =~= Set::<u64>::empty());
        r
    }
}

/// An approval event's kind is read from `kind` (else `approval_kind`, else `unknown`) without
/// regard to case: it is an apply approval exactly when the lowercased kind is `apply`, an exec
/// approval exactly when it is `exec`, and otherwise an unknown kind holding the lowercased text.
pub proof fn law_approval_kind(value: JsonView)
    ensures
        match codex_event_of(value) {
            Some(CodexEventView::ApprovalRequired { kind, payload, .. }) => {
                let raw = match str_of(or_else(jget(payload, "kind"@), jget(payload, "approval_kind"@))) {
                    Some(k) => k,
                    None => "unknown"@,
                };
                let l = crate::auth::unicode_lowercase(raw);
                &&& (kind == ApprovalKindView::Apply) == (l == "apply"@)
                &&& (kind == ApprovalKindView::Exec) == (l == "exec"@)
                &&& (kind is Unknown ==> kind == ApprovalKindView::Unknown(l))
            },
            _ => true,
        },
{
    reveal_strlit("apply");
    reveal_strlit("exec");
    assert("apply"@.len() != "exec"@.len());
}

/// A response resolves its request once: after `complete(id)`, the id is no longer pending, so
/// a second response with the same id finds nothing to resolve.
pub proof fn law_response_resolves_once(before: PendingRequests, after: PendingRequests, id: RequestId)
    requires
        after.pending_set() == before.pending_set().remove(id),
    ensures
        !after.pending_set().contains(id),
{
}

/// Which notifications a transport listens for.
#[derive(Clone, Copy, Debug, PartialEq, Eq, Structural)]
pub enum NotificationHook {
    Codex,
    App,
}

/// What the reader does with one line from the server.
#[derive(Debug)]
pub enum ReaderStep {
    /// A blank line.
    Skip,
    /// Text that is not JSON.
    NotJson,
    /// JSON that is neither a response nor a notification.
    Malformed,
    /// A response: the id it answers (when readable) and what it gives that request.
    Response { id: Option<RequestId>, outcome: Result<JsonValue, McpError> },
    /// A `codex/event` notification, for the Codex listeners.
    Codex(CodexEvent),
    /// A notification, for the app listeners.
    App(AppNotification),
    /// A notification nobody listens for.
    Ignored,
}

/// `outcome` is what a response with `result` and `error` gives its request (see
/// [`response_outcome`]).
pub open spec fn outcome_matches(
    outcome: Result<JsonValue, McpError>,
    result: Option<JsonView>,
    error: Option<RpcErrorView>,
) -> bool {
    match error {
        Some(e) => if e.0 == -32800 {
            outcome matches Err(McpError::Cancelled)
        } else {
            outcome matches Err(McpError::Rpc { code, message, data }) && code == e.0 && message@ == e.1
                && opt_jview(data) == e.2
        },
        None => match result {
            Some(v) => outcome matches Ok(x) && jview(x) == v,
            None => outcome matches Err(McpError::Transport(m)) && m@ == "response missing result and error"@,
        },
    }
}

/// The method of the MCP server's event notifications.
pub open spec fn codex_event_method() -> Seq<char> {
    "codex/event"@
}

/// The event a `codex/event` notification with `params` delivers: the parsed event, or the
/// raw notification when the payload is not one.
pub open spec fn codex_delivery(params: JsonView) -> CodexEventView {
    match codex_event_of(params) {
        Some(e) => e,
        None => CodexEventView::Raw { method: codex_event_method(), params },
    }
}

/// `reader_task`'s handling of one stdout line (see [`ReaderStep`]).
pub fn reader_step(line: &str, hook: NotificationHook) -> (r: ReaderStep)
    ensures
        trim(line@).len() == 0 ==> r is Skip,
        trim(line@).len() > 0 ==> match json_parse(line@) {
            None => r is NotJson,
            Some(v) => match decoded(jview(v)) {
                None => r is Malformed,
                Some(IncomingView::Response { id, result, error }) => r matches ReaderStep::Response { id: rid, outcome }
                    && rid == request_id_of(id) && outcome_matches(outcome, result, error),
                Some(IncomingView::Notification { method, params }) => {
                    let p = match params {
                        Some(x) => x,
                        None => JsonView::Null,
                    };
                    match hook {
                        NotificationHook::Codex => if method == codex_event_method() {
                            r matches ReaderStep::Codex(e) && codex_event_view(e) == codex_delivery(p)
                        } else {
                            r is Ignored
                        },
                        NotificationHook::App => r matches ReaderStep::App(n) && app_notification_view(n)
                            == app_notification_of(method, p),
                    }
                },
            },
        },
{
    let t = trim_chars(chars_of(line).as_slice(), CharClass::Whitespace);
    if t.len() == 0 {
        return ReaderStep::Skip;
    }
    let value = match parse_json(line) {
        Some(v) => v,
        None => {
            return ReaderStep::NotJson;
        },
    };
    match decode_message(value) {
        None => ReaderStep::Malformed,
        Some(Incoming::Response(response)) => {
            let id = parse_request_id(&response.id);
            ReaderStep::Response { id, outcome: response_outcome(response) }
        },
        Some(Incoming::Notification(n)) => {
            let params = match n.params {
                Some(x) => x,
                None => JsonValue::Null,
            };
            match hook {
                NotificationHook::Codex => {
                    if text_is(&n.method, "codex/event") {
                        match parse_codex_event(&params) {
                            Some(e) => ReaderStep::Codex(e),
                            None => ReaderStep::Codex(CodexEvent::Raw { method: "codex/event".to_owned(), params }),
                        }
                    } else {
                        ReaderStep::Ignored
                    }
                },
                NotificationHook::App => ReaderStep::App(parse_app_notification(n.method.as_str(), &params)),
            }
        },
    }
}

fn copy_opt_json(o: &Option<JsonValue>) -> (r: Option<JsonValue>)
    ensures
        opt_jview(r) == opt_jview(*o),
{
    match o {
        Some(x) => Some(clone_json(x)),
        None => None,
    }
}

fn copy_opt_string(o: &Option<String>) -> (r: Option<String>)
    ensures
        opt_view(r) == opt_view(*o),
{
    match o {
        Some(x) => Some(x.clone()),
        None => None,
    }
}

impl CodexEvent {
    /// A copy for another listener.
    pub fn duplicate(&self) -> (r: Self)
        ensures
            codex_event_view(r) == codex_event_view(*self),
    {
        match self {
            CodexEvent::TaskComplete { conversation_id, result } => CodexEvent::TaskComplete {
                conversation_id: conversation_id.clone(),
                result: clone_json(result),
            },
            CodexEvent::ApprovalRequired(req) => CodexEvent::ApprovalRequired(
                ApprovalRequest {
                    approval_id: req.approval_id.clone(),
                    kind: match &req.kind {
                        ApprovalKind::Exec => ApprovalKind::Exec,
                        ApprovalKind::Apply => ApprovalKind::Apply,
                        ApprovalKind::Unknown(k) => ApprovalKind::Unknown(k.clone()),
                    },
                    payload: clone_json(&req.payload),
                },
            ),
            CodexEvent::Cancelled { conversation_id, reason } => CodexEvent::Cancelled {
                conversation_id: copy_opt_string(conversation_id),
                reason: copy_opt_string(reason),
            },
            CodexEvent::Error { message, data } => CodexEvent::Error {
                message: message.clone(),
                data: copy_opt_json(data),
            },
            CodexEvent::Raw { method, params } => CodexEvent::Raw { method: method.clone(), params: clone_json(params) },
        }
    }
}

impl AppNotification {
    /// A copy for another listener.
    pub fn duplicate(&self) -> (r: Self)
        ensures
            app_notification_view(r) == app_notification_view(*self),
    {
        match self {
            AppNotification::TaskComplete { thread_id, turn_id, result } => AppNotification::TaskComplete {
                thread_id: thread_id.clone(),
                turn_id: copy_opt_string(turn_id),
                result: clone_json(result),
            },
            AppNotification::Item { thread_id, turn_id, item } => AppNotification::Item {
                thread_id: thread_id.clone(),
                turn_id: copy_opt_string(turn_id),
                item: clone_json(item),
            },
            AppNotification::Error { message, data } => AppNotification::Error {
                message: message.clone(),
                data: copy_opt_json(data),
            },
            AppNotification::Raw { method, params } => AppNotification::Raw {
                method: method.clone(),
                params: clone_json(params),
            },
        }
    }
}

} // verus!
