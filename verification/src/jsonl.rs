//! Normalization of Codex `--json` JSONL events: item payloads are flattened into the event,
//! legacy field names are renamed, and missing thread and turn ids are filled in from the
//! events seen before.

use vstd::prelude::*;
use crate::json::{
    lemma_m_insert_get, clone_json, jview, jview_members, lemma_jview_members_take, m_get, m_insert,
    m_remove, member_get, member_insert, member_remove, parse_json, json_parse, JsonValue, JsonView,
};
use crate::text::{
    chars_of, decimal, decimal_chars, lemma_decimal_injective, lit, push_all, starts_with,
    starts_with_chars, string_of, trim, trim_chars, CharClass,
};

verus! {

/// Thread and turn context carried from one event to the next.
#[derive(Debug)]
pub struct StreamContext {
    pub current_thread_id: Option<String>,
    pub current_turn_id: Option<String>,
    pub next_synthetic_turn: u32,
}

/// Plain view of a context: thread id, turn id, next synthetic turn number.
pub type ContextView = (Option<Seq<char>>, Option<Seq<char>>, u32);

pub open spec fn opt_view(o: Option<String>) -> Option<Seq<char>> {
    match o {
        Some(s) => Some(s@),
        None => None,
    }
}

pub open spec fn ctx_view(c: StreamContext) -> ContextView {
    (opt_view(c.current_thread_id), opt_view(c.current_turn_id), c.next_synthetic_turn)
}

impl StreamContext {
    /// No thread, no turn, synthetic turns counted from the start.
    pub fn new() -> (r: Self)
        ensures
            ctx_view(r) == (None::<Seq<char>>, None::<Seq<char>>, 0u32),
    {
        StreamContext { current_thread_id: None, current_turn_id: None, next_synthetic_turn: 0 }
    }
}

/// The string inside a JSON string value.
pub open spec fn str_of(v: Option<JsonView>) -> Option<Seq<char>> {
    match v {
        Some(JsonView::Str(s)) => Some(s),
        _ => None,
    }
}

/// `a`, or `b` when `a` is absent.
pub open spec fn either(a: Option<Seq<char>>, b: Option<Seq<char>>) -> Option<Seq<char>> {
    match a {
        Some(x) => Some(x),
        None => b,
    }
}

/// `extract_str`: the trimmed string under `key` of an object, when not empty.
pub open spec fn extract(v: JsonView, key: Seq<char>) -> Option<Seq<char>> {
    match v {
        JsonView::Object(m) => match str_of(m_get(m, key)) {
            Some(s) => if trim(s).len() > 0 {
                Some(trim(s))
            } else {
                None
            },
            None => None,
        },
        _ => None,
    }
}

/// `set_str`: `key` set to the string `s` on an object; other values are left as they are.
pub open spec fn set_str(v: JsonView, key: Seq<char>, s: Seq<char>) -> JsonView {
    match v {
        JsonView::Object(m) => JsonView::Object(m_insert(m, key, JsonView::Str(s))),
        _ => v,
    }
}

/// `{"<key>": "<s>"}`.
pub open spec fn single(key: Seq<char>, s: Seq<char>) -> JsonView {
    JsonView::Object(seq![(key, JsonView::Str(s))])
}

/// An item whose `item_type` is missing takes it from `type`.
pub open spec fn rename_type(item: Seq<(Seq<char>, JsonView)>) -> Seq<(Seq<char>, JsonView)> {
    if m_get(item, "item_type"@) is None {
        match m_get(item, "type"@) {
            Some(t) => m_insert(m_remove(item, "type"@), "item_type"@, t),
            None => item,
        }
    } else {
        item
    }
}

/// Moves member `from` of `item` into `content` under the name `to`, when present.
pub open spec fn move_member(
    item: Seq<(Seq<char>, JsonView)>,
    content: Seq<(Seq<char>, JsonView)>,
    from: Seq<char>,
    to: Seq<char>,
) -> (Seq<(Seq<char>, JsonView)>, Seq<(Seq<char>, JsonView)>) {
    match m_get(item, from) {
        Some(x) => (m_remove(item, from), m_insert(content, to, x)),
        None => (item, content),
    }
}

/// A command item's `content`: the command with its output, exit code and stderr.
pub open spec fn command_content(item: Seq<(Seq<char>, JsonView)>, command: JsonView) -> Seq<
    (Seq<char>, JsonView),
> {
    let (i1, c1) = move_member(item, seq![("command"@, command)], "aggregated_output"@, "stdout"@);
    let (i2, c2) = move_member(i1, c1, "exit_code"@, "exit_code"@);
    let (i3, c3) = move_member(i2, c2, "stderr"@, "stderr"@);
    m_insert(i3, "content"@, JsonView::Object(c3))
}

/// An item without `content` gets one from `text` (a string is wrapped as `{"text": ..}`) or,
/// failing that, from `command`.
pub open spec fn fill_content(item: Seq<(Seq<char>, JsonView)>) -> Seq<(Seq<char>, JsonView)> {
    if m_get(item, "content"@) is Some {
        item
    } else {
        match m_get(item, "text"@) {
            Some(t) => m_insert(
                m_remove(item, "text"@),
                "content"@,
                match t {
                    JsonView::Str(s) => single("text"@, s),
                    other => other,
                },
            ),
            None => match m_get(item, "command"@) {
                Some(c) => command_content(item, c),
                None => item,
            },
        }
    }
}

/// The item's kind: its `item_type` string, else its `type` string.
pub open spec fn item_kind(item: Seq<(Seq<char>, JsonView)>) -> Option<Seq<char>> {
    either(str_of(m_get(item, "item_type"@)), str_of(m_get(item, "type"@)))
}

pub open spec fn is_text_kind(kind: Option<Seq<char>>) -> bool {
    kind == Some("agent_message"@) || kind == Some("reasoning"@)
}

/// Message and reasoning items with string content get `{"text": ..}` content.
pub open spec fn wrap_text_content(item: Seq<(Seq<char>, JsonView)>) -> Seq<(Seq<char>, JsonView)> {
    if is_text_kind(item_kind(item)) {
        match m_get(item, "content"@) {
            Some(JsonView::Str(t)) => m_insert(item, "content"@, single("text"@, t)),
            _ => item,
        }
    } else {
        item
    }
}

/// Item member names as they land on the event: `type` becomes `item_type`.
pub open spec fn event_key(k: Seq<char>) -> Seq<char> {
    if k == "type"@ {
        "item_type"@
    } else {
        k
    }
}

/// The members of `item` copied onto `root` in order.
pub open spec fn merge_into(root: Seq<(Seq<char>, JsonView)>, item: Seq<(Seq<char>, JsonView)>) -> Seq<
    (Seq<char>, JsonView),
>
    decreases item.len(),
{
    if item.len() == 0 {
        root
    } else {
        m_insert(merge_into(root, item.drop_last()), event_key(item.last().0), item.last().1)
    }
}

/// `normalize_item_payload`: an event with an `item` object gets the item's members (after
/// the renames above) in place of `item`.
pub open spec fn item_payload_norm(v: JsonView) -> JsonView {
    match v {
        JsonView::Object(root) => match m_get(root, "item"@) {
            Some(JsonView::Object(item)) => {
                let i = wrap_text_content(fill_content(rename_type(item)));
                JsonView::Object(m_remove(merge_into(root, i), "item"@))
            },
            _ => v,
        },
        _ => v,
    }
}

/// `normalize_item_delta_payload`: `content` becomes `delta` when there is none, and the
/// string delta of a message or reasoning item becomes `{"text_delta": ..}`.
pub open spec fn delta_norm(v: JsonView) -> JsonView {
    match v {
        JsonView::Object(m) => {
            let m1 = if m_get(m, "delta"@) is None && m_get(m, "content"@) is Some {
                m_insert(m_remove(m, "content"@), "delta"@, m_get(m, "content"@).unwrap())
            } else {
                m
            };
            if is_text_kind(str_of(m_get(m1, "item_type"@))) {
                match m_get(m1, "delta"@) {
                    Some(JsonView::Str(d)) => JsonView::Object(
                        m_insert(m1, "delta"@, single("text_delta"@, d)),
                    ),
                    _ => JsonView::Object(m1),
                }
            } else {
                JsonView::Object(m1)
            }
        },
        _ => v,
    }
}

/// The event's `type` string.
pub open spec fn event_type(v: JsonView) -> Option<Seq<char>> {
    match v {
        JsonView::Object(m) => str_of(m_get(m, "type"@)),
        _ => None,
    }
}

/// The message of an event that lacks a field and has no context to take it from.
pub open spec fn missing_message(event: Seq<char>, field: Seq<char>) -> Seq<char> {
    event + " missing `"@ + field + "` and no prior context to infer it"@
}

/// The outcome of normalizing one event.
pub enum Normalized {
    Event(JsonView),
    /// The event cannot be normalized; the message says why.
    Rejected(Seq<char>),
}

pub open spec fn sat_inc(n: u32) -> u32 {
    if n == u32::MAX {
        n
    } else {
        (n + 1) as u32
    }
}

/// Normalizes a parsed event against the context, giving the outcome and the new context.
pub open spec fn normalize_view(v: JsonView, c: ContextView) -> (Normalized, ContextView) {
    match event_type(v) {
        None => (Normalized::Rejected("event missing `type`"@), c),
        Some(t) => if t == "thread.started"@ || t == "thread.resumed"@ {
            match either(extract(v, "thread_id"@), either(extract(v, "conversation_id"@), extract(v, "id"@))) {
                Some(th) => (Normalized::Event(v), (Some(th), None, c.2)),
                None => (Normalized::Rejected(missing_message(t, "thread_id"@)), c),
            }
        } else if t == "turn.started"@ {
            let given = either(extract(v, "turn_id"@), extract(v, "id"@));
            let next: u32 = if c.2 < 1 { 1 } else { c.2 };
            let turn = match given {
                Some(x) => x,
                None => "synthetic-turn-"@ + decimal(next as nat),
            };
            let c1: ContextView = match given {
                Some(_) => c,
                None => (c.0, c.1, sat_inc(next)),
            };
            match either(either(extract(v, "thread_id"@), extract(v, "conversation_id"@)), c1.0) {
                Some(th) => (
                    Normalized::Event(set_str(set_str(v, "turn_id"@, turn), "thread_id"@, th)),
                    (Some(th), Some(turn), c1.2),
                ),
                None => (Normalized::Rejected(missing_message(t, "thread_id"@)), c1),
            }
        } else if t == "turn.completed"@ || t == "turn.failed"@ {
            match either(either(extract(v, "turn_id"@), extract(v, "id"@)), c.1) {
                None => (Normalized::Rejected(missing_message(t, "turn_id"@)), c),
                Some(turn) => match either(
                    either(extract(v, "thread_id"@), extract(v, "conversation_id"@)),
                    c.0,
                ) {
                    None => (Normalized::Rejected(missing_message(t, "thread_id"@)), c),
                    Some(th) => (
                        Normalized::Event(set_str(set_str(v, "turn_id"@, turn), "thread_id"@, th)),
                        (Some(th), None, c.2),
                    ),
                },
            }
        } else if starts_with(t, "item."@) {
            let v1 = item_payload_norm(v);
            let v2 = if t == "item.delta"@ || t == "item.updated"@ {
                delta_norm(v1)
            } else {
                v1
            };
            match either(extract(v2, "turn_id"@), c.1) {
                None => (Normalized::Rejected(missing_message(t, "turn_id"@)), c),
                Some(turn) => match either(
                    either(extract(v2, "thread_id"@), extract(v2, "conversation_id"@)),
                    c.0,
                ) {
                    None => (Normalized::Rejected(missing_message(t, "thread_id"@)), c),
                    Some(th) => (
                        Normalized::Event(set_str(set_str(v2, "turn_id"@, turn), "thread_id"@, th)),
                        c,
                    ),
                },
            }
        } else {
            (Normalized::Event(v), c)
        },
    }
}

/// Why a line did not become an event.
#[derive(Debug)]
pub enum JsonlLineError {
    /// The line is not JSON.
    Parse { line: String },
    /// The event cannot be normalized.
    Normalize { line: String, message: String },
}


/// The value of member `key`, copied.
fn member_copy(m: &Vec<(String, JsonValue)>, key: &str) -> (r: Option<JsonValue>)
    ensures
        match r {
            Some(x) => m_get(jview_members(m@), key@) == Some(jview(x)),
            None => m_get(jview_members(m@), key@) is None,
        },
{
    match member_get(m, key) {
        Some(x) => Some(clone_json(x)),
        None => None,
    }
}

fn string_member(m: &Vec<(String, JsonValue)>, key: &str) -> (r: Option<String>)
    ensures
        opt_view(r) == str_of(m_get(jview_members(m@), key@)),
{
    match member_get(m, key) {
        Some(JsonValue::String(s)) => Some(s.clone()),
        _ => None,
    }
}

/// The trimmed string member `key` of an object, when not empty (see [`extract`]).
fn extract_str(v: &JsonValue, key: &str) -> (r: Option<String>)
    ensures
        opt_view(r) == extract(jview(*v), key@),
{
    match v {
        JsonValue::Object(m) => match string_member(m, key) {
            Some(s) => {
                let t = trim_chars(chars_of(s.as_str()).as_slice(), CharClass::Whitespace);
                if t.len() > 0 {
                    Some(string_of(t.as_slice()))
                } else {
                    None
                }
            },
            None => None,
        },
        _ => None,
    }
}

fn either_exec(a: Option<String>, b: Option<String>) -> (r: Option<String>)
    ensures
        opt_view(r) == either(opt_view(a), opt_view(b)),
{
    match a {
        Some(x) => Some(x),
        None => b,
    }
}

fn clone_opt(o: &Option<String>) -> (r: Option<String>)
    ensures
        opt_view(r) == opt_view(*o),
{
    match o {
        Some(s) => Some(s.clone()),
        None => None,
    }
}

/// The object with member `key` set to the string `s` (see [`set_str`]).
fn set_str_exec(v: JsonValue, key: &str, s: String) -> (r: JsonValue)
    ensures
        jview(r) == set_str(jview(v), key@, s@),
{
    match v {
        JsonValue::Object(m) => JsonValue::Object(member_insert(m, key, JsonValue::String(s))),
        other => other,
    }
}

fn single_exec(key: &str, s: String) -> (r: JsonValue)
    ensures
        jview(r) == single(key@, s@),
{
    let mut m: Vec<(String, JsonValue)> = Vec::new();
    m.push((key.to_owned(), JsonValue::String(s)));
    proof {
        reveal_with_fuel(jview_members, 2);
        assert(m@.drop_last() =~= Seq::<(String, JsonValue)>::empty());
        assert(m@[0].0@ == key@);
        assert(jview(m@[0].1) == JsonView::Str(s@));
        assert(jview_members(m@) =~= seq![(key@, JsonView::Str(s@))]);
    }
    JsonValue::Object(m)
}

fn rename_type_exec(item: Vec<(String, JsonValue)>) -> (r: Vec<(String, JsonValue)>)
    ensures
        jview_members(r@) == rename_type(jview_members(item@)),
{
    if member_get(&item, "item_type").is_none() {
        match member_copy(&item, "type") {
            Some(t) => member_insert(member_remove(item, "type"), "item_type", t),
            None => item,
        }
    } else {
        item
    }
}

fn move_member_exec(
    item: Vec<(String, JsonValue)>,
    content: Vec<(String, JsonValue)>,
    from: &str,
    to: &str,
) -> (r: (Vec<(String, JsonValue)>, Vec<(String, JsonValue)>))
    ensures
        (jview_members(r.0@), jview_members(r.1@)) == move_member(
            jview_members(item@),
            jview_members(content@),
            from@,
            to@,
        ),
{
    match member_copy(&item, from) {
        Some(x) => (member_remove(item, from), member_insert(content, to, x)),
        None => (item, content),
    }
}

fn command_content_exec(item: Vec<(String, JsonValue)>, command: JsonValue) -> (r: Vec<
    (String, JsonValue),
>)
    ensures
        jview_members(r@) == command_content(jview_members(item@), jview(command)),
{
    let mut c0: Vec<(String, JsonValue)> = Vec::new();
    let ghost cv = jview(command);
    c0.push(("command".to_owned(), command));
    proof {
        reveal_with_fuel(jview_members, 2);
        assert(c0@.drop_last() =~= Seq::<(String, JsonValue)>::empty());
        assert(jview_members(c0@) =~= seq![("command"@, cv)]);
    }
    let (i1, c1) = move_member_exec(item, c0, "aggregated_output", "stdout");
    let (i2, c2) = move_member_exec(i1, c1, "exit_code", "exit_code");
    let (i3, c3) = move_member_exec(i2, c2, "stderr", "stderr");
    member_insert(i3, "content", JsonValue::Object(c3))
}

fn fill_content_exec(item: Vec<(String, JsonValue)>) -> (r: Vec<(String, JsonValue)>)
    ensures
        jview_members(r@) == fill_content(jview_members(item@)),
{
    if member_get(&item, "content").is_some() {
        return item;
    }
    match member_copy(&item, "text") {
        Some(t) => {
            let content = match t {
                JsonValue::String(s) => single_exec("text", s),
                other => other,
            };
            member_insert(member_remove(item, "text"), "content", content)
        },
        None => match member_copy(&item, "command") {
            Some(c) => command_content_exec(item, c),
            None => item,
        },
    }
}

fn is_text_kind_exec(kind: &Option<String>) -> (r: bool)
    ensures
        r == is_text_kind(opt_view(*kind)),
{
    match kind {
        Some(k) => {
            let kc = chars_of(k.as_str());
            let a = lit("agent_message");
            let b = lit("reasoning");
            crate::text::eq_chars(kc.as_slice(), a.as_slice()) || crate::text::eq_chars(
                kc.as_slice(),
                b.as_slice(),
            )
        },
        None => false,
    }
}

fn wrap_text_content_exec(item: Vec<(String, JsonValue)>) -> (r: Vec<(String, JsonValue)>)
    ensures
        jview_members(r@) == wrap_text_content(jview_members(item@)),
{
    let kind = either_exec(string_member(&item, "item_type"), string_member(&item, "type"));
    if !is_text_kind_exec(&kind) {
        return item;
    }
    match string_member(&item, "content") {
        Some(t) => member_insert(item, "content", single_exec("text", t)),
        None => item,
    }
}

fn event_key_exec(k: String) -> (r: String)
    ensures
        r@ == event_key(k@),
{
    let kc = chars_of(k.as_str());
    let t = lit("type");
    if crate::text::eq_chars(kc.as_slice(), t.as_slice()) {
        "item_type".to_owned()
    } else {
        k
    }
}

fn merge_into_exec(root: Vec<(String, JsonValue)>, item: Vec<(String, JsonValue)>) -> (r: Vec<
    (String, JsonValue),
>)
    ensures
        jview_members(r@) == merge_into(jview_members(root@), jview_members(item@)),
{
    let ghost before = item@;
    let ghost rv = jview_members(root@);
    let n = item.len();
    let mut rest = item;
    let mut acc = root;
    let mut i: usize = 0;
    while i < n
        invariant
            i <= n == before.len(),
            rest@ == before.subrange(i as int, n as int),
            jview_members(acc@) == merge_into(rv, jview_members(before.take(i as int))),
        decreases n - i,
    {
        let (k, x) = rest.remove(0);
        assert((k, x) == before[i as int]);
        assert(rest@ =~= before.subrange(i + 1, n as int));
        proof {
            lemma_jview_members_take(before, i as int);
            let p = jview_members(before.take(i as int));
            assert(jview_members(before.take(i + 1)).drop_last() =~= p);
        }
        let key = event_key_exec(k);
        acc = member_insert(acc, key.as_str(), x);
        i = i + 1;
    }
    assert(before.take(n as int) =~= before);
    acc
}

/// Lifts the members of an event's `item` object into the event (see
/// [`item_payload_norm`]).
pub fn item_payload_norm_exec(v: JsonValue) -> (r: JsonValue)
    ensures
        jview(r) == item_payload_norm(jview(v)),
{
    match v {
        JsonValue::Object(root) => {
            let item = match member_copy(&root, "item") {
                Some(JsonValue::Object(item)) => item,
                _ => {
                    return JsonValue::Object(root);
                },
            };
            let i = wrap_text_content_exec(fill_content_exec(rename_type_exec(item)));
            JsonValue::Object(member_remove(merge_into_exec(root, i), "item"))
        },
        other => other,
    }
}

/// Moves `content` to `delta` and wraps the string delta of message and reasoning items (see
/// [`delta_norm`]).
pub fn delta_norm_exec(v: JsonValue) -> (r: JsonValue)
    ensures
        jview(r) == delta_norm(jview(v)),
{
    match v {
        JsonValue::Object(m) => {
            let m1 = if member_get(&m, "delta").is_none() {
                match member_copy(&m, "content") {
                    Some(c) => member_insert(member_remove(m, "content"), "delta", c),
                    None => m,
                }
            } else {
                m
            };
            let kind = string_member(&m1, "item_type");
            if !is_text_kind_exec(&kind) {
                return JsonValue::Object(m1);
            }
            match string_member(&m1, "delta") {
                Some(d) => JsonValue::Object(member_insert(m1, "delta", single_exec("text_delta", d))),
                None => JsonValue::Object(m1),
            }
        },
        other => other,
    }
}

fn event_type_exec(v: &JsonValue) -> (r: Option<String>)
    ensures
        opt_view(r) == event_type(jview(*v)),
{
    match v {
        JsonValue::Object(m) => string_member(m, "type"),
        _ => None,
    }
}

fn missing_exec(event: &str, field: &str) -> (r: String)
    ensures
        r@ == missing_message(event@, field@),
{
    let mut v = chars_of(event);
    let a = lit(" missing `");
    push_all(&mut v, a.as_slice());
    let f = chars_of(field);
    push_all(&mut v, f.as_slice());
    let b = lit("` and no prior context to infer it");
    push_all(&mut v, b.as_slice());
    string_of(v.as_slice())
}

fn str_is(s: &String, lit_text: &str) -> (r: bool)
    ensures
        r == (s@ == lit_text@),
{
    let a = chars_of(s.as_str());
    let b = chars_of(lit_text);
    crate::text::eq_chars(a.as_slice(), b.as_slice())
}

fn synthetic_turn_id(n: u32) -> (r: String)
    ensures
        r@ == "synthetic-turn-"@ + decimal(n as nat),
{
    let mut v = lit("synthetic-turn-");
    let d = decimal_chars(n as u64);
    push_all(&mut v, d.as_slice());
    string_of(v.as_slice())
}

/// The result of [`normalize_thread_event_value`] for the parsed event `v` of `line` agrees
/// with `normalize_view`.
pub open spec fn value_result_matches(
    line: Seq<char>,
    v: JsonView,
    c: ContextView,
    r: Result<JsonValue, JsonlLineError>,
    c2: ContextView,
) -> bool {
    let (out, after) = normalize_view(v, c);
    c2 == after && match out {
        Normalized::Event(e) => r matches Ok(x) && jview(x) == e,
        Normalized::Rejected(msg) => (r matches Err(JsonlLineError::Normalize { line: l, message: m })
            && l@ == line && m@ == msg),
    }
}

/// The result of [`normalize_thread_event`]: a parse error when the line is no JSON,
/// else the normalized event (see [`value_result_matches`]).
pub open spec fn line_result_matches(
    line: Seq<char>,
    c: ContextView,
    r: Result<JsonValue, JsonlLineError>,
    c2: ContextView,
) -> bool {
    match json_parse(line) {
        None => c2 == c && (r matches Err(JsonlLineError::Parse { line: l }) && l@ == line),
        Some(v) => value_result_matches(line, jview(v), c, r, c2),
    }
}

/// `normalize_thread_event`: parses one JSONL line and normalizes the event against the
/// context, updating it.
pub fn normalize_thread_event(line: &str, context: &mut StreamContext) -> (r: Result<
    JsonValue,
    JsonlLineError,
>)
    ensures
        line_result_matches(line@, ctx_view(*old(context)), r, ctx_view(*final(context))),
{
    match parse_json(line) {
        Some(value) => normalize_thread_event_value(line, value, context),
        None => Err(JsonlLineError::Parse { line: line.to_owned() }),
    }
}

/// What `normalize_thread_event` does once `line` has parsed to `value`: normalizes the
/// event against the context, updating it; errors carry `line`.
pub fn normalize_thread_event_value(line: &str, value: JsonValue, context: &mut StreamContext) -> (r:
    Result<JsonValue, JsonlLineError>)
    ensures
        value_result_matches(line@, jview(value), ctx_view(*old(context)), r, ctx_view(*final(context))),
{
    let t = match event_type_exec(&value) {
        Some(t) => t,
        None => {
            return Err(
                JsonlLineError::Normalize {
                    line: line.to_owned(),
                    message: "event missing `type`".to_owned(),
                },
            );
        },
    };
    if str_is(&t, "thread.started") || str_is(&t, "thread.resumed") {
        let th = either_exec(
            extract_str(&value, "thread_id"),
            either_exec(extract_str(&value, "conversation_id"), extract_str(&value, "id")),
        );
        match th {
            Some(th) => {
                context.current_thread_id = Some(th);
                context.current_turn_id = None;
                Ok(value)
            },
            None => Err(
                JsonlLineError::Normalize {
                    line: line.to_owned(),
                    message: missing_exec(t.as_str(), "thread_id"),
                },
            ),
        }
    } else if str_is(&t, "turn.started") {
        let given = either_exec(extract_str(&value, "turn_id"), extract_str(&value, "id"));
        let turn = match given {
            Some(x) => x,
            None => {
                let next: u32 = if context.next_synthetic_turn < 1 {
                    1
                } else {
                    context.next_synthetic_turn
                };
                let id = synthetic_turn_id(next);
                context.next_synthetic_turn = next.saturating_add(1);
                id
            },
        };
        let th = either_exec(
            either_exec(extract_str(&value, "thread_id"), extract_str(&value, "conversation_id")),
            clone_opt(&context.current_thread_id),
        );
        match th {
            Some(th) => {
                let v1 = set_str_exec(value, "turn_id", turn.clone());
                let v2 = set_str_exec(v1, "thread_id", th.clone());
                context.current_thread_id = Some(th);
                context.current_turn_id = Some(turn);
                Ok(v2)
            },
            None => Err(
                JsonlLineError::Normalize {
                    line: line.to_owned(),
                    message: missing_exec(t.as_str(), "thread_id"),
                },
            ),
        }
    } else if str_is(&t, "turn.completed") || str_is(&t, "turn.failed") {
        let turn = either_exec(
            either_exec(extract_str(&value, "turn_id"), extract_str(&value, "id")),
            clone_opt(&context.current_turn_id),
        );
        let turn = match turn {
            Some(x) => x,
            None => {
                return Err(
                    JsonlLineError::Normalize {
                        line: line.to_owned(),
                        message: missing_exec(t.as_str(), "turn_id"),
                    },
                );
            },
        };
        let th = either_exec(
            either_exec(extract_str(&value, "thread_id"), extract_str(&value, "conversation_id")),
            clone_opt(&context.current_thread_id),
        );
        match th {
            Some(th) => {
                let v1 = set_str_exec(value, "turn_id", turn);
                let v2 = set_str_exec(v1, "thread_id", th.clone());
                context.current_turn_id = None;
                context.current_thread_id = Some(th);
                Ok(v2)
            },
            None => Err(
                JsonlLineError::Normalize {
                    line: line.to_owned(),
                    message: missing_exec(t.as_str(), "thread_id"),
                },
            ),
        }
    } else if starts_with_chars(chars_of(t.as_str()).as_slice(), lit("item.").as_slice()) {
        let v1 = item_payload_norm_exec(value);
        let v2 = if str_is(&t, "item.delta") || str_is(&t, "item.updated") {
            delta_norm_exec(v1)
        } else {
            v1
        };
        let turn = match either_exec(extract_str(&v2, "turn_id"), clone_opt(&context.current_turn_id)) {
            Some(x) => x,
            None => {
                return Err(
                    JsonlLineError::Normalize {
                        line: line.to_owned(),
                        message: missing_exec(t.as_str(), "turn_id"),
                    },
                );
            },
        };
        let th = either_exec(
            either_exec(extract_str(&v2, "thread_id"), extract_str(&v2, "conversation_id")),
            clone_opt(&context.current_thread_id),
        );
        match th {
            Some(th) => {
                let v3 = set_str_exec(v2, "turn_id", turn);
                Ok(set_str_exec(v3, "thread_id", th))
            },
            None => Err(
                JsonlLineError::Normalize {
                    line: line.to_owned(),
                    message: missing_exec(t.as_str(), "thread_id"),
                },
            ),
        }
    } else {
        Ok(value)
    }
}

/// A line without one trailing carriage return.
pub open spec fn strip_cr(l: Seq<char>) -> Seq<char> {
    if l.len() > 0 && l.last() == '\r' {
        l.drop_last()
    } else {
        l
    }
}

/// Parses Codex `--json` JSONL logs line by line into normalized events.
#[derive(Debug)]
pub struct JsonlThreadEventParser {
    pub context: StreamContext,
}

impl JsonlThreadEventParser {
    /// A parser with no thread or turn context.
    pub fn new() -> (r: Self)
        ensures
            ctx_view(r.context) == (None::<Seq<char>>, None::<Seq<char>>, 0u32),
    {
        JsonlThreadEventParser { context: StreamContext::new() }
    }

    /// Clears the thread and turn context and the synthetic turn counter.
    pub fn reset(&mut self)
        ensures
            ctx_view(final(self).context) == (None::<Seq<char>>, None::<Seq<char>>, 0u32),
    {
        self.context = StreamContext::new();
    }

    /// Parses one line: `None` for a line that is empty or whitespace once a trailing `\r`
    /// is dropped, else the normalized event or why there is none.
    pub fn parse_line(&mut self, line: &str) -> (r: Result<Option<JsonValue>, JsonlLineError>)
        ensures
            crate::text::is_blank(strip_cr(line@)) ==> (r matches Ok(None) && ctx_view(final(self).context)
                == ctx_view(old(self).context)),
            !crate::text::is_blank(strip_cr(line@)) ==> match r {
                Ok(Some(e)) => line_result_matches(
                    strip_cr(line@),
                    ctx_view(old(self).context),
                    Ok(e),
                    ctx_view(final(self).context),
                ),
                Ok(None) => false,
                Err(x) => line_result_matches(
                    strip_cr(line@),
                    ctx_view(old(self).context),
                    Err(x),
                    ctx_view(final(self).context),
                ),
            },
    {
        let mut v = chars_of(line);
        if v.len() > 0 && v[v.len() - 1] == '\r' {
            v.pop();
        }
        let stripped = string_of(v.as_slice());
        if crate::text::blank(stripped.as_str()) {
            return Ok(None);
        }
        match normalize_thread_event(stripped.as_str(), &mut self.context) {
            Ok(e) => Ok(Some(e)),
            Err(x) => Err(x),
        }
    }
}

/// How reading the next line ended.
#[derive(Debug)]
pub enum LineRead {
    /// End of input.
    Eof,
    /// A line, with its newline if it had one.
    Line(String),
    /// The read failed.
    Failed,
}

/// Why a record carries no event.
#[derive(Debug)]
pub enum JsonlRecordError {
    Line(JsonlLineError),
    /// Reading the source failed.
    Read,
}

/// One parsed line with its 1-based line number.
#[derive(Debug)]
pub struct ThreadEventJsonlRecord {
    pub line_number: usize,
    pub outcome: Result<JsonValue, JsonlRecordError>,
}

/// What to do after a read.
#[derive(Debug)]
pub enum ReaderStep {
    /// The line was blank: read the next one.
    Skip,
    /// Hand out this record.
    Yield(ThreadEventJsonlRecord),
    /// No more records.
    End,
}

/// A line without one trailing newline.
pub open spec fn strip_nl(l: Seq<char>) -> Seq<char> {
    if l.len() > 0 && l.last() == '\n' {
        l.drop_last()
    } else {
        l
    }
}

pub open spec fn sat_inc_usize(n: usize) -> usize {
    if n == usize::MAX {
        n
    } else {
        (n + 1) as usize
    }
}

/// The bookkeeping of a reader-backed parse: line numbers, the parser, and whether the
/// source is exhausted. The reads themselves are done by the caller.
#[derive(Debug)]
pub struct ThreadEventJsonlReader {
    pub parser: JsonlThreadEventParser,
    pub line_number: usize,
    pub done: bool,
}

/// A reader state at line 0 with a fresh parser.
pub fn thread_event_jsonl_reader() -> (r: ThreadEventJsonlReader)
    ensures
        r.line_number == 0 && !r.done,
        ctx_view(r.parser.context) == (None::<Seq<char>>, None::<Seq<char>>, 0u32),
{
    ThreadEventJsonlReader { parser: JsonlThreadEventParser::new(), line_number: 0, done: false }
}

impl ThreadEventJsonlReader {
    /// The step after a read: end of input and read failures end the reader (a failure
    /// yields one record first); a line advances the line number and is parsed without its
    /// newline, blank lines being skipped.
    pub fn on_read(&mut self, read: LineRead) -> (r: ReaderStep)
        ensures
            old(self).done ==> (r matches ReaderStep::End && final(self).done),
            !old(self).done ==> match read {
                LineRead::Eof => r matches ReaderStep::End && final(self).done
                    && final(self).line_number == old(self).line_number,
                LineRead::Failed => final(self).done && final(self).line_number == sat_inc_usize(
                    old(self).line_number,
                ) && (r matches ReaderStep::Yield(rec) && rec.line_number == final(self).line_number
                    && rec.outcome matches Err(JsonlRecordError::Read)),
                LineRead::Line(l) => !final(self).done && final(self).line_number == sat_inc_usize(
                    old(self).line_number,
                ) && if crate::text::is_blank(strip_cr(strip_nl(l@))) {
                    r matches ReaderStep::Skip && ctx_view(final(self).parser.context) == ctx_view(
                        old(self).parser.context,
                    )
                } else {
                    r matches ReaderStep::Yield(rec) && rec.line_number == final(self).line_number
                        && match rec.outcome {
                        Ok(e) => line_result_matches(
                            strip_cr(strip_nl(l@)),
                            ctx_view(old(self).parser.context),
                            Ok(e),
                            ctx_view(final(self).parser.context),
                        ),
                        Err(JsonlRecordError::Line(x)) => line_result_matches(
                            strip_cr(strip_nl(l@)),
                            ctx_view(old(self).parser.context),
                            Err(x),
                            ctx_view(final(self).parser.context),
                        ),
                        Err(JsonlRecordError::Read) => false,
                    }
                },
            },
    {
        if self.done {
            return ReaderStep::End;
        }
        let line_number = self.line_number.saturating_add(1);
        match read {
            LineRead::Eof => {
                self.done = true;
                ReaderStep::End
            },
            LineRead::Failed => {
                self.done = true;
                self.line_number = line_number;
                ReaderStep::Yield(
                    ThreadEventJsonlRecord { line_number, outcome: Err(JsonlRecordError::Read) },
                )
            },
            LineRead::Line(l) => {
                self.line_number = line_number;
                let mut v = chars_of(l.as_str());
                if v.len() > 0 && v[v.len() - 1] == '\n' {
                    v.pop();
                }
                let text = string_of(v.as_slice());
                match self.parser.parse_line(text.as_str()) {
                    Ok(None) => ReaderStep::Skip,
                    Ok(Some(e)) => ReaderStep::Yield(
                        ThreadEventJsonlRecord { line_number, outcome: Ok(e) },
                    ),
                    Err(x) => ReaderStep::Yield(
                        ThreadEventJsonlRecord { line_number, outcome: Err(JsonlRecordError::Line(x)) },
                    ),
                }
            },
        }
    }
}

/// An object keeps being an object through the item normalizations.
proof fn lemma_norms_keep_object(v: JsonView)
    requires
        v is Object,
    ensures
        item_payload_norm(v) is Object,
        delta_norm(item_payload_norm(v)) is Object,
{
}

/// `thread_id` then `turn_id`: both read back as the strings written.
proof fn lemma_ids_written(v: JsonView, turn: Seq<char>, th: Seq<char>)
    requires
        v is Object,
    ensures
        set_str(set_str(v, "turn_id"@, turn), "thread_id"@, th) matches JsonView::Object(m) && str_of(
            m_get(m, "turn_id"@),
        ) == Some(turn) && str_of(m_get(m, "thread_id"@)) == Some(th),
{
    let m0 = v->Object_0;
    let m1 = m_insert(m0, "turn_id"@, JsonView::Str(turn));
    lemma_m_insert_get(m0, "turn_id"@, JsonView::Str(turn), "turn_id"@);
    lemma_m_insert_get(m1, "thread_id"@, JsonView::Str(th), "turn_id"@);
    lemma_m_insert_get(m1, "thread_id"@, JsonView::Str(th), "thread_id"@);
    assert("turn_id"@ != "thread_id"@) by {
        reveal_strlit("turn_id");
        reveal_strlit("thread_id");
        assert("turn_id"@[1] != "thread_id"@[1]);
    }
}

/// The event names are distinct, and only item events start with `item.`.
proof fn lemma_event_names()
    ensures
        "thread.started"@ != "turn.started"@,
        "thread.resumed"@ != "turn.started"@,
        "thread.started"@ != "turn.completed"@,
        "thread.resumed"@ != "turn.completed"@,
        "thread.started"@ != "turn.failed"@,
        "thread.resumed"@ != "turn.failed"@,
        "turn.started"@ != "turn.completed"@,
        "turn.started"@ != "turn.failed"@,
        !starts_with("thread.started"@, "item."@),
        !starts_with("thread.resumed"@, "item."@),
        !starts_with("turn.started"@, "item."@),
        !starts_with("turn.completed"@, "item."@),
        !starts_with("turn.failed"@, "item."@),
{
    reveal_strlit("thread.started");
    reveal_strlit("thread.resumed");
    reveal_strlit("turn.started");
    reveal_strlit("turn.completed");
    reveal_strlit("turn.failed");
    reveal_strlit("item.");
    assert("thread.started"@[1] != "turn.started"@[1]);
    assert("thread.resumed"@[1] != "turn.started"@[1]);
    assert("thread.started"@[1] != "turn.completed"@[1]);
    assert("thread.resumed"@[1] != "turn.completed"@[1]);
    assert("thread.started"@[1] != "turn.failed"@[1]);
    assert("thread.resumed"@[1] != "turn.failed"@[1]);
    assert("turn.started"@[5] != "turn.completed"@[5]);
    assert("turn.started"@[5] != "turn.failed"@[5]);
    assert("thread.started"@.subrange(0, 5)[0] != "item."@[0]);
    assert("thread.resumed"@.subrange(0, 5)[0] != "item."@[0]);
    assert("turn.started"@.subrange(0, 5)[0] != "item."@[0]);
    assert("turn.completed"@.subrange(0, 5)[0] != "item."@[0]);
    assert("turn.failed"@.subrange(0, 5)[0] != "item."@[0]);
}

/// The number an id-less `turn.started` event takes from a context whose counter is `n`:
/// `n`, or 1 while the counter is still 0.
pub open spec fn synthetic_number(n: u32) -> nat {
    if n == 0 {
        1
    } else {
        n as nat
    }
}

/// An id-less `turn.started` event takes the turn id `synthetic-turn-<k>`, `k` being the
/// context's counter (at least 1), and moves the counter one past `k` (it stays at the largest
/// `u32`), whether or not the event then normalizes.
pub proof fn law_synthetic_turn_ids_advance(v: JsonView, c: ContextView)
    requires
        event_type(v) == Some("turn.started"@),
        extract(v, "turn_id"@) is None,
        extract(v, "id"@) is None,
    ensures
        normalize_view(v, c).1.2 as int == if synthetic_number(c.2) == u32::MAX {
            u32::MAX as int
        } else {
            synthetic_number(c.2) + 1int
        },
        normalize_view(v, c).0 is Event ==> normalize_view(v, c).1.1 == Some(
            "synthetic-turn-"@ + decimal(synthetic_number(c.2)),
        ),
{
    lemma_event_names();
}

/// Two id-less `turn.started` events in a row, below the counter's limit, get different turn
/// ids: the second is numbered one past the first.
pub proof fn law_consecutive_synthetic_turns_differ(v1: JsonView, v2: JsonView, c: ContextView)
    requires
        event_type(v1) == Some("turn.started"@),
        extract(v1, "turn_id"@) is None,
        extract(v1, "id"@) is None,
        event_type(v2) == Some("turn.started"@),
        extract(v2, "turn_id"@) is None,
        extract(v2, "id"@) is None,
        synthetic_number(c.2) < u32::MAX,
        normalize_view(v1, c).0 is Event,
        normalize_view(v2, normalize_view(v1, c).1).0 is Event,
    ensures
        normalize_view(v1, c).1.1 == Some("synthetic-turn-"@ + decimal(synthetic_number(c.2))),
        normalize_view(v2, normalize_view(v1, c).1).1.1 == Some(
            "synthetic-turn-"@ + decimal(synthetic_number(c.2) + 1),
        ),
        normalize_view(v2, normalize_view(v1, c).1).1.1 != normalize_view(v1, c).1.1,
{
    let c1 = normalize_view(v1, c).1;
    law_synthetic_turn_ids_advance(v1, c);
    law_synthetic_turn_ids_advance(v2, c1);
    assert(synthetic_number(c1.2) == synthetic_number(c.2) + 1);
    let p = "synthetic-turn-"@;
    let a = decimal(synthetic_number(c.2));
    let b = decimal(synthetic_number(c.2) + 1);
    if p + a == p + b {
        assert(a =~= (p + a).subrange(p.len() as int, (p + a).len() as int));
        assert(b =~= (p + b).subrange(p.len() as int, (p + b).len() as int));
        lemma_decimal_injective(synthetic_number(c.2), synthetic_number(c.2) + 1);
    }
}

/// Every turn and item event that normalizes carries string `thread_id` and `turn_id`
/// members; item events leave the context as it was; a completed or failed turn clears the
/// current turn; a started turn becomes the current one, under the thread it was given.
pub proof fn law_normalized_events_carry_ids(v: JsonView, c: ContextView)
    ensures
        match event_type(v) {
            Some(t) => (t == "turn.started"@ || t == "turn.completed"@ || t == "turn.failed"@ || (!(t
                == "thread.started"@ || t == "thread.resumed"@) && starts_with(t, "item."@))) ==> match normalize_view(
                v,
                c,
            ).0 {
                Normalized::Event(e) => e matches JsonView::Object(m) && str_of(m_get(m, "turn_id"@)) is Some
                    && str_of(m_get(m, "thread_id"@)) is Some,
                Normalized::Rejected(_) => true,
            },
            None => true,
        },
        match event_type(v) {
            Some(t) => {
                &&& (!(t == "thread.started"@ || t == "thread.resumed"@ || t == "turn.started"@ || t
                    == "turn.completed"@ || t == "turn.failed"@) && starts_with(t, "item."@))
                    ==> normalize_view(v, c).1 == c
                &&& ((t == "turn.completed"@ || t == "turn.failed"@) && normalize_view(v, c).0 is Event)
                    ==> normalize_view(v, c).1.1 is None
                &&& (t == "turn.started"@ && normalize_view(v, c).0 is Event) ==> (normalize_view(v, c).0
                    matches Normalized::Event(JsonView::Object(m)) && str_of(m_get(m, "turn_id"@))
                    == normalize_view(v, c).1.1 && str_of(m_get(m, "thread_id"@)) == normalize_view(v, c).1.0)
            },
            None => true,
        },
{
    match event_type(v) {
        Some(t) => {
            lemma_event_names();
            assert(v is Object);
            lemma_norms_keep_object(v);
            if t == "turn.started"@ {
                let given = either(extract(v, "turn_id"@), extract(v, "id"@));
                let next: u32 = if c.2 < 1 { 1 } else { c.2 };
                let turn = match given {
                    Some(x) => x,
                    None => "synthetic-turn-"@ + decimal(next as nat),
                };
                let c1: ContextView = match given {
                    Some(_) => c,
                    None => (c.0, c.1, sat_inc(next)),
                };
                match either(either(extract(v, "thread_id"@), extract(v, "conversation_id"@)), c1.0) {
                    Some(th) => lemma_ids_written(v, turn, th),
                    None => {},
                }
            } else if t == "turn.completed"@ || t == "turn.failed"@ {
                match either(either(extract(v, "turn_id"@), extract(v, "id"@)), c.1) {
                    Some(turn) => match either(
                        either(extract(v, "thread_id"@), extract(v, "conversation_id"@)),
                        c.0,
                    ) {
                        Some(th) => lemma_ids_written(v, turn, th),
                        None => {},
                    },
                    None => {},
                }
            } else if starts_with(t, "item."@) && !(t == "thread.started"@ || t == "thread.resumed"@) {
                let v1 = item_payload_norm(v);
                let v2 = if t == "item.delta"@ || t == "item.updated"@ {
                    delta_norm(v1)
                } else {
                    v1
                };
                match either(extract(v2, "turn_id"@), c.1) {
                    Some(turn) => match either(
                        either(extract(v2, "thread_id"@), extract(v2, "conversation_id"@)),
                        c.0,
                    ) {
                        Some(th) => lemma_ids_written(v2, turn, th),
                        None => {},
                    },
                    None => {},
                }
            }
        },
        None => {},
    }
}

} // verus!
