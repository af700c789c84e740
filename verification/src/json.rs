//! A plain model of JSON values and the parse that `serde_json` performs into it.

use vstd::prelude::*;

verus! {

/// A JSON value. Object members keep the order `serde_json` yields them in (sorted by key,
/// one member per key).
#[derive(Debug)]
pub enum JsonValue {
    Null,
    Bool(bool),
    /// A number, kept as the text `serde_json` prints for it.
    Number(String),
    String(String),
    Array(Vec<JsonValue>),
    Object(Vec<(String, JsonValue)>),
}

#[verifier::external_type_specification]
#[verifier::external_body]
pub struct ExSerdeJsonValue(serde_json::Value);

/// What `serde_json::from_str::<serde_json::Value>` yields for a text, in this model;
/// `None` when the text is not JSON.
pub uninterp spec fn json_parse(text: Seq<char>) -> Option<JsonValue>;

/// Converts a `serde_json::Value` into the model, one variant for one variant.
#[verifier::external_body]
fn json_from_serde(value: serde_json::Value) -> JsonValue {
    match value {
        serde_json::Value::Null => JsonValue::Null,
        serde_json::Value::Bool(b) => JsonValue::Bool(b),
        serde_json::Value::Number(n) => JsonValue::Number(n.to_string()),
        serde_json::Value::String(s) => JsonValue::String(s),
        serde_json::Value::Array(items) => JsonValue::Array(items.into_iter().map(json_from_serde).collect()),
        serde_json::Value::Object(map) => JsonValue::Object(
            map.into_iter().map(|(k, v)| (k, json_from_serde(v))).collect(),
        ),
    }
}

/// Parses JSON text with `serde_json::from_str` into the model.
#[verifier::external_body]
pub fn parse_json(text: &str) -> (r: Option<JsonValue>)
    ensures
        r == json_parse(text@),
{
    serde_json::from_str::<serde_json::Value>(text).ok().map(json_from_serde)
}


/// A JSON value as plain data: strings as character sequences, objects as member lists.
pub enum JsonView {
    Null,
    Bool(bool),
    Number(Seq<char>),
    Str(Seq<char>),
    Array(Seq<JsonView>),
    Object(Seq<(Seq<char>, JsonView)>),
}

/// The plain view of a JSON value.
pub open spec fn jview(v: JsonValue) -> JsonView
    decreases v,
{
    match v {
        JsonValue::Null => JsonView::Null,
        JsonValue::Bool(b) => JsonView::Bool(b),
        JsonValue::Number(n) => JsonView::Number(n@),
        JsonValue::String(s) => JsonView::Str(s@),
        JsonValue::Array(items) => JsonView::Array(jview_items(items@)),
        JsonValue::Object(members) => JsonView::Object(jview_members(members@)),
    }
}

pub open spec fn jview_items(items: Seq<JsonValue>) -> Seq<JsonView>
    decreases items,
{
    if items.len() == 0 {
        Seq::empty()
    } else {
        jview_items(items.drop_last()).push(jview(items.last()))
    }
}

pub open spec fn jview_members(members: Seq<(String, JsonValue)>) -> Seq<(Seq<char>, JsonView)>
    decreases members,
{
    if members.len() == 0 {
        Seq::empty()
    } else {
        jview_members(members.drop_last()).push((members.last().0@, jview(members.last().1)))
    }
}

pub proof fn lemma_jview_members_take(members: Seq<(String, JsonValue)>, i: int)
    requires
        0 <= i < members.len(),
    ensures
        jview_members(members.take(i + 1)) == jview_members(members.take(i)).push(
            (members[i].0@, jview(members[i].1)),
        ),
{
    assert(members.take(i + 1).drop_last() =~= members.take(i));
}

pub proof fn lemma_jview_items_take(items: Seq<JsonValue>, i: int)
    requires
        0 <= i < items.len(),
    ensures
        jview_items(items.take(i + 1)) == jview_items(items.take(i)).push(jview(items[i])),
{
    assert(items.take(i + 1).drop_last() =~= items.take(i));
}

/// The view of a list has one entry per item.
pub proof fn lemma_jview_items_len(items: Seq<JsonValue>)
    ensures
        jview_items(items).len() == items.len(),
    decreases items.len(),
{
    if items.len() > 0 {
        lemma_jview_items_len(items.drop_last());
    }
}

/// Entry `i` of the view of a list is the view of item `i`.
pub proof fn lemma_jview_items_index(items: Seq<JsonValue>, i: int)
    requires
        0 <= i < items.len(),
    ensures
        jview_items(items)[i] == jview(items[i]),
    decreases items.len(),
{
    lemma_jview_items_len(items.drop_last());
    if i < items.len() - 1 {
        lemma_jview_items_index(items.drop_last(), i);
    }
}

/// A deep copy of a JSON value.
pub fn clone_json(v: &JsonValue) -> (r: JsonValue)
    ensures
        jview(r) == jview(*v),
    decreases v,
{
    match v {
        JsonValue::Null => JsonValue::Null,
        JsonValue::Bool(b) => JsonValue::Bool(*b),
        JsonValue::Number(n) => JsonValue::Number(n.clone()),
        JsonValue::String(s) => JsonValue::String(s.clone()),
        JsonValue::Array(items) => {
            let mut out: Vec<JsonValue> = Vec::new();
            let mut i: usize = 0;
            while i < items.len()
                invariant
                    i <= items.len(),
                    *v == JsonValue::Array(*items),
                    jview_items(out@) == jview_items(items@.take(i as int)),
                decreases items.len() - i,
            {
                proof {
                    assert(decreases_to!(*v => (*v)->Array_0));
                    assert(decreases_to!(*items => items@));
                    assert(decreases_to!(items@ => items@[i as int]));
                    assert(decreases_to!(*v => items@[i as int]));
                }
                let c = clone_json(&items[i]);
                let ghost before = out@;
                out.push(c);
                proof {
                    assert(out@.drop_last() =~= before);
                    lemma_jview_items_take(items@, i as int);
                }
                i = i + 1;
            }
            assert(items@.take(items@.len() as int) =~= items@);
            JsonValue::Array(out)
        },
        JsonValue::Object(members) => {
            let mut out: Vec<(String, JsonValue)> = Vec::new();
            let mut i: usize = 0;
            while i < members.len()
                invariant
                    i <= members.len(),
                    *v == JsonValue::Object(*members),
                    jview_members(out@) == jview_members(members@.take(i as int)),
                decreases members.len() - i,
            {
                proof {
                    assert(decreases_to!(*v => (*v)->Object_0));
                    assert(decreases_to!(*members => members@));
                    assert(decreases_to!(members@ => members@[i as int]));
                    assert(decreases_to!(members@[i as int] => members@[i as int].1));
                    assert(decreases_to!(*v => members@[i as int].1));
                }
                let (k, x) = &members[i];
                let c = clone_json(x);
                let ghost before = out@;
                out.push((k.clone(), c));
                proof {
                    assert(out@.drop_last() =~= before);
                    lemma_jview_members_take(members@, i as int);
                }
                i = i + 1;
            }
            assert(members@.take(members@.len() as int) =~= members@);
            JsonValue::Object(out)
        },
    }
}


/// The value of the last member named `k`.
pub open spec fn m_get(m: Seq<(Seq<char>, JsonView)>, k: Seq<char>) -> Option<JsonView>
    decreases m.len(),
{
    if m.len() == 0 {
        None
    } else if m.last().0 == k {
        Some(m.last().1)
    } else {
        m_get(m.drop_last(), k)
    }
}

/// The members not named `k`, in order.
pub open spec fn m_remove(m: Seq<(Seq<char>, JsonView)>, k: Seq<char>) -> Seq<(Seq<char>, JsonView)>
    decreases m.len(),
{
    if m.len() == 0 {
        m
    } else if m.last().0 == k {
        m_remove(m.drop_last(), k)
    } else {
        m_remove(m.drop_last(), k).push(m.last())
    }
}

/// `k` set to `v`: any previous member of that name is replaced.
pub open spec fn m_insert(m: Seq<(Seq<char>, JsonView)>, k: Seq<char>, v: JsonView) -> Seq<(Seq<char>, JsonView)> {
    m_remove(m, k).push((k, v))
}

pub proof fn lemma_m_push(m: Seq<(Seq<char>, JsonView)>, x: (Seq<char>, JsonView), k: Seq<char>)
    ensures
        m_get(m.push(x), k) == if x.0 == k { Some(x.1) } else { m_get(m, k) },
        m_remove(m.push(x), k) == if x.0 == k { m_remove(m, k) } else { m_remove(m, k).push(x) },
{
    assert(m.push(x).drop_last() =~= m);
}

/// The value of the last member of `m` named `key`.
pub fn member_get<'a>(m: &'a Vec<(String, JsonValue)>, key: &str) -> (r: Option<&'a JsonValue>)
    ensures
        match r {
            Some(v) => m_get(jview_members(m@), key@) == Some(jview(*v)),
            None => m_get(jview_members(m@), key@) is None,
        },
{
    let k = key.to_owned();
    let mut found: Option<usize> = None;
    let mut i: usize = 0;
    while i < m.len()
        invariant
            i <= m.len(),
            k@ == key@,
            match found {
                Some(j) => j < i && m_get(jview_members(m@.take(i as int)), key@) == Some(
                    jview(m@[j as int].1),
                ),
                None => m_get(jview_members(m@.take(i as int)), key@) is None,
            },
        decreases m.len() - i,
    {
        proof {
            lemma_jview_members_take(m@, i as int);
            lemma_m_push(jview_members(m@.take(i as int)), (m@[i as int].0@, jview(m@[i as int].1)), key@);
        }
        if m[i].0 == k {
            found = Some(i);
        }
        i = i + 1;
    }
    assert(m@.take(m@.len() as int) =~= m@);
    match found {
        Some(j) => Some(&m[j].1),
        None => None,
    }
}

/// `m` without its members named `key`.
pub fn member_remove(m: Vec<(String, JsonValue)>, key: &str) -> (r: Vec<(String, JsonValue)>)
    ensures
        jview_members(r@) == m_remove(jview_members(m@), key@),
{
    let k = key.to_owned();
    let ghost before = m@;
    let n = m.len();
    let mut rest = m;
    let mut kept: Vec<(String, JsonValue)> = Vec::new();
    let mut i: usize = 0;
    while i < n
        invariant
            i <= n == before.len(),
            k@ == key@,
            rest@ == before.subrange(i as int, n as int),
            jview_members(kept@) == m_remove(jview_members(before.take(i as int)), key@),
        decreases n - i,
    {
        let e = rest.remove(0);
        assert(e == before[i as int]);
        assert(rest@ =~= before.subrange(i + 1, n as int));
        proof {
            lemma_jview_members_take(before, i as int);
            lemma_m_push(jview_members(before.take(i as int)), (e.0@, jview(e.1)), key@);
        }
        if e.0 != k {
            let ghost kb = kept@;
            kept.push(e);
            assert(kept@.drop_last() =~= kb);
        }
        i = i + 1;
    }
    assert(before.take(n as int) =~= before);
    kept
}

/// `m` with `key` set to `v`.
pub fn member_insert(m: Vec<(String, JsonValue)>, key: &str, v: JsonValue) -> (r: Vec<(String, JsonValue)>)
    ensures
        jview_members(r@) == m_insert(jview_members(m@), key@, jview(v)),
{
    let mut r = member_remove(m, key);
    let ghost rb = r@;
    r.push((key.to_owned(), v));
    assert(r@.drop_last() =~= rb);
    r
}

/// Reading a member after removing or setting one.
pub proof fn lemma_m_insert_get(m: Seq<(Seq<char>, JsonView)>, k: Seq<char>, v: JsonView, j: Seq<char>)
    ensures
        m_get(m_remove(m, k), j) == if j == k { None } else { m_get(m, j) },
        m_get(m_insert(m, k, v), j) == if j == k { Some(v) } else { m_get(m, j) },
    decreases m.len(),
{
    if m.len() > 0 {
        lemma_m_insert_get(m.drop_last(), k, v, j);
        lemma_m_push(m_remove(m.drop_last(), k), m.last(), j);
    }
    lemma_m_push(m_remove(m, k), (k, v), j);
}

} // verus!
